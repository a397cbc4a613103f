//! Verified text helpers: decimal rendering of small numbers, the question
//! string of a math challenge, the client network hint taken from a forwarded
//! header, and the composite rate-limit key.

use vstd::prelude::*;

verus! {

use vstd::string::StrSliceExecFns;
use vstd::string::StringExecFns;

/// The decimal digit character of a value in 0..=9.
pub open spec fn digit_char(d: int) -> char {
    if d == 0 {
        '0'
    } else if d == 1 {
        '1'
    } else if d == 2 {
        '2'
    } else if d == 3 {
        '3'
    } else if d == 4 {
        '4'
    } else if d == 5 {
        '5'
    } else if d == 6 {
        '6'
    } else if d == 7 {
        '7'
    } else if d == 8 {
        '8'
    } else {
        '9'
    }
}

/// The decimal rendering of a non-negative number, most significant digit
/// first, with no sign and no leading zeros (except for 0 itself).
pub open spec fn spec_decimal(n: int) -> Seq<char>
    decreases n,
{
    if n < 0 {
        Seq::empty()
    } else if n < 10 {
        seq![digit_char(n)]
    } else {
        spec_decimal(n / 10).push(digit_char(n % 10))
    }
}

fn digit_str(d: i32) -> (r: &'static str)
    requires
        0 <= d <= 9,
    ensures
        r@ == seq![digit_char(d as int)],
{
    proof {
        reveal_strlit("0");
        reveal_strlit("1");
        reveal_strlit("2");
        reveal_strlit("3");
        reveal_strlit("4");
        reveal_strlit("5");
        reveal_strlit("6");
        reveal_strlit("7");
        reveal_strlit("8");
        reveal_strlit("9");
    }
    let r: &'static str = match d {
        0 => "0",
        1 => "1",
        2 => "2",
        3 => "3",
        4 => "4",
        5 => "5",
        6 => "6",
        7 => "7",
        8 => "8",
        _ => "9",
    };
    proof {
        assert(r@ =~= seq![digit_char(d as int)]);
    }
    r
}

/// Renders a number in 0..=99 in decimal.
pub fn decimal_string(n: i32) -> (r: String)
    requires
        0 <= n <= 99,
    ensures
        r@ == spec_decimal(n as int),
{
    if n < 10 {
        String::from_str(digit_str(n))
    } else {
        let tens: i32 = n / 10;
        let ones: i32 = n % 10;
        let r = String::from_str(digit_str(tens)).concat(digit_str(ones));
        proof {
            assert(1 <= n as int / 10 <= 9);
            assert(spec_decimal(n as int / 10) =~= seq![digit_char(n as int / 10)]);
            assert(r@ =~= spec_decimal(n as int));
        }
        r
    }
}

/// The question shown for operands `a` and `b`: their decimal renderings
/// around a plus sign, followed by " = ?".
pub open spec fn question_seq(a: int, b: int) -> Seq<char> {
    spec_decimal(a) + " + "@ + spec_decimal(b) + " = ?"@
}

/// Builds the question string of a challenge with operands `a` and `b`.
pub fn question_string(a: i32, b: i32) -> (r: String)
    requires
        0 <= a <= 99,
        0 <= b <= 99,
    ensures
        r@ == question_seq(a as int, b as int),
{
    let r = decimal_string(a).concat(" + ").concat(decimal_string(b).as_str()).concat(" = ?");
    proof {
        assert(r@ =~= question_seq(a as int, b as int));
    }
    r
}

/// The prefix of a sequence up to (and not including) its first comma; the
/// whole sequence when it holds no comma.
pub open spec fn before_comma(s: Seq<char>) -> Seq<char>
    decreases s.len(),
{
    if s.len() == 0 {
        s
    } else if s[0] == ',' {
        Seq::empty()
    } else {
        seq![s[0]] + before_comma(s.drop_first())
    }
}

proof fn lemma_before_comma_prefix(s: Seq<char>, i: int)
    requires
        0 <= i <= s.len(),
        forall|j: int| 0 <= j < i ==> s[j] != ',',
        i == s.len() || s[i] == ',',
    ensures
        before_comma(s) == s.subrange(0, i),
    decreases i,
{
    if i == 0 {
        assert(before_comma(s) =~= s.subrange(0, 0));
    } else {
        assert(s[0] != ',');
        let t = s.drop_first();
        assert(forall|j: int| 0 <= j < i - 1 ==> t[j] == s[j + 1] && t[j] != ',');
        lemma_before_comma_prefix(t, i - 1);
        assert(before_comma(s) =~= s.subrange(0, i));
    }
}

/// The client network hint used in the rate-limit key: the first entry of the
/// forwarded-for header, or the shared sentinel "unknown" when the header is
/// absent.
pub open spec fn spec_client_hint(forwarded: Option<Seq<char>>) -> Seq<char> {
    match forwarded {
        Option::None => "unknown"@,
        Option::Some(s) => before_comma(s),
    }
}

/// Extracts the client hint from the forwarded-for header value, if any.
pub fn client_hint<'a>(forwarded: Option<&'a str>) -> (r: &'a str)
    ensures
        forwarded is None ==> r@ == spec_client_hint(Option::None),
        forwarded matches Some(s) ==> r@ == spec_client_hint(Option::Some(s@)),
{
    match forwarded {
        None => "unknown",
        Some(s) => {
            let len = s.unicode_len();
            let mut i: usize = 0;
            loop
                invariant
                    i <= len,
                    len == s@.len(),
                    forall|j: int| 0 <= j < i ==> s@[j] != ',',
                ensures
                    i <= s@.len(),
                    forall|j: int| 0 <= j < i ==> s@[j] != ',',
                    i == s@.len() || s@[i as int] == ',',
                decreases len - i,
            {
                if i == len {
                    break ;
                }
                if s.get_char(i) == ',' {
                    break ;
                }
                i = i + 1;
            }
            let prefix = s.substring_char(0, i);
            proof {
                lemma_before_comma_prefix(s@, i as int);
            }
            prefix
        },
    }
}

/// The rate-limit key of a request: the recipient identity and the client
/// hint, joined by a colon.
pub open spec fn spec_rate_key(public_key: Seq<char>, hint: Seq<char>) -> Seq<char> {
    public_key + ":"@ + hint
}

/// Builds the composite rate-limit key.
pub fn rate_limit_key(public_key: &str, hint: &str) -> (r: String)
    ensures
        r@ == spec_rate_key(public_key@, hint@),
{
    let r = String::from_str(public_key).concat(":").concat(hint);
    proof {
        assert(r@ =~= spec_rate_key(public_key@, hint@));
    }
    r
}

} // verus!
