//! The math-challenge store: issues short-lived proof-of-human challenges,
//! verifies submitted answers, and sweeps expired records.
//!
//! A stored record maps a session id to the pair of its expected answer and
//! its expiry time (milliseconds). A record is created only by issuance and
//! destroyed only by a consuming verification or by the sweep.

use vstd::prelude::*;

verus! {

use dashmap::DashMap;
use rand::RngExt;
use crate::text::question_seq;
use crate::text::question_string;

/// How long an issued challenge stays valid: five minutes, in milliseconds.
pub const CHALLENGE_TTL_MILLIS: i64 = 300_000;

/// What the challenge map holds: expected answer and expiry time by session.
pub uninterp spec fn challenge_entries(m: DashMap<String, (i32, i64)>) -> Map<
    Seq<char>,
    (i32, i64),
>;

/// Relies on dashmap::DashMap::new: a freshly created map has no entries.
#[verifier::external_body]
fn new_challenge_map() -> (m: DashMap<String, (i32, i64)>)
    ensures
        forall|k: Seq<char>| !challenge_entries(m).dom().contains(k),
{
    DashMap::new()
}

/// Relies on dashmap::DashMap::get: returns the value stored under the key,
/// if any.
#[verifier::external_body]
fn challenge_get(m: &DashMap<String, (i32, i64)>, key: &str) -> (r: Option<(i32, i64)>)
    ensures
        r == if challenge_entries(*m).dom().contains(key@) {
            Some(challenge_entries(*m)[key@])
        } else {
            None::<(i32, i64)>
        },
{
    m.get(key).map(|entry| *entry)
}

/// Relies on dashmap::DashMap::insert: stores the value under the key,
/// replacing any previous entry for it.
#[verifier::external_body]
fn challenge_insert(m: &mut DashMap<String, (i32, i64)>, key: String, value: (i32, i64))
    ensures
        challenge_entries(*final(m)) == challenge_entries(*old(m)).insert(key@, value),
{
    m.insert(key, value);
}

/// Relies on dashmap::DashMap::remove: deletes the entry under the key, if
/// any.
#[verifier::external_body]
fn challenge_remove(m: &mut DashMap<String, (i32, i64)>, key: &str)
    ensures
        challenge_entries(*final(m)) == challenge_entries(*old(m)).remove(key@),
{
    m.remove(key);
}

/// Relies on dashmap::DashMap::retain: keeps exactly the entries on which the
/// predicate returns true, with their values unchanged.
#[verifier::external_body]
fn challenge_retain_live(m: &mut DashMap<String, (i32, i64)>, now: i64)
    ensures
        forall|k: Seq<char>|
            challenge_entries(*final(m)).dom().contains(k) <==> (challenge_entries(
                *old(m),
            ).dom().contains(k) && spec_challenge_live(challenge_entries(*old(m))[k], now)),
        forall|k: Seq<char>|
            challenge_entries(*final(m)).dom().contains(k) ==> challenge_entries(*final(m))[k]
                == challenge_entries(*old(m))[k],
{
    m.retain(|_, entry| challenge_is_live(*entry, now));
}

/// Relies on rand::rng together with Rng::random_range: a freshly drawn
/// operand lies in the requested range 1..=20.
#[verifier::external_body]
fn random_operand() -> (r: i32)
    ensures
        1 <= r <= 20,
{
    rand::rng().random_range(1..=20)
}

/// Relies on uuid::Uuid::new_v4 and its hyphenated rendering: a fresh session
/// id is 36 characters long. Nothing is claimed about which id comes back.
#[verifier::external_body]
fn fresh_session_id() -> (r: String)
    ensures
        r@.len() == 36,
{
    uuid::Uuid::new_v4().to_string()
}

/// A record is live at `now` when its expiry has not passed.
pub open spec fn spec_challenge_live(entry: (i32, i64), now: i64) -> bool {
    now <= entry.1
}

fn challenge_is_live(entry: (i32, i64), now: i64) -> (r: bool)
    ensures
        r == spec_challenge_live(entry, now),
{
    now <= entry.1
}

/// Whether a verification call on `sid` with `answer` at `now` succeeds.
pub open spec fn challenge_grants(
    m: Map<Seq<char>, (i32, i64)>,
    sid: Seq<char>,
    answer: i32,
    now: i64,
) -> bool {
    m.dom().contains(sid) && now <= m[sid].1 && answer == m[sid].0
}

/// The store after a verification call: an expired record is removed, a
/// correctly answered one is consumed, and a wrongly answered live one stays.
pub open spec fn challenge_after_verify(
    m: Map<Seq<char>, (i32, i64)>,
    sid: Seq<char>,
    answer: i32,
    now: i64,
) -> Map<Seq<char>, (i32, i64)> {
    if !m.dom().contains(sid) {
        m
    } else if now > m[sid].1 {
        m.remove(sid)
    } else if answer == m[sid].0 {
        m.remove(sid)
    } else {
        m
    }
}

/// The store after a sweep at `now`: exactly the live records, unchanged.
pub open spec fn challenge_after_sweep(m: Map<Seq<char>, (i32, i64)>, now: i64) -> Map<
    Seq<char>,
    (i32, i64),
> {
    Map::new(
        |k: Seq<char>| m.dom().contains(k) && spec_challenge_live(m[k], now),
        |k: Seq<char>| m[k],
    )
}

/// What issuance hands back to the client: the question, the session id the
/// answer must come back under, and the expiry time. The expected answer
/// itself is stored server-side only and never leaves the store.
pub struct MathChallenge {
    pub question: String,
    pub session_id: String,
    pub expires_at: i64,
}

/// The store of live math challenges, keyed by session id.
pub struct MathChallengeStore {
    challenges: DashMap<String, (i32, i64)>,
}

impl View for MathChallengeStore {
    type V = Map<Seq<char>, (i32, i64)>;

    closed spec fn view(&self) -> Map<Seq<char>, (i32, i64)> {
        challenge_entries(self.challenges)
    }
}

impl MathChallengeStore {
    /// An empty store; all gating state rebuilds from zero on restart.
    pub fn new() -> (s: Self)
        ensures
            s@ == Map::<Seq<char>, (i32, i64)>::empty(),
    {
        let s = MathChallengeStore { challenges: new_challenge_map() };
        proof {
            assert(s@ =~= Map::<Seq<char>, (i32, i64)>::empty());
        }
        s
    }

    /// Issues a challenge with the given operands and session id: stores the
    /// expected answer with its expiry and returns the client-facing record.
    pub fn issue_with_operands(&mut self, a: i32, b: i32, session_id: String, now: i64) -> (c:
        MathChallenge)
        requires
            1 <= a <= 20,
            1 <= b <= 20,
            now + CHALLENGE_TTL_MILLIS <= i64::MAX,
        ensures
            final(self)@ == old(self)@.insert(
                session_id@,
                ((a + b) as i32, (now + CHALLENGE_TTL_MILLIS) as i64),
            ),
            c.question@ == question_seq(a as int, b as int),
            c.session_id@ == session_id@,
            c.expires_at == now + CHALLENGE_TTL_MILLIS,
    {
        let answer: i32 = a + b;
        let expires_at: i64 = now + CHALLENGE_TTL_MILLIS;
        let question = question_string(a, b);
        let sid_copy = session_id.clone();
        challenge_insert(&mut self.challenges, session_id, (answer, expires_at));
        MathChallenge { question, session_id: sid_copy, expires_at }
    }

    /// Issues a challenge with fresh random operands and a fresh session id.
    /// Which operands and which id come back is up to chance; whatever they
    /// are, the store gains exactly that one record.
    pub fn generate_challenge(&mut self, now: i64) -> (c: MathChallenge)
        requires
            now + CHALLENGE_TTL_MILLIS <= i64::MAX,
        ensures
            c.expires_at == now + CHALLENGE_TTL_MILLIS,
            exists|a: int, b: int|
                #![trigger question_seq(a, b)]
                1 <= a <= 20 && 1 <= b <= 20 && c.question@ == question_seq(a, b) && final(self)@
                    == old(self)@.insert(
                    c.session_id@,
                    ((a + b) as i32, (now + CHALLENGE_TTL_MILLIS) as i64),
                ),
    {
        let a = random_operand();
        let b = random_operand();
        let session_id = fresh_session_id();
        let c = self.issue_with_operands(a, b, session_id, now);
        proof {
            assert(1 <= a as int <= 20 && 1 <= b as int <= 20 && c.question@ == question_seq(
                a as int,
                b as int,
            ) && self@ == old(self)@.insert(
                c.session_id@,
                ((a as int + b as int) as i32, (now + CHALLENGE_TTL_MILLIS) as i64),
            ));
        }
        c
    }

    /// Verifies a submitted answer. An absent session fails; an expired one
    /// fails and is removed; a live one succeeds exactly on the expected
    /// answer and is consumed by that success, while a wrong answer leaves it
    /// in place for a retry within the validity window.
    pub fn verify_answer(&mut self, session_id: &str, user_answer: i32, now: i64) -> (r: bool)
        ensures
            r == challenge_grants(old(self)@, session_id@, user_answer, now),
            final(self)@ == challenge_after_verify(old(self)@, session_id@, user_answer, now),
    {
        match challenge_get(&self.challenges, session_id) {
            None => false,
            Some(entry) => {
                if now > entry.1 {
                    challenge_remove(&mut self.challenges, session_id);
                    false
                } else if entry.0 == user_answer {
                    challenge_remove(&mut self.challenges, session_id);
                    true
                } else {
                    false
                }
            },
        }
    }

    /// Removes every expired record and nothing else. Idempotent.
    pub fn cleanup_expired(&mut self, now: i64)
        ensures
            final(self)@ == challenge_after_sweep(old(self)@, now),
    {
        challenge_retain_live(&mut self.challenges, now);
        proof {
            assert(challenge_entries(self.challenges) =~= challenge_after_sweep(old(self)@, now));
        }
    }
}

/// A correct answer within the validity window is accepted exactly once: the
/// success consumes the challenge, so a second call on the same session fails
/// whatever answer and time it comes with.
pub proof fn lemma_correct_answer_single_use(
    m: Map<Seq<char>, (i32, i64)>,
    sid: Seq<char>,
    now1: i64,
    answer2: i32,
    now2: i64,
)
    requires
        m.dom().contains(sid),
        now1 <= m[sid].1,
    ensures
        challenge_grants(m, sid, m[sid].0, now1),
        !challenge_grants(challenge_after_verify(m, sid, m[sid].0, now1), sid, answer2, now2),
{
}

/// A wrong answer within the validity window is rejected but does not consume
/// the challenge: a later correct answer, still within the window, succeeds.
pub proof fn lemma_wrong_answer_keeps_challenge(
    m: Map<Seq<char>, (i32, i64)>,
    sid: Seq<char>,
    wrong: i32,
    now1: i64,
    now2: i64,
)
    requires
        m.dom().contains(sid),
        now1 <= m[sid].1,
        wrong != m[sid].0,
        now2 <= m[sid].1,
    ensures
        !challenge_grants(m, sid, wrong, now1),
        challenge_after_verify(m, sid, wrong, now1) == m,
        challenge_grants(challenge_after_verify(m, sid, wrong, now1), sid, m[sid].0, now2),
{
}

/// After expiry a verification fails even with the expected answer, and it
/// removes the record, so a later sweep finds nothing under that session.
pub proof fn lemma_expired_challenge_removed(
    m: Map<Seq<char>, (i32, i64)>,
    sid: Seq<char>,
    answer: i32,
    now1: i64,
    now2: i64,
)
    requires
        m.dom().contains(sid),
        now1 > m[sid].1,
    ensures
        !challenge_grants(m, sid, answer, now1),
        !challenge_after_verify(m, sid, answer, now1).dom().contains(sid),
        !challenge_after_sweep(challenge_after_verify(m, sid, answer, now1), now2).dom().contains(
            sid,
        ),
{
}

/// A sweep never removes a live record and always removes an expired one,
/// and it leaves the values of kept records unchanged.
pub proof fn lemma_challenge_sweep_exact(m: Map<Seq<char>, (i32, i64)>, now: i64, k: Seq<char>)
    requires
        m.dom().contains(k),
    ensures
        spec_challenge_live(m[k], now) ==> challenge_after_sweep(m, now).dom().contains(k)
            && challenge_after_sweep(m, now)[k] == m[k],
        !spec_challenge_live(m[k], now) ==> !challenge_after_sweep(m, now).dom().contains(k),
{
}

} // verus!
