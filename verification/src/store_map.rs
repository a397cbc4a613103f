//! Declaration of the shared concurrent map type that both gating stores
//! hold. The type is opaque to the verifier; what a given map holds is named
//! per store, beside the store's own operations.

use vstd::prelude::*;

verus! {

/// Relies on dashmap::DashMap being a map from keys to values; values of the
/// type may appear in fields and signatures, with nothing visible inside.
#[verifier::external_type_specification]
#[verifier::external_body]
#[verifier::reject_recursive_types(K)]
#[verifier::reject_recursive_types(V)]
#[verifier::reject_recursive_types(S)]
pub struct ExDashMap<K, V, S>(dashmap::DashMap<K, V, S>);

} // verus!
