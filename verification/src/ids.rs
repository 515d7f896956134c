//! Fresh identifiers for entrusts, deals and signals.
use vstd::prelude::*;

verus! {

/// Relies on `uuid::Uuid::new_v4` and the `Simple` formatter: a random
/// version-4 id rendered as exactly 32 hexadecimal characters. The value is
/// random, so nothing beyond its shape is promised.
#[verifier::external_body]
pub fn get_id() -> (r: String)
    ensures
        r@.len() == 32,
{
    uuid::Uuid::new_v4().simple().to_string()
}

} // verus!
