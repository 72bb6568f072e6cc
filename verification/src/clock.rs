//! The system clock.
use vstd::prelude::*;

use crate::duration::NANOS_PER_SEC;
use std::time::SystemTime;

verus! {

/// A point in time of the system clock.
#[verifier::external_type_specification]
#[verifier::external_body]
pub struct ExSystemTime(SystemTime);

/// `SystemTime::now`: the current time of the system clock. Nothing is
/// stated of it: it depends on the moment of the call.
#[verifier::external_body]
pub(crate) fn system_now() -> (t: SystemTime) {
    SystemTime::now()
}

/// `SystemTime::duration_since` taken from the Unix epoch: the time elapsed
/// since then as whole seconds and the nanoseconds beyond them, or `None`
/// when `t` lies before the epoch. Only that the nanoseconds stay below one
/// second is stated: `t` is opaque here.
#[verifier::external_body]
pub(crate) fn since_unix_epoch(t: &SystemTime) -> (r: Option<(u64, u32)>)
    ensures
        r matches Some((_, nanos)) ==> nanos < NANOS_PER_SEC,
{
    match t.duration_since(std::time::UNIX_EPOCH) {
        Ok(d) => Some((d.as_secs(), d.subsec_nanos())),
        Err(_) => None,
    }
}

} // verus!
