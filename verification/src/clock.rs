use vstd::prelude::*;

verus! {

/// Relies on std::time::SystemTime::now: the current wall-clock time as
/// seconds since the Unix epoch, negated for a clock set before the epoch.
/// Total — both outcomes of `duration_since` are converted, so no clock
/// setting can panic here. Nothing is promised of the value.
#[verifier::external_body]
pub(crate) fn now_timestamp() -> i64 {
    match std::time::SystemTime::now().duration_since(std::time::UNIX_EPOCH) {
        Ok(since) => since.as_secs() as i64,
        Err(before) => -(before.duration().as_secs() as i64),
    }
}

} // verus!
