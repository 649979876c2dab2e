use vstd::prelude::*;

verus! {

/// Relies on std::time::SystemTime::now: the wall clock, read as whole
/// milliseconds since the Unix epoch. Nothing is assumed of the value; the
/// clock may move forward or backward between two reads.
#[verifier::external_body]
pub(crate) fn now_millis() -> u64 {
    match std::time::SystemTime::now().duration_since(std::time::UNIX_EPOCH) {
        Ok(d) => d.as_millis() as u64,
        Err(_) => 0,
    }
}

} // verus!
