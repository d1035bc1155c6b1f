//! The wall clock, read as microseconds since the Unix epoch.

use vstd::prelude::*;

verus! {

/// `std::time::SystemTime`, carried through as an opaque value.
#[verifier::external_type_specification]
#[verifier::external_body]
pub struct ExSystemTime(std::time::SystemTime);

/// Calls `std::time::SystemTime::now`. The result depends on the machine's
/// clock, so nothing is stated of it.
#[verifier::external_body]
fn system_now() -> (t: std::time::SystemTime) {
    std::time::SystemTime::now()
}

/// Calls `SystemTime::duration_since(UNIX_EPOCH)`; `None` where the clock
/// reads earlier than the epoch. Nothing is stated of which outcome comes:
/// it depends on the time read.
#[verifier::external_body]
fn since_unix_epoch(t: &std::time::SystemTime) -> (d: Option<core::time::Duration>) {
    match t.duration_since(std::time::UNIX_EPOCH) {
        Ok(d) => Some(d),
        Err(_) => None,
    }
}

/// Calls `Duration::as_micros`. A `Duration` is opaque here, so the result is
/// left unstated.
#[verifier::external_body]
fn duration_micros(d: &core::time::Duration) -> (m: u128) {
    d.as_micros()
}

/// A count of microseconds narrowed to 64 bits the way `as u64` does it:
/// the low 64 bits are kept.
pub fn micros_u64(m: u128) -> (r: u64)
    ensures
        r == m as u64,
{
    m as u64
}

/// Microseconds since the Unix epoch by the wall clock, 0 when the clock
/// reads before the epoch.
pub fn now_us() -> (r: u64) {
    let t = system_now();
    match since_unix_epoch(&t) {
        Some(d) => micros_u64(duration_micros(&d)),
        None => 0,
    }
}

} // verus!
