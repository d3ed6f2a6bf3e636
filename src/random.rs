//! Random draws for reload delays, flight lifetimes and aim jitter.
//!
//! The logic that uses these values takes them as arguments, so that it can be driven
//! deterministically; the functions here only draw them.
use vstd::prelude::*;

verus! {

/// Relies on `fastrand::u64` over `lo..hi`: a value in `[lo, hi)`; it panics on an
/// empty range, which `requires` rules out.
#[verifier::external_body]
fn draw_u64(lo: u64, hi: u64) -> (r: u64)
    requires
        lo < hi,
    ensures
        lo <= r < hi,
{
    fastrand::u64(lo..hi)
}

/// Shortest reload delay of an idle launcher, in seconds.
pub const RELOAD_MIN_SECS: u64 = 5;
/// Reload delays are drawn below this bound, in seconds.
pub const RELOAD_MAX_SECS: u64 = 10;
/// Shortest flight lifetime of a released ball, in seconds.
pub const FLIGHT_MIN_SECS: u64 = 15;
/// Flight lifetimes are drawn below this bound, in seconds.
pub const FLIGHT_MAX_SECS: u64 = 20;
/// Aim jitter is drawn below this bound, in thousandths of the target's position.
pub const JITTER_MAX_PERMILLE: u64 = 200;

/// A reload delay drawn uniformly from `[RELOAD_MIN_SECS, RELOAD_MAX_SECS)`.
pub fn reload_delay_secs() -> (r: u64)
    ensures
        RELOAD_MIN_SECS <= r < RELOAD_MAX_SECS,
{
    draw_u64(RELOAD_MIN_SECS, RELOAD_MAX_SECS)
}

/// A flight lifetime drawn uniformly from `[FLIGHT_MIN_SECS, FLIGHT_MAX_SECS)`.
pub fn flight_lifetime_secs() -> (r: u64)
    ensures
        FLIGHT_MIN_SECS <= r < FLIGHT_MAX_SECS,
{
    draw_u64(FLIGHT_MIN_SECS, FLIGHT_MAX_SECS)
}

/// An aim jitter drawn uniformly from `[0, JITTER_MAX_PERMILLE)` thousandths.
pub fn aim_jitter_permille() -> (r: u8)
    ensures
        r < JITTER_MAX_PERMILLE,
{
    let j = draw_u64(0, JITTER_MAX_PERMILLE);
    j as u8
}

} // verus!
