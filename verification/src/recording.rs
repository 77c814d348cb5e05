//! The recording subsystem's configuration and errors, plus the timing of
//! its one-second interval. The capture-and-encode pipeline itself is an
//! external collaborator; only what the control plane decides about it lives
//! here.

use vstd::prelude::*;

pub mod config;
pub mod error;

verus! {

/// Relies on chrono (Utc::now, DateTime::timestamp_subsec_nanos): how many
/// nanoseconds the current moment stands past its second boundary. Below two
/// billion; values of a billion and above represent a leap second.
#[verifier::external_body]
fn now_subsec_nanos() -> (r: u32)
    ensures
        r < 2_000_000_000,
{
    chrono::Utc::now().timestamp_subsec_nanos()
}

/// Nanoseconds from a moment within its second until the next second
/// boundary; a leap-second overrun counts as the boundary already reached.
pub fn nanos_until_next_second(subsec_nanos: u32) -> (r: u32)
    requires
        subsec_nanos < 2_000_000_000,
    ensures
        subsec_nanos < 1_000_000_000 ==> r == 1_000_000_000 - subsec_nanos,
        subsec_nanos >= 1_000_000_000 ==> r == 0,
{
    if subsec_nanos < 1_000_000_000 {
        1_000_000_000 - subsec_nanos
    } else {
        0
    }
}

/// Nanoseconds until the next even second, at which the recorder's interval
/// starts ticking.
pub fn to_next_second() -> (r: u32)
    ensures
        r <= 1_000_000_000,
{
    nanos_until_next_second(now_subsec_nanos())
}

} // verus!
