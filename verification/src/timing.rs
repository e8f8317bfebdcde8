use vstd::prelude::*;

verus! {

/// Tick rate of the time driver, in hertz (the `tick-hz-32_768` feature of
/// embassy-time that this crate's manifest selects).
pub const TICK_HZ: u64 = 32768;

/// Ticks of a delay of `millis` milliseconds, rounded up:
/// `ceil(millis * TICK_HZ / 1000)`, computed as embassy-time does it, with
/// the common factor 8 of 32768 and 1000 taken out.
pub open spec fn ticks_from_millis(millis: nat) -> nat {
    (millis * 4096 + 124) / 125
}

/// Ticks of a delay of `micros` microseconds, rounded up:
/// `ceil(micros * TICK_HZ / 1_000_000)`, with the common factor 64 taken out.
pub open spec fn ticks_from_micros(micros: nat) -> nat {
    (micros * 512 + 15624) / 15625
}

/// `embassy_time::Duration::from_millis(millis).as_ticks()`.
///
/// Claimed: with `TICK_HZ == 32768` the source computes
/// `div_ceil(millis * 4096, 125)` as `(millis * 4096 + 124) / 125`; the
/// multiplication and the addition overflow (and panic in debug builds)
/// beyond the bound in `requires`.
#[verifier::external_body]
fn embassy_ticks_from_millis(millis: u64) -> (ticks: u64)
    requires
        millis * 4096 + 124 <= u64::MAX,
    ensures
        ticks == ticks_from_millis(millis as nat),
{
    embassy_time::Duration::from_millis(millis).as_ticks()
}

/// `embassy_time::Duration::from_micros(micros).as_ticks()`.
///
/// Claimed: with `TICK_HZ == 32768` the source computes
/// `div_ceil(micros * 512, 15625)` as `(micros * 512 + 15624) / 15625`; it
/// overflows beyond the bound in `requires`.
#[verifier::external_body]
fn embassy_ticks_from_micros(micros: u64) -> (ticks: u64)
    requires
        micros * 512 + 15624 <= u64::MAX,
    ensures
        ticks == ticks_from_micros(micros as nat),
{
    embassy_time::Duration::from_micros(micros).as_ticks()
}

/// Largest number of milliseconds whose tick count the time driver can
/// compute without overflow.
pub const MAX_DELAY_MILLIS: u64 = 4503599627370495;

/// Largest number of microseconds whose tick count the time driver can
/// compute without overflow.
pub const MAX_DELAY_MICROS: u64 = 36028797018963937;

/// Ticks of a delay given in milliseconds, as the timer is handed it;
/// `None` where the time driver's arithmetic would overflow.
pub fn millis_to_ticks(millis: u64) -> (r: Option<u64>)
    ensures
        r matches Some(t) ==> t == ticks_from_millis(millis as nat),
        r is Some <==> millis * 4096 + 124 <= u64::MAX,
{
    if millis <= MAX_DELAY_MILLIS {
        Some(embassy_ticks_from_millis(millis))
    } else {
        None
    }
}

/// Ticks of a delay given in microseconds; `None` where the time driver's
/// arithmetic would overflow.
pub fn micros_to_ticks(micros: u64) -> (r: Option<u64>)
    ensures
        r matches Some(t) ==> t == ticks_from_micros(micros as nat),
        r is Some <==> micros * 512 + 15624 <= u64::MAX,
{
    if micros <= MAX_DELAY_MICROS {
        Some(embassy_ticks_from_micros(micros))
    } else {
        None
    }
}

} // verus!
