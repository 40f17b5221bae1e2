//! Escalation scorer: how many reports a subject must accumulate before an
//! action of a given severity is taken against it.
//!
//! The saturating growth curve `(1 - e^(k * followers)) * BASE` is a
//! floating-point quantity; callers evaluate it and hand it to this module in
//! thousandths of a report (`growth_milli`). Everything after that point, the
//! severity scaling, the protective floors and the truncation, is integer
//! arithmetic proved here.
use vstd::prelude::*;

verus! {

/// Number of `growth_milli` units in one report.
pub const GROWTH_SCALE: u64 = 1000;

/// Severity multiplier of the suspend tier.
pub const SUSPEND_MULTIPLIER: u32 = 10;

/// Severity multiplier of the escalate-alert tier.
pub const ESCALATE_MULTIPLIER: u32 = 2;

/// Protective floor: small accounts (1 to 20 followers) need at least 100
/// reports at the suspend multiplier and 10 at any other; every other
/// follower count needs at least one.
pub open spec fn floor_of(followers: nat, multiplier: nat) -> nat {
    if 1 <= followers <= 20 {
        if multiplier == 10 {
            100
        } else {
            10
        }
    } else {
        1
    }
}

/// The growth curve scaled by the multiplier, truncated to whole reports.
pub open spec fn scaled_growth(growth_milli: nat, multiplier: nat) -> nat {
    (growth_milli * multiplier) / 1000
}

/// The larger of the scaled curve and the floor, saturated at `u32::MAX`.
pub open spec fn required_spec(followers: nat, multiplier: nat, growth_milli: nat) -> nat {
    let s = scaled_growth(growth_milli, multiplier);
    let f = floor_of(followers, multiplier);
    let r = if s >= f {
        s
    } else {
        f
    };
    if r > u32::MAX {
        u32::MAX as nat
    } else {
        r
    }
}

/// The floor that applies to `followers` at `multiplier`.
pub fn report_floor(followers: u32, multiplier: u32) -> (r: u32)
    ensures
        r == floor_of(followers as nat, multiplier as nat),
{
    if 1 <= followers && followers <= 20 {
        if multiplier == SUSPEND_MULTIPLIER {
            100
        } else {
            10
        }
    } else {
        1
    }
}

/// Number of reports required before acting on a subject with `followers`
/// followers at severity `multiplier`, given the growth curve's value
/// `growth_milli` for that follower count.
pub fn required_reports(followers: u32, multiplier: u32, growth_milli: u32) -> (r: u32)
    ensures
        r == required_spec(followers as nat, multiplier as nat, growth_milli as nat),
        r >= floor_of(followers as nat, multiplier as nat),
        1 <= followers <= 20 && multiplier == 10 ==> r >= 100,
        1 <= followers <= 20 && multiplier != 10 ==> r >= 10,
        r >= 1,
{
    assert(growth_milli as u64 * multiplier as u64 <= u32::MAX as u64 * u32::MAX as u64)
        by (nonlinear_arith);
    let product: u64 = growth_milli as u64 * multiplier as u64;
    let scaled: u64 = product / GROWTH_SCALE;
    let floor: u32 = report_floor(followers, multiplier);
    let larger: u64 = if scaled >= floor as u64 {
        scaled
    } else {
        floor as u64
    };
    if larger > u32::MAX as u64 {
        u32::MAX
    } else {
        larger as u32
    }
}

/// With no followers the curve is at zero, and the requirement is exactly the
/// floor that applies at zero followers.
pub proof fn lemma_required_at_zero(multiplier: nat)
    ensures
        required_spec(0, multiplier, 0) == floor_of(0, multiplier),
        required_spec(0, multiplier, 0) == 1,
{
}

/// Within one floor band (no followers, 1 to 20, or more than 20), more
/// followers with a curve value at least as large never lower the requirement.
pub proof fn lemma_required_monotonic(
    f1: nat,
    f2: nat,
    multiplier: nat,
    g1: nat,
    g2: nat,
)
    requires
        f1 <= f2,
        g1 <= g2,
        f1 == 0 || (f2 <= 20) || (f1 > 20),
    ensures
        required_spec(f1, multiplier, g1) <= required_spec(f2, multiplier, g2),
{
    assert(g1 * multiplier <= g2 * multiplier) by (nonlinear_arith)
        requires
            g1 <= g2,
    ;
    assert((g1 * multiplier) / 1000 <= (g2 * multiplier) / 1000) by (nonlinear_arith)
        requires
            g1 * multiplier <= g2 * multiplier,
    ;
}

/// For the same subject and curve value, the suspend tier never asks for fewer
/// reports than the escalate tier.
pub proof fn lemma_suspend_at_least_escalate(followers: nat, growth_milli: nat)
    ensures
        required_spec(followers, 10, growth_milli) >= required_spec(followers, 2, growth_milli),
{
    assert((growth_milli * 2) / 1000 <= (growth_milli * 10) / 1000) by (nonlinear_arith);
}

} // verus!
