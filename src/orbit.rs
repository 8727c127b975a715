use vstd::prelude::*;
use vstd::arithmetic::div_mod::lemma_mod_add_multiples_vanish;
use crate::catalog::{OrbitalElements, TURN, ECC_SCALE, apsis_spec};

verus! {

/// Mean anomaly `M0 + n·t`, reduced to one turn, in microdegrees.
/// The mean motion is one turn per period, so only `t` modulo the period matters.
pub open spec fn mean_anomaly_spec(el: OrbitalElements, t: nat) -> nat {
    let p = el.period_s as int;
    ((el.mean_anomaly_at_epoch as int + (t as int % p) * (TURN as int) / p) % (TURN as int)) as nat
}

/// The orbit closes: after one full period the mean anomaly, and with it
/// every quantity derived from it, is exactly what it was.
pub proof fn lemma_mean_anomaly_periodic(el: OrbitalElements, t: nat)
    requires
        el.wf(),
    ensures
        mean_anomaly_spec(el, t + el.period_s as nat) == mean_anomaly_spec(el, t),
{
    lemma_mod_add_multiples_vanish(t as int, el.period_s as int);
}

/// At epoch the mean anomaly is the catalog's value.
pub proof fn lemma_mean_anomaly_at_epoch(el: OrbitalElements)
    requires
        el.wf(),
    ensures
        mean_anomaly_spec(el, 0) == el.mean_anomaly_at_epoch,
{
    vstd::arithmetic::div_mod::lemma_small_mod(el.mean_anomaly_at_epoch as nat, TURN as nat);
}

/// Mean anomaly of the orbit `t` seconds after epoch, in microdegrees.
pub fn mean_anomaly(el: &OrbitalElements, t: u64) -> (r: u64)
    requires
        el.wf(),
    ensures
        r == mean_anomaly_spec(*el, t as nat),
        r < TURN,
{
    let p = el.period_s;
    let within = t % p;
    assert((within as int) * (TURN as int) <= 10_000_000_000 * (TURN as int)) by (nonlinear_arith)
        requires (within as int) < (p as int), (p as int) <= 10_000_000_000;
    let swept = within * TURN / p;
    assert((within as int) * (TURN as int) / (p as int) <= TURN as int) by (nonlinear_arith)
        requires (within as int) < (p as int), (p as int) > 0;
    (el.mean_anomaly_at_epoch + swept) % TURN
}

/// `cos E` is handed in as millionths.
pub const COS_SCALE: u64 = 1_000_000;

/// Orbital radius `a·(1 − e·cos E)` in kilometres, rounded down,
/// with `cos_e` the cosine of the eccentric anomaly in millionths.
pub open spec fn radius_spec(el: OrbitalElements, cos_e: int) -> int {
    (el.semi_major_axis_km * (ECC_SCALE * COS_SCALE - el.eccentricity_millionths * cos_e))
        / (ECC_SCALE * COS_SCALE) as int
}

/// A body is never farther from its focus than its apsis, and on a circular
/// orbit it stays at distance `a`.
pub proof fn lemma_radius_bounds(el: OrbitalElements, cos_e: int)
    requires
        el.wf(),
        -(COS_SCALE as int) <= cos_e <= COS_SCALE,
    ensures
        0 <= radius_spec(el, cos_e) <= apsis_spec(el),
        el.eccentricity_millionths == 0 ==> radius_spec(el, cos_e) == el.semi_major_axis_km,
{
    let a = el.semi_major_axis_km as int;
    let e = el.eccentricity_millionths as int;
    let s = 1_000_000int;
    assert(e * cos_e <= e * s) by (nonlinear_arith)
        requires 0 <= e, cos_e <= s;
    assert(e * cos_e >= -(e * s)) by (nonlinear_arith)
        requires 0 <= e, cos_e >= -s;
    assert(a * (s * s - e * cos_e) <= (a * (s + e)) * s) by (nonlinear_arith)
        requires 0 < a, e * cos_e >= -(e * s);
    assert(e * s <= s * s) by (nonlinear_arith)
        requires 0 <= e < s;
    assert(a * (s * s - e * cos_e) >= 0) by (nonlinear_arith)
        requires 0 < a, s * s - e * cos_e >= 0;
    vstd::arithmetic::div_mod::lemma_div_is_ordered(
        a * (s * s - e * cos_e),
        (a * (s + e)) * s,
        s * s,
    );
    vstd::arithmetic::div_mod::lemma_div_denominator((a * (s + e)) * s, s, s);
    vstd::arithmetic::div_mod::lemma_div_by_multiple(a * (s + e), s);
    vstd::arithmetic::div_mod::lemma_div_pos_is_pos(a * (s * s - e * cos_e), s * s);
    if e == 0 {
        vstd::arithmetic::div_mod::lemma_div_by_multiple(a, s * s);
    }
}

/// Orbital radius `a·(1 − e·cos E)` in kilometres for `cos E` given in millionths.
pub fn radius_km(el: &OrbitalElements, cos_e: i64) -> (r: u64)
    requires
        el.wf(),
        -(COS_SCALE as int) <= cos_e <= COS_SCALE,
    ensures
        r == radius_spec(*el, cos_e as int),
        r <= apsis_spec(*el),
        el.eccentricity_millionths == 0 ==> r == el.semi_major_axis_km,
{
    proof {
        lemma_radius_bounds(*el, cos_e as int);
    }
    let a = el.semi_major_axis_km as i128;
    let e = el.eccentricity_millionths as i128;
    let c = cos_e as i128;
    assert(e * c <= 1_000_000_000_000 && e * c >= -1_000_000_000_000) by (nonlinear_arith)
        requires 0 <= e < 1_000_000, -1_000_000 <= c <= 1_000_000;
    let factor = 1_000_000_000_000i128 - e * c;
    assert(a * factor <= 10_000_000_000 * 2_000_000_000_000) by (nonlinear_arith)
        requires 0 < a <= 10_000_000_000, 0 <= factor <= 2_000_000_000_000;
    assert(a * factor >= 0) by (nonlinear_arith)
        requires 0 < a, 0 <= factor;
    (a * factor / 1_000_000_000_000i128) as u64
}

} // verus!
