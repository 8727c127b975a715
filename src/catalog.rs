use vstd::prelude::*;
use crate::body::{Body, Focus, focus_spec};

verus! {

/// One full turn, in microdegrees: the unit of every angle in the catalog.
pub const TURN: u64 = 360_000_000;

/// Eccentricity is held in millionths.
pub const ECC_SCALE: u64 = 1_000_000;

/// Fixed elements of one Keplerian orbit.
/// Lengths in kilometres, angles in microdegrees, the period in seconds.
#[derive(PartialEq, Eq, Structural, Clone, Copy, Debug)]
pub struct OrbitalElements {
    pub semi_major_axis_km: u64,
    pub eccentricity_millionths: u64,
    pub inclination: u64,
    pub ascending_node: u64,
    pub periapsis_argument: u64,
    pub mean_anomaly_at_epoch: u64,
    pub period_s: u64,
}

impl OrbitalElements {
    /// Eccentricity in `[0, 1)`, angles within one turn, a positive period,
    /// and an axis small enough for every derived length to fit.
    pub open spec fn wf(self) -> bool {
        &&& self.eccentricity_millionths < ECC_SCALE
        &&& self.inclination < TURN
        &&& self.ascending_node < TURN
        &&& self.periapsis_argument < TURN
        &&& self.mean_anomaly_at_epoch < TURN
        &&& 0 < self.period_s <= 10_000_000_000
        &&& 0 < self.semi_major_axis_km <= 10_000_000_000
    }
}

/// Static physical attributes of a body.
#[derive(PartialEq, Eq, Structural, Clone, Copy, Debug)]
pub struct PhysicalProperties {
    pub radius_m: u64,
    /// Radiated power in watts; zero for every body that only reflects.
    pub luminosity_w: u128,
    /// Largest distance from the body's own focus, in kilometres.
    pub apsis_km: u64,
}

/// `a·(1+e)` in kilometres, rounded down.
pub open spec fn apsis_spec(el: OrbitalElements) -> int {
    (el.semi_major_axis_km * (ECC_SCALE + el.eccentricity_millionths)) as int / ECC_SCALE as int
}

pub open spec fn luminosity_spec(b: Body) -> int {
    if b == Body::Sun {
        382_800_000_000_000_000_000_000_000
    } else {
        0
    }
}

pub open spec fn radius_spec(b: Body) -> int {
    match b {
        Body::Sun => 695_700_000,
        Body::Mercury => 2_439_700,
        Body::Venus => 6_051_800,
        Body::Earth => 6_371_000,
        Body::Moon => 1_737_400,
        Body::Mars => 3_389_500,
        Body::Jupiter => 69_911_000,
        Body::Saturn => 58_232_000,
        Body::Uranus => 25_362_000,
        Body::Neptune => 24_622_000,
    }
}

/// The catalog's elements of a body's orbit; the star has none.
pub open spec fn elements_spec(b: Body) -> Option<OrbitalElements> {
    match b {
        Body::Sun => None,
        Body::Mercury => Some(el(57_909_050, 205_636, 7_004_979, 48_330_766, 29_127_030, 174_792_527, 7_600_530)),
        Body::Venus => Some(el(108_208_000, 6_777, 3_394_676, 76_679_843, 54_922_625, 50_376_632, 19_414_166)),
        Body::Earth => Some(el(149_598_023, 16_711, 0, 0, 102_937_682, 357_526_890, 31_558_150)),
        Body::Moon => Some(el(384_400, 54_900, 5_145_000, 125_080_000, 318_150_000, 115_365_400, 2_360_592)),
        Body::Mars => Some(el(227_939_200, 93_394, 1_849_691, 49_559_539, 286_496_832, 19_390_198, 59_355_072)),
        Body::Jupiter => Some(el(778_570_000, 48_386, 1_304_397, 100_473_909, 274_254_571, 19_667_961, 374_335_690)),
        Body::Saturn => Some(el(1_433_530_000, 53_862, 2_485_992, 113_662_424, 338_936_454, 317_355_366, 929_596_608)),
        Body::Uranus => Some(el(2_872_460_000, 47_257, 772_638, 74_016_925, 96_937_351, 142_283_828, 2_651_486_400)),
        Body::Neptune => Some(el(4_495_060_000, 8_590, 1_770_043, 131_784_226, 273_180_537, 259_915_208, 5_200_848_000)),
    }
}

pub open spec fn el(a: u64, e: u64, i: u64, node: u64, w: u64, m0: u64, p: u64) -> OrbitalElements {
    OrbitalElements {
        semi_major_axis_km: a,
        eccentricity_millionths: e,
        inclination: i,
        ascending_node: node,
        periapsis_argument: w,
        mean_anomaly_at_epoch: m0,
        period_s: p,
    }
}

/// Every orbiting body has well-formed elements and the star has none.
pub proof fn lemma_catalog_wf(b: Body)
    ensures
        elements_spec(b) is None <==> focus_spec(b) == Focus::Fixed,
        elements_spec(b) matches Some(e) ==> e.wf(),
{
}

fn make(a: u64, e: u64, i: u64, node: u64, w: u64, m0: u64, p: u64) -> (r: OrbitalElements)
    ensures
        r == el(a, e, i, node, w, m0, p),
{
    OrbitalElements {
        semi_major_axis_km: a,
        eccentricity_millionths: e,
        inclination: i,
        ascending_node: node,
        periapsis_argument: w,
        mean_anomaly_at_epoch: m0,
        period_s: p,
    }
}

/// The catalog's elements of the body's orbit, `None` for the star.
pub fn elements_of(b: Body) -> (r: Option<OrbitalElements>)
    ensures
        r == elements_spec(b),
        r matches Some(e) ==> e.wf(),
{
    proof {
        lemma_catalog_wf(b);
    }
    match b {
        Body::Sun => None,
        Body::Mercury => Some(make(57_909_050, 205_636, 7_004_979, 48_330_766, 29_127_030, 174_792_527, 7_600_530)),
        Body::Venus => Some(make(108_208_000, 6_777, 3_394_676, 76_679_843, 54_922_625, 50_376_632, 19_414_166)),
        Body::Earth => Some(make(149_598_023, 16_711, 0, 0, 102_937_682, 357_526_890, 31_558_150)),
        Body::Moon => Some(make(384_400, 54_900, 5_145_000, 125_080_000, 318_150_000, 115_365_400, 2_360_592)),
        Body::Mars => Some(make(227_939_200, 93_394, 1_849_691, 49_559_539, 286_496_832, 19_390_198, 59_355_072)),
        Body::Jupiter => Some(make(778_570_000, 48_386, 1_304_397, 100_473_909, 274_254_571, 19_667_961, 374_335_690)),
        Body::Saturn => Some(make(1_433_530_000, 53_862, 2_485_992, 113_662_424, 338_936_454, 317_355_366, 929_596_608)),
        Body::Uranus => Some(make(2_872_460_000, 47_257, 772_638, 74_016_925, 96_937_351, 142_283_828, 2_651_486_400)),
        Body::Neptune => Some(make(4_495_060_000, 8_590, 1_770_043, 131_784_226, 273_180_537, 259_915_208, 5_200_848_000)),
    }
}

/// `a·(1+e)` of well-formed elements, in kilometres, rounded down.
pub fn apsis_km(el: &OrbitalElements) -> (r: u64)
    requires
        el.wf(),
    ensures
        r == apsis_spec(*el),
        el.semi_major_axis_km <= r < 2 * el.semi_major_axis_km,
{
    let a = el.semi_major_axis_km;
    let e = el.eccentricity_millionths;
    assert(a * (ECC_SCALE + e) < 2 * a * ECC_SCALE) by (nonlinear_arith)
        requires e < ECC_SCALE, 0 < a;
    assert(a * (ECC_SCALE + e) >= a * ECC_SCALE) by (nonlinear_arith);
    assert(a * (ECC_SCALE + e) <= 20_000_000_000 * ECC_SCALE) by (nonlinear_arith)
        requires e < ECC_SCALE, a <= 10_000_000_000;
    a * (ECC_SCALE + e) / ECC_SCALE
}

/// The body's radius, luminosity and apsis.
pub fn properties_of(b: Body) -> (r: PhysicalProperties)
    ensures
        r.radius_m == radius_spec(b),
        r.luminosity_w == luminosity_spec(b),
        r.apsis_km == match elements_spec(b) {
            Some(e) => apsis_spec(e),
            None => 0,
        },
{
    let radius_m: u64 = match b {
        Body::Sun => 695_700_000,
        Body::Mercury => 2_439_700,
        Body::Venus => 6_051_800,
        Body::Earth => 6_371_000,
        Body::Moon => 1_737_400,
        Body::Mars => 3_389_500,
        Body::Jupiter => 69_911_000,
        Body::Saturn => 58_232_000,
        Body::Uranus => 25_362_000,
        Body::Neptune => 24_622_000,
    };
    let luminosity_w: u128 = match b {
        Body::Sun => 382_800_000_000_000_000_000_000_000,
        _ => 0,
    };
    let apsis = match elements_of(b) {
        Some(e) => apsis_km(&e),
        None => 0,
    };
    PhysicalProperties { radius_m, luminosity_w, apsis_km: apsis }
}

} // verus!
