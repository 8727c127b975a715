use vstd::prelude::*;
use crate::body::{Body, all_bodies};
use crate::catalog::{PhysicalProperties, elements_spec, apsis_spec, luminosity_spec, radius_spec};
use crate::orbit::{mean_anomaly_spec, lemma_mean_anomaly_periodic};

verus! {

/// Why the engine refused a request.
#[derive(PartialEq, Eq, Structural, Clone, Copy, Debug)]
pub enum EngineError {
    /// `advance_time` was given a negative duration.
    InvalidTimestep,
}

/// The clock of a solar system: the epoch and the time elapsed since it, in seconds.
pub struct ClockView {
    pub epoch: int,
    pub elapsed: nat,
}

/// The clock after a forward step of `dt` seconds.
pub open spec fn advanced(v: ClockView, dt: nat) -> ClockView {
    ClockView { epoch: v.epoch, elapsed: v.elapsed + dt }
}

/// Mean anomaly of `b` on clock `v`, `None` for the star.
pub open spec fn phase_spec(v: ClockView, b: Body) -> Option<nat> {
    match elements_spec(b) {
        Some(e) => Some(mean_anomaly_spec(e, v.elapsed)),
        None => None,
    }
}

/// The simulated solar system. The element and property catalogs are fixed;
/// the only state is the absolute time, which moves forward only.
pub struct SolarSystem {
    epoch_s: i64,
    elapsed_s: u64,
}

impl View for SolarSystem {
    type V = ClockView;

    closed spec fn view(&self) -> ClockView {
        ClockView { epoch: self.epoch_s as int, elapsed: self.elapsed_s as nat }
    }
}

impl SolarSystem {
    /// A solar system whose clock stands at `epoch_s` (seconds on any absolute scale).
    pub fn init(epoch_s: i64) -> (r: SolarSystem)
        ensures
            r@.epoch == epoch_s,
            r@.elapsed == 0,
    {
        SolarSystem { epoch_s, elapsed_s: 0 }
    }

    /// Moves the clock forward by `dt_s` seconds. A negative step is refused
    /// and leaves the clock as it was.
    pub fn advance_time(&mut self, dt_s: i64) -> (r: Result<(), EngineError>)
        requires
            dt_s < 0 || old(self)@.elapsed + dt_s <= u64::MAX,
        ensures
            dt_s < 0 ==> r == Err::<(), EngineError>(EngineError::InvalidTimestep)
                && final(self)@ == old(self)@,
            dt_s >= 0 ==> r is Ok && final(self)@ == advanced(old(self)@, dt_s as nat),
    {
        if dt_s < 0 {
            Err(EngineError::InvalidTimestep)
        } else {
            self.elapsed_s = self.elapsed_s + dt_s as u64;
            Ok(())
        }
    }

    /// The epoch the clock started from, in seconds.
    pub fn epoch(&self) -> (r: i64)
        ensures
            r == self@.epoch,
    {
        self.epoch_s
    }

    /// Seconds elapsed since the epoch.
    pub fn elapsed(&self) -> (r: u64)
        ensures
            r == self@.elapsed,
    {
        self.elapsed_s
    }

    /// The absolute time `T`, in seconds.
    pub fn time(&self) -> (r: i128)
        ensures
            r == self@.epoch + self@.elapsed,
    {
        self.epoch_s as i128 + self.elapsed_s as i128
    }

    /// Mean anomaly of `b` now, in microdegrees; `None` for the star.
    pub fn mean_anomaly_of(&self, b: Body) -> (r: Option<u64>)
        ensures
            r matches Some(m) ==> phase_spec(self@, b) == Some(m as nat),
            r is None ==> phase_spec(self@, b) is None,
    {
        match crate::catalog::elements_of(b) {
            Some(e) => Some(crate::orbit::mean_anomaly(&e, self.elapsed_s)),
            None => None,
        }
    }

    /// The body's radius, luminosity and apsis.
    pub fn properties_of(&self, b: Body) -> (r: PhysicalProperties)
        ensures
            r.radius_m == radius_spec(b),
            r.luminosity_w == luminosity_spec(b),
            r.apsis_km == match elements_spec(b) {
                Some(e) => apsis_spec(e),
                None => 0,
            },
    {
        crate::catalog::properties_of(b)
    }

    /// Largest distance of `b` from its own focus, in kilometres; zero for the star.
    pub fn apsis_of(&self, b: Body) -> (r: u64)
        ensures
            r == match elements_spec(b) {
                Some(e) => apsis_spec(e),
                None => 0,
            },
    {
        crate::catalog::properties_of(b).apsis_km
    }

    /// Radiated power of `b` in watts: non-zero for the star alone.
    pub fn luminosity_of(&self, b: Body) -> (r: u128)
        ensures
            r == luminosity_spec(b),
            r > 0 <==> b == Body::Sun,
    {
        crate::catalog::properties_of(b).luminosity_w
    }

    /// Radius of `b` in metres.
    pub fn radius_of(&self, b: Body) -> (r: u64)
        ensures
            r == radius_spec(b),
    {
        crate::catalog::properties_of(b).radius_m
    }

    /// Every modelled body, each once.
    pub fn bodies(&self) -> (r: Vec<Body>)
        ensures
            r@.len() == 10,
            r@.no_duplicates(),
            forall|b: Body| r@.contains(b),
    {
        let r = all_bodies();
        assert(r@.no_duplicates()) by {
            assert forall|i: int, j: int| 0 <= i < r@.len() && 0 <= j < r@.len() && i != j
                implies r@[i] != r@[j] by {
                crate::body::lemma_index_injective(r@[i], r@[j]);
            }
        }
        r
    }
}

/// Two forward steps reach the same clock, and so the same state of every
/// body, as one step of their sum.
pub proof fn lemma_no_path_dependence(v: ClockView, x: nat, y: nat, b: Body)
    ensures
        advanced(advanced(v, x), y) == advanced(v, x + y),
        phase_spec(advanced(advanced(v, x), y), b) == phase_spec(advanced(v, x + y), b),
{
}

/// A body's state repeats after one full period of its orbit.
pub proof fn lemma_periodic(v: ClockView, b: Body)
    requires
        elements_spec(b) is Some,
    ensures
        phase_spec(advanced(v, elements_spec(b).unwrap().period_s as nat), b) == phase_spec(v, b),
{
    crate::catalog::lemma_catalog_wf(b);
    lemma_mean_anomaly_periodic(elements_spec(b).unwrap(), v.elapsed);
}

} // verus!
