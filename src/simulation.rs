use vstd::prelude::*;
use crate::body::{Body, name_spec};
use crate::catalog::{elements_spec, apsis_spec, luminosity_spec, radius_spec};
use crate::solar_system::{SolarSystem, advanced};

verus! {

/// Length of one simulation tick, in seconds (half an hour).
pub const DT_S: i64 = 1800;

/// The starting epoch, 2023-01-01T00:00:00 UTC, as Julian Date 2459945.5 in seconds.
pub const EPOCH_S: i64 = 212_539_291_200;

/// An sRGB colour with eight bits per channel.
#[derive(PartialEq, Eq, Structural, Clone, Copy, Debug)]
pub struct Rgb {
    pub r: u8,
    pub g: u8,
    pub b: u8,
}

pub open spec fn rgb(r: u8, g: u8, b: u8) -> Rgb {
    Rgb { r, g, b }
}

pub open spec fn color_spec(b: Body) -> Rgb {
    match b {
        Body::Sun => rgb(253, 251, 211),
        Body::Mercury => rgb(0x1a, 0x1a, 0x1a),
        Body::Venus => rgb(0xe6, 0xe6, 0xe6),
        Body::Earth => rgb(0x2f, 0x6a, 0x69),
        Body::Moon => rgb(96, 86, 74),
        Body::Mars => rgb(0x99, 0x3d, 0x00),
        Body::Jupiter => rgb(0xb0, 0x7f, 0x35),
        Body::Saturn => rgb(0xb0, 0x8f, 0x36),
        Body::Uranus => rgb(0x55, 0x80, 0xaa),
        Body::Neptune => rgb(0x36, 0x68, 0x96),
    }
}

/// The solar system as a display sees it: fixed ticks from a fixed epoch,
/// with a name and a colour for every body.
pub struct Simulation {
    pub solar_system: SolarSystem,
}

impl Simulation {
    /// A simulation at its starting epoch.
    pub fn init() -> (r: Simulation)
        ensures
            r.solar_system@.epoch == EPOCH_S,
            r.solar_system@.elapsed == 0,
    {
        Simulation { solar_system: SolarSystem::init(EPOCH_S) }
    }

    /// Advances the clock by one tick.
    pub fn advance(&mut self)
        requires
            old(self).solar_system@.elapsed + DT_S <= u64::MAX,
        ensures
            final(self).solar_system@ == advanced(old(self).solar_system@, DT_S as nat),
    {
        let _ = self.solar_system.advance_time(DT_S);
    }

    /// Largest distance of `b` from its own focus, in kilometres.
    pub fn apsis_of(&self, b: Body) -> (r: u64)
        ensures
            r == match elements_spec(b) {
                Some(e) => apsis_spec(e),
                None => 0,
            },
    {
        self.solar_system.apsis_of(b)
    }

    /// Every modelled body, each once.
    pub fn bodies(&self) -> (r: Vec<Body>)
        ensures
            r@.len() == 10,
            r@.no_duplicates(),
            forall|b: Body| r@.contains(b),
    {
        self.solar_system.bodies()
    }

    /// The display colour of `b`.
    pub fn color_of(&self, b: Body) -> (r: Rgb)
        ensures
            r == color_spec(b),
    {
        match b {
            Body::Sun => Rgb { r: 253, g: 251, b: 211 },
            Body::Mercury => Rgb { r: 0x1a, g: 0x1a, b: 0x1a },
            Body::Venus => Rgb { r: 0xe6, g: 0xe6, b: 0xe6 },
            Body::Earth => Rgb { r: 0x2f, g: 0x6a, b: 0x69 },
            Body::Moon => Rgb { r: 96, g: 86, b: 74 },
            Body::Mars => Rgb { r: 0x99, g: 0x3d, b: 0x00 },
            Body::Jupiter => Rgb { r: 0xb0, g: 0x7f, b: 0x35 },
            Body::Saturn => Rgb { r: 0xb0, g: 0x8f, b: 0x36 },
            Body::Uranus => Rgb { r: 0x55, g: 0x80, b: 0xaa },
            Body::Neptune => Rgb { r: 0x36, g: 0x68, b: 0x96 },
        }
    }

    /// Radiated power of `b` in watts.
    pub fn luminosity_of(&self, b: Body) -> (r: u128)
        ensures
            r == luminosity_spec(b),
    {
        self.solar_system.luminosity_of(b)
    }

    /// The display name of `b`.
    pub fn name_of(&self, b: Body) -> (r: &'static str)
        ensures
            r@ == name_spec(b),
    {
        b.name()
    }

    /// Radius of `b` in metres.
    pub fn radius_of(&self, b: Body) -> (r: u64)
        ensures
            r == radius_spec(b),
    {
        self.solar_system.radius_of(b)
    }
}

} // verus!
