use orrery::body::{all_bodies, Body, Focus};
use orrery::catalog::{apsis_km, elements_of, properties_of, OrbitalElements, TURN};
use orrery::frame::{compose, global_state, State, Vec3};
use orrery::orbit::{mean_anomaly, radius_km};
use orrery::simulation::{Rgb, Simulation, DT_S, EPOCH_S};
use orrery::solar_system::{EngineError, SolarSystem};

const AU_KM: f64 = 149_597_870.7;

fn phases(s: &SolarSystem) -> Vec<Option<u64>> {
    all_bodies().into_iter().map(|b| s.mean_anomaly_of(b)).collect()
}

fn st(p: (i64, i64, i64), v: (i64, i64, i64)) -> State {
    State {
        position: Vec3 { x: p.0, y: p.1, z: p.2 },
        velocity: Vec3 { x: v.0, y: v.1, z: v.2 },
    }
}

#[test]
fn two_steps_equal_one_step_of_their_sum() {
    for (x, y) in [(0i64, 0i64), (1800, 1800), (12_345, 987_654_321), (0, 5_000_000_000)] {
        let mut a = SolarSystem::init(EPOCH_S);
        a.advance_time(x).unwrap();
        a.advance_time(y).unwrap();
        let mut b = SolarSystem::init(EPOCH_S);
        b.advance_time(x + y).unwrap();
        assert_eq!(a.time(), b.time());
        assert_eq!(phases(&a), phases(&b));
    }
}

#[test]
fn negative_step_is_rejected_and_changes_nothing() {
    let mut s = SolarSystem::init(EPOCH_S);
    s.advance_time(3600).unwrap();
    let before = phases(&s);
    assert_eq!(s.advance_time(-1), Err(EngineError::InvalidTimestep));
    assert_eq!(s.advance_time(i64::MIN), Err(EngineError::InvalidTimestep));
    assert_eq!(s.time(), EPOCH_S as i128 + 3600);
    assert_eq!(s.elapsed(), 3600);
    assert_eq!(phases(&s), before);
}

#[test]
fn zero_step_is_accepted() {
    let mut s = SolarSystem::init(7);
    assert_eq!(s.advance_time(0), Ok(()));
    assert_eq!(s.time(), 7);
    assert_eq!(s.epoch(), 7);
}

#[test]
fn every_orbit_closes_after_one_period() {
    for b in all_bodies() {
        if let Some(el) = elements_of(b) {
            for start in [0i64, 1, 1800, 99_999_999] {
                let mut s = SolarSystem::init(EPOCH_S);
                s.advance_time(start).unwrap();
                let before = s.mean_anomaly_of(b);
                s.advance_time(el.period_s as i64).unwrap();
                assert_eq!(s.mean_anomaly_of(b), before);
            }
        }
    }
}

#[test]
fn mean_anomaly_at_epoch_and_half_period() {
    let earth = elements_of(Body::Earth).unwrap();
    assert_eq!(mean_anomaly(&earth, 0), 357_526_890);
    assert_eq!(mean_anomaly(&earth, earth.period_s / 2), 177_526_890);
    assert_eq!(mean_anomaly(&earth, earth.period_s), 357_526_890);
    let m = mean_anomaly(&earth, 123_456_789);
    assert!(m < TURN);
}

#[test]
fn earth_returns_after_a_year_of_half_hour_ticks() {
    let mut sim = Simulation::init();
    let at_epoch = sim.solar_system.mean_anomaly_of(Body::Earth);
    let period = elements_of(Body::Earth).unwrap().period_s as i64;
    for _ in 0..period / DT_S {
        sim.advance();
    }
    sim.solar_system.advance_time(period % DT_S).unwrap();
    assert_eq!(sim.solar_system.elapsed() as i64, period);
    assert_eq!(sim.solar_system.mean_anomaly_of(Body::Earth), at_epoch);
    let apsis_au = sim.apsis_of(Body::Earth) as f64 / AU_KM;
    assert!(apsis_au > 0.983 && apsis_au < 1.017);
}

#[test]
fn epoch_is_first_of_january_2023() {
    let sim = Simulation::init();
    assert_eq!(sim.solar_system.time(), 24_599_455 * 86_400 / 10);
    assert_eq!(sim.solar_system.elapsed(), 0);
}

#[test]
fn apsis_is_axis_times_one_plus_eccentricity() {
    assert_eq!(properties_of(Body::Earth).apsis_km, 152_097_955);
    assert_eq!(properties_of(Body::Mercury).apsis_km, 69_817_235);
    assert_eq!(properties_of(Body::Moon).apsis_km, 405_503);
    assert_eq!(properties_of(Body::Sun).apsis_km, 0);
}

#[test]
fn circular_orbit_apsis_is_the_axis() {
    let el = OrbitalElements {
        semi_major_axis_km: 1_000_000,
        eccentricity_millionths: 0,
        inclination: 0,
        ascending_node: 0,
        periapsis_argument: 0,
        mean_anomaly_at_epoch: 0,
        period_s: 1000,
    };
    assert_eq!(apsis_km(&el), 1_000_000);
    assert_eq!(mean_anomaly(&el, 250), TURN / 4);
}

#[test]
fn only_the_sun_shines() {
    let sim = Simulation::init();
    for b in sim.bodies() {
        let l = sim.luminosity_of(b);
        assert_eq!(l > 0, b == Body::Sun);
    }
    assert_eq!(sim.luminosity_of(Body::Sun), 382_800_000_000_000_000_000_000_000);
    assert_eq!(sim.radius_of(Body::Earth), 6_371_000);
}

#[test]
fn bodies_lists_all_ten_once() {
    let sim = Simulation::init();
    let bs = sim.bodies();
    assert_eq!(bs.len(), 10);
    for (i, b) in bs.iter().enumerate() {
        assert_eq!(b.index(), i);
        assert_eq!(bs.iter().filter(|c| *c == b).count(), 1);
    }
}

#[test]
fn focus_graph_has_two_levels_at_most() {
    assert_eq!(Body::Sun.focus(), Focus::Fixed);
    assert_eq!(Body::Moon.focus(), Focus::Around(Body::Earth));
    assert_eq!(Body::Earth.focus(), Focus::Sun);
    assert_eq!(Body::Neptune.focus(), Focus::Sun);
    assert!(elements_of(Body::Sun).is_none());
}

#[test]
fn moon_state_is_earth_state_plus_its_own() {
    let mut locals = vec![st((0, 0, 0), (0, 0, 0)); 10];
    for k in 0..3i64 {
        let earth = st((149_000_000_000 + k, -20_000_000_000, 5), (-29_780, 1_200 + k, 0));
        let moon = st((384_400_000, -1_000 * k, 30_000_000), (12, 1_022, -90));
        locals[Body::Earth.index()] = earth;
        locals[Body::Moon.index()] = moon;
        let g_moon = global_state(Body::Moon, &locals);
        let g_earth = global_state(Body::Earth, &locals);
        assert_eq!(g_earth, earth);
        assert_eq!(g_moon.position.x - g_earth.position.x, moon.position.x);
        assert_eq!(g_moon.position.y - g_earth.position.y, moon.position.y);
        assert_eq!(g_moon.position.z - g_earth.position.z, moon.position.z);
        assert_eq!(g_moon.velocity.x - g_earth.velocity.x, moon.velocity.x);
        assert_eq!(g_moon.velocity.y - g_earth.velocity.y, moon.velocity.y);
        assert_eq!(g_moon.velocity.z - g_earth.velocity.z, moon.velocity.z);
    }
    let sun = global_state(Body::Sun, &vec![st((5, 5, 5), (5, 5, 5)); 10]);
    assert_eq!(sun, st((0, 0, 0), (0, 0, 0)));
}

#[test]
fn compose_adds_componentwise() {
    let r = compose(&st((1, 2, 3), (4, 5, 6)), &st((-10, 20, -30), (7, 8, 9)));
    assert_eq!(r, st((-9, 22, -27), (11, 13, 15)));
}

#[test]
fn names_and_colors() {
    let sim = Simulation::init();
    assert_eq!(sim.name_of(Body::Earth), "Earth");
    assert_eq!(sim.name_of(Body::Moon), "Moon");
    assert_eq!(sim.color_of(Body::Mars), Rgb { r: 0x99, g: 0x3d, b: 0x00 });
    assert_eq!(sim.color_of(Body::Moon), Rgb { r: 96, g: 86, b: 74 });
}

#[test]
fn radius_runs_from_periapsis_to_apsis() {
    let earth = elements_of(Body::Earth).unwrap();
    assert_eq!(radius_km(&earth, -1_000_000), 152_097_955);
    assert_eq!(radius_km(&earth, -1_000_000), properties_of(Body::Earth).apsis_km);
    assert_eq!(radius_km(&earth, 1_000_000), 147_098_090);
    assert_eq!(radius_km(&earth, 0), 149_598_023);
    for c in [-1_000_000i64, -500_000, 0, 123_456, 1_000_000] {
        assert!(radius_km(&earth, c) <= properties_of(Body::Earth).apsis_km);
    }
}

#[test]
fn circular_orbit_radius_is_constant() {
    let el = OrbitalElements {
        semi_major_axis_km: 7_000,
        eccentricity_millionths: 0,
        inclination: 0,
        ascending_node: 0,
        periapsis_argument: 0,
        mean_anomaly_at_epoch: 0,
        period_s: 5_800,
    };
    for c in [-1_000_000i64, -3, 0, 999_999, 1_000_000] {
        assert_eq!(radius_km(&el, c), 7_000);
    }
}

fn earth_distance_au(s: &SolarSystem) -> f64 {
    let el = elements_of(Body::Earth).unwrap();
    let m = s.mean_anomaly_of(Body::Earth).unwrap() as f64 / TURN as f64 * std::f64::consts::TAU;
    let e = el.eccentricity_millionths as f64 / 1e6;
    let mut ecc = m;
    for _ in 0..100 {
        ecc -= (ecc - e * ecc.sin() - m) / (1.0 - e * ecc.cos());
    }
    assert!((ecc - e * ecc.sin() - m).abs() < 1e-8);
    let c = (ecc.cos() * 1e6).round() as i64;
    radius_km(&el, c) as f64 / AU_KM
}

#[test]
fn earth_is_about_one_au_from_the_sun_at_epoch() {
    let mut sim = Simulation::init();
    let d0 = earth_distance_au(&sim.solar_system);
    assert!(d0 > 0.983 && d0 < 1.017, "{}", d0);
    let period = elements_of(Body::Earth).unwrap().period_s as i64;
    for _ in 0..period / DT_S {
        sim.advance();
    }
    sim.solar_system.advance_time(period % DT_S).unwrap();
    let d1 = earth_distance_au(&sim.solar_system);
    assert!((d1 - d0).abs() < 1e-9);
}
