use vstd::prelude::*;
use crate::body::{Body, Focus, focus_spec, index_spec};

verus! {

/// Largest magnitude of a coordinate taken in: two such values add without overflow.
pub const COORD_LIMIT: i64 = 4_611_686_018_427_387_904;

/// A Cartesian vector with integer components (metres, or metres per second).
#[derive(PartialEq, Eq, Structural, Clone, Copy, Debug)]
pub struct Vec3 {
    pub x: i64,
    pub y: i64,
    pub z: i64,
}

/// Position (m) and velocity (m/s) of a body.
#[derive(PartialEq, Eq, Structural, Clone, Copy, Debug)]
pub struct State {
    pub position: Vec3,
    pub velocity: Vec3,
}

pub open spec fn coord_ok(c: i64) -> bool {
    -COORD_LIMIT < c < COORD_LIMIT
}

pub open spec fn vec_ok(v: Vec3) -> bool {
    coord_ok(v.x) && coord_ok(v.y) && coord_ok(v.z)
}

pub open spec fn state_ok(s: State) -> bool {
    vec_ok(s.position) && vec_ok(s.velocity)
}

pub open spec fn vec_of(v: Vec3) -> (int, int, int) {
    (v.x as int, v.y as int, v.z as int)
}

pub open spec fn vec_add(a: (int, int, int), b: (int, int, int)) -> (int, int, int) {
    (a.0 + b.0, a.1 + b.1, a.2 + b.2)
}

/// Global (Sun-centred) position of `b`, given every body's state relative to
/// its own focus, indexed by `Body::index`.
pub open spec fn global_position_spec(b: Body, locals: Seq<State>) -> (int, int, int) {
    match focus_spec(b) {
        Focus::Fixed => (0, 0, 0),
        Focus::Sun => vec_of(locals[index_spec(b) as int].position),
        Focus::Around(p) => vec_add(
            vec_of(locals[index_spec(p) as int].position),
            vec_of(locals[index_spec(b) as int].position),
        ),
    }
}

/// Global velocity of `b`, as `global_position_spec` for positions.
pub open spec fn global_velocity_spec(b: Body, locals: Seq<State>) -> (int, int, int) {
    match focus_spec(b) {
        Focus::Fixed => (0, 0, 0),
        Focus::Sun => vec_of(locals[index_spec(b) as int].velocity),
        Focus::Around(p) => vec_add(
            vec_of(locals[index_spec(p) as int].velocity),
            vec_of(locals[index_spec(b) as int].velocity),
        ),
    }
}

fn vec_sum(a: &Vec3, b: &Vec3) -> (r: Vec3)
    requires
        vec_ok(*a),
        vec_ok(*b),
    ensures
        vec_of(r) == vec_add(vec_of(*a), vec_of(*b)),
{
    Vec3 { x: a.x + b.x, y: a.y + b.y, z: a.z + b.z }
}

/// A focus-local state carried into the frame in which the focus's state is given:
/// positions add, velocities add.
pub fn compose(focus_global: &State, local: &State) -> (r: State)
    requires
        state_ok(*focus_global),
        state_ok(*local),
    ensures
        vec_of(r.position) == vec_add(vec_of(focus_global.position), vec_of(local.position)),
        vec_of(r.velocity) == vec_add(vec_of(focus_global.velocity), vec_of(local.velocity)),
{
    State {
        position: vec_sum(&focus_global.position, &local.position),
        velocity: vec_sum(&focus_global.velocity, &local.velocity),
    }
}

/// The global state of `b`: the star rests at the origin, a heliocentric body's
/// local state is already global, and a body orbiting another body adds that
/// body's state to its own.
pub fn global_state(b: Body, locals: &Vec<State>) -> (r: State)
    requires
        locals@.len() == 10,
        forall|i: int| 0 <= i < 10 ==> state_ok(#[trigger] locals@[i]),
    ensures
        vec_of(r.position) == global_position_spec(b, locals@),
        vec_of(r.velocity) == global_velocity_spec(b, locals@),
{
    match b.focus() {
        Focus::Fixed => State {
            position: Vec3 { x: 0, y: 0, z: 0 },
            velocity: Vec3 { x: 0, y: 0, z: 0 },
        },
        Focus::Sun => locals[b.index()],
        Focus::Around(p) => compose(&locals[p.index()], &locals[b.index()]),
    }
}

/// For a body orbiting another body, its global position is its focus's global
/// position plus its own focus-local position, and likewise for velocity.
pub proof fn lemma_composition(b: Body, p: Body, locals: Seq<State>)
    requires
        locals.len() == 10,
        focus_spec(b) == Focus::Around(p),
    ensures
        global_position_spec(b, locals) == vec_add(
            global_position_spec(p, locals),
            vec_of(locals[index_spec(b) as int].position),
        ),
        global_velocity_spec(b, locals) == vec_add(
            global_velocity_spec(p, locals),
            vec_of(locals[index_spec(b) as int].velocity),
        ),
{
}

} // verus!
