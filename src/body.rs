use vstd::prelude::*;

verus! {

/// The ten modelled bodies: one star, eight planets and one moon.
#[derive(PartialEq, Eq, Structural, Clone, Copy, Debug, Hash)]
pub enum Body {
    Sun,
    Mercury,
    Venus,
    Earth,
    Moon,
    Mars,
    Jupiter,
    Saturn,
    Uranus,
    Neptune,
}

/// How a body moves: the star is fixed at the origin, every other body
/// follows an ellipse around the Sun or around another body.
#[derive(PartialEq, Eq, Structural, Clone, Copy, Debug)]
pub enum Focus {
    Fixed,
    Sun,
    Around(Body),
}

pub open spec fn index_spec(b: Body) -> nat {
    match b {
        Body::Sun => 0,
        Body::Mercury => 1,
        Body::Venus => 2,
        Body::Earth => 3,
        Body::Moon => 4,
        Body::Mars => 5,
        Body::Jupiter => 6,
        Body::Saturn => 7,
        Body::Uranus => 8,
        Body::Neptune => 9,
    }
}

pub open spec fn focus_spec(b: Body) -> Focus {
    match b {
        Body::Sun => Focus::Fixed,
        Body::Moon => Focus::Around(Body::Earth),
        _ => Focus::Sun,
    }
}

pub open spec fn name_spec(b: Body) -> Seq<char> {
    match b {
        Body::Sun => "Sun"@,
        Body::Mercury => "Mercury"@,
        Body::Venus => "Venus"@,
        Body::Earth => "Earth"@,
        Body::Moon => "Moon"@,
        Body::Mars => "Mars"@,
        Body::Jupiter => "Jupiter"@,
        Body::Saturn => "Saturn"@,
        Body::Uranus => "Uranus"@,
        Body::Neptune => "Neptune"@,
    }
}

/// Every body that has a focus other than the Sun orbits a body that
/// itself orbits the Sun: the focus graph has at most two levels.
pub proof fn lemma_focus_depth(b: Body)
    ensures
        focus_spec(b) matches Focus::Around(p) ==> focus_spec(p) == Focus::Sun,
        focus_spec(b) == Focus::Fixed <==> b == Body::Sun,
{
}

/// Distinct bodies have distinct indices, each below ten.
pub proof fn lemma_index_injective(a: Body, b: Body)
    ensures
        index_spec(a) < 10,
        index_spec(a) == index_spec(b) ==> a == b,
{
}

impl Body {
    /// Position of the body in per-body tables.
    pub fn index(self) -> (r: usize)
        ensures
            r == index_spec(self),
            r < 10,
    {
        match self {
            Body::Sun => 0,
            Body::Mercury => 1,
            Body::Venus => 2,
            Body::Earth => 3,
            Body::Moon => 4,
            Body::Mars => 5,
            Body::Jupiter => 6,
            Body::Saturn => 7,
            Body::Uranus => 8,
            Body::Neptune => 9,
        }
    }

    /// What this body orbits.
    pub fn focus(self) -> (r: Focus)
        ensures
            r == focus_spec(self),
    {
        match self {
            Body::Sun => Focus::Fixed,
            Body::Moon => Focus::Around(Body::Earth),
            _ => Focus::Sun,
        }
    }

    /// The body's display name.
    pub fn name(self) -> (r: &'static str)
        ensures
            r@ == name_spec(self),
    {
        match self {
            Body::Sun => "Sun",
            Body::Mercury => "Mercury",
            Body::Venus => "Venus",
            Body::Earth => "Earth",
            Body::Moon => "Moon",
            Body::Mars => "Mars",
            Body::Jupiter => "Jupiter",
            Body::Saturn => "Saturn",
            Body::Uranus => "Uranus",
            Body::Neptune => "Neptune",
        }
    }
}

/// All ten bodies, each once, in index order.
pub fn all_bodies() -> (r: Vec<Body>)
    ensures
        r@.len() == 10,
        forall|i: int| 0 <= i < 10 ==> index_spec(#[trigger] r@[i]) == i,
        forall|b: Body| r@.contains(b),
{
    let r = vec![
        Body::Sun,
        Body::Mercury,
        Body::Venus,
        Body::Earth,
        Body::Moon,
        Body::Mars,
        Body::Jupiter,
        Body::Saturn,
        Body::Uranus,
        Body::Neptune,
    ];
    assert forall|b: Body| r@.contains(b) by {
        assert(r@[index_spec(b) as int] == b);
    }
    r
}

} // verus!
