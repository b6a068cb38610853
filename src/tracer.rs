//! Decisions of the recursive radiance estimator: which scattering model a
//! surface uses, and when Russian roulette ends a light path.
//!
//! A path is traced bounce by bounce. Up to `FORCED_DEPTH` bounces every path
//! goes on; from there on, at each bounce one of `ROULETTE_SLOTS` equally
//! likely draws is made, `KILL_SLOTS` of them end the path, and a path that
//! goes on weights what it gathers next by `ROULETTE_SLOTS / SURVIVAL_SLOTS`,
//! which keeps the estimate unbiased. No path goes beyond `MAX_DEPTH`, a
//! safety net against scenes that trap light (two facing mirrors).
use vstd::prelude::*;
use rand::Rng;
use rand::rngs::StdRng;

verus! {

/// Number of bounces that every path makes before roulette starts.
pub const FORCED_DEPTH: u32 = 5;

/// Depth at which every path ends, whatever is drawn.
pub const MAX_DEPTH: u32 = 64;

/// Number of equally likely roulette draws.
pub const ROULETTE_SLOTS: u32 = 10;

/// Number of roulette draws that end a path: one in ten.
pub const KILL_SLOTS: u32 = 1;

/// Number of roulette draws that let a path go on.
pub const SURVIVAL_SLOTS: u32 = 9;

/// How a surface scatters light, by the tag a scene description gives it.
#[derive(Clone, Copy, Debug, PartialEq, Eq, Structural)]
pub enum Material {
    /// Tag 1: cosine-weighted sampling of the hemisphere round the normal.
    Diffuse,
    /// Tag 2: perfect mirror reflection.
    Specular,
    /// Tag 3: Fresnel-weighted choice between reflection and refraction.
    Refractive,
}

/// The material a tag names, if any.
pub open spec fn material_of(tag: u8) -> Option<Material> {
    if tag == 1 {
        Some(Material::Diffuse)
    } else if tag == 2 {
        Some(Material::Specular)
    } else if tag == 3 {
        Some(Material::Refractive)
    } else {
        None
    }
}

impl Material {
    /// The material a tag names; `None` for a tag that names none, a surface
    /// that only emits and scatters nothing.
    pub fn from_tag(tag: u8) -> (r: Option<Material>)
        ensures
            r == material_of(tag),
    {
        if tag == 1 {
            Some(Material::Diffuse)
        } else if tag == 2 {
            Some(Material::Specular)
        } else if tag == 3 {
            Some(Material::Refractive)
        } else {
            None
        }
    }
}

/// What Russian roulette decides for one bounce.
#[derive(Clone, Copy, Debug, PartialEq, Eq, Structural)]
pub enum Roulette {
    /// The path ends here and gathers nothing more.
    Stop,
    /// The path goes on; where `compensated`, what it gathers from here on is
    /// weighted by `ROULETTE_SLOTS / SURVIVAL_SLOTS`.
    Go { compensated: bool },
}

/// The decision at `depth` when `draw` was drawn.
pub open spec fn roulette_outcome(depth: u32, draw: u32) -> Roulette {
    if depth >= MAX_DEPTH {
        Roulette::Stop
    } else if depth < FORCED_DEPTH {
        Roulette::Go { compensated: false }
    } else if draw < KILL_SLOTS {
        Roulette::Stop
    } else {
        Roulette::Go { compensated: true }
    }
}

/// A draw is made at this depth.
pub open spec fn draws_at(depth: u32) -> bool {
    FORCED_DEPTH <= depth < MAX_DEPTH
}

/// The roulette decision at `depth` for a given draw out of
/// `0..ROULETTE_SLOTS`.
pub fn roulette_step(depth: u32, draw: u32) -> (r: Roulette)
    ensures
        r == roulette_outcome(depth, draw),
{
    if depth >= MAX_DEPTH {
        Roulette::Stop
    } else if depth < FORCED_DEPTH {
        Roulette::Go { compensated: false }
    } else if draw < KILL_SLOTS {
        Roulette::Stop
    } else {
        Roulette::Go { compensated: true }
    }
}

/// rand's standard generator, carried through opaquely: one instance is
/// threaded through a render, so that a seeded one renders reproducibly.
#[verifier::external_type_specification]
#[verifier::external_body]
pub struct ExStdRng(StdRng);

/// Relies on rand's `Rng::gen_range` on `u32` (rand 0.7): a draw from
/// `low..high`, which panics only where `low >= high`.
#[verifier::external_body]
fn draw_below(rng: &mut StdRng, bound: u32) -> (r: u32)
    requires
        0 < bound,
    ensures
        r < bound,
{
    rng.gen_range(0u32, bound)
}

/// The roulette decision at `depth`, drawing from `rng` where a draw is due.
/// Outside the roulette band nothing is drawn and the decision is fixed.
pub fn roulette(depth: u32, rng: &mut StdRng) -> (r: Roulette)
    ensures
        exists|draw: u32| draw < ROULETTE_SLOTS && r == roulette_outcome(depth, draw),
        !draws_at(depth) ==> r == roulette_outcome(depth, 0) && *final(rng) == *old(rng),
{
    if draws_at_depth(depth) {
        let draw = draw_below(rng, ROULETTE_SLOTS);
        roulette_step(depth, draw)
    } else {
        roulette_step(depth, 0)
    }
}

/// Tells whether a draw is made at `depth`.
pub fn draws_at_depth(depth: u32) -> (r: bool)
    ensures
        r == draws_at(depth),
{
    FORCED_DEPTH <= depth && depth < MAX_DEPTH
}

/// A path that draws `draws[d]` at each depth `d` goes on at every depth
/// below `depth`.
pub open spec fn survives_to(draws: Seq<u32>, depth: nat) -> bool {
    forall|d: u32| d < depth ==> (#[trigger] roulette_outcome(d, draws[d as int])) is Go
}

/// Paths end in bounded depth: whatever is drawn at each bounce, no path
/// goes on past `MAX_DEPTH` bounces.
pub proof fn lemma_paths_end(draws: Seq<u32>, depth: nat)
    requires
        survives_to(draws, depth),
    ensures
        depth <= MAX_DEPTH,
{
    if depth > MAX_DEPTH {
        assert(roulette_outcome(MAX_DEPTH, draws[MAX_DEPTH as int]) is Stop);
    }
}

/// Roulette keeps the estimate unbiased: where it draws, exactly the
/// `KILL_SLOTS` lowest of the `ROULETTE_SLOTS` draws end the path, the other
/// `SURVIVAL_SLOTS` go on with the weight `ROULETTE_SLOTS / SURVIVAL_SLOTS`,
/// so the expected weight is one; below the band the weight is one outright.
pub proof fn lemma_roulette_unbiased(depth: u32, draw: u32)
    requires
        draw < ROULETTE_SLOTS,
    ensures
        KILL_SLOTS + SURVIVAL_SLOTS == ROULETTE_SLOTS,
        draws_at(depth) ==> roulette_outcome(depth, draw) == (if draw < KILL_SLOTS {
            Roulette::Stop
        } else {
            Roulette::Go { compensated: true }
        }),
        depth < FORCED_DEPTH ==> roulette_outcome(depth, draw) == (Roulette::Go { compensated: false }),
{
}

} // verus!
