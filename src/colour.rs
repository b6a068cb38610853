//! Stored 8-bit colours and the clamp that produces them.
use vstd::prelude::*;

verus! {

/// Largest level an 8-bit channel holds.
pub const CHANNEL_MAX: u8 = 255;

/// A stored pixel colour, one byte per channel.
#[derive(Clone, Copy, Debug, PartialEq, Eq, Structural)]
pub struct DiffuseColour {
    pub r: u8,
    pub g: u8,
    pub b: u8,
}

/// The level a channel stores for an unbounded level: the level itself up to
/// the channel's maximum, the maximum beyond it.
pub open spec fn clamped(level: u64) -> u8 {
    if level <= CHANNEL_MAX as u64 {
        level as u8
    } else {
        CHANNEL_MAX
    }
}

/// Channel `c` (0 red, 1 green, 2 blue) of a colour.
pub open spec fn channel(colour: DiffuseColour, c: int) -> u8 {
    if c == 0 {
        colour.r
    } else if c == 1 {
        colour.g
    } else {
        colour.b
    }
}

/// Black: the colour every pixel starts from.
pub fn build_diffuse_colour() -> (r: DiffuseColour)
    ensures
        r == (DiffuseColour { r: 0, g: 0, b: 0 }),
{
    DiffuseColour { r: 0, g: 0, b: 0 }
}

/// Clamps an unbounded level to a channel: takes the minimum of the level
/// and the channel's maximum, so a bright level never wraps round to dark.
pub fn clamp_channel(level: u64) -> (r: u8)
    ensures
        r == clamped(level),
        r as u64 <= level,
        level <= CHANNEL_MAX as u64 ==> r as u64 == level,
{
    if level <= CHANNEL_MAX as u64 {
        level as u8
    } else {
        CHANNEL_MAX
    }
}

impl DiffuseColour {
    /// The stored colour for three unbounded levels, each clamped.
    pub fn from_levels(r: u64, g: u64, b: u64) -> (c: DiffuseColour)
        ensures
            c.r == clamped(r),
            c.g == clamped(g),
            c.b == clamped(b),
    {
        DiffuseColour { r: clamp_channel(r), g: clamp_channel(g), b: clamp_channel(b) }
    }

    /// Channel `c` (0 red, 1 green, 2 blue).
    pub fn channel(&self, c: usize) -> (v: u8)
        requires
            c < 3,
        ensures
            v == channel(*self, c as int),
    {
        if c == 0 {
            self.r
        } else if c == 1 {
            self.g
        } else {
            self.b
        }
    }
}

} // verus!
