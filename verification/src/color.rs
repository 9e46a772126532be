//! The colour value of the LED, its rotation and its canonical names.

use vstd::prelude::*;

verus! {

/// One 24-bit colour, eight bits per channel.
#[derive(Clone, Copy, Debug, PartialEq, Eq, Structural)]
pub struct Rgb8 {
    pub r: u8,
    pub g: u8,
    pub b: u8,
}

/// The rotation as a function on colours: red takes the old blue, green the
/// old red, blue the old green.
pub open spec fn rotated(color: Rgb8) -> Rgb8 {
    Rgb8 { r: color.b, g: color.r, b: color.g }
}

/// `steps` rotations in a row.
pub open spec fn rotated_by(color: Rgb8, steps: nat) -> Rgb8
    decreases steps,
{
    if steps == 0 {
        color
    } else {
        rotated(rotated_by(color, (steps - 1) as nat))
    }
}

/// A colour with exactly one channel lit: what the rotation cycles through
/// when it starts from one.
pub open spec fn is_canonical(color: Rgb8) -> bool {
    ||| color.r > 0 && color.g == 0 && color.b == 0
    ||| color.r == 0 && color.g > 0 && color.b == 0
    ||| color.r == 0 && color.g == 0 && color.b > 0
}

/// Moves each channel one place on: red to green, green to blue, blue to red.
pub fn rotate_color(color: Rgb8) -> (out: Rgb8)
    ensures
        out == rotated(color),
{
    Rgb8 { r: color.b, g: color.r, b: color.g }
}

/// Three rotations bring every colour back to itself, so the rotation has
/// period three: `n` and `n + 3` rotations give the same colour.
pub proof fn lemma_rotation_period_three(color: Rgb8, n: nat)
    ensures
        rotated(rotated(rotated(color))) == color,
        rotated_by(color, n + 3) == rotated_by(color, n),
{
    reveal_with_fuel(rotated_by, 4);
}

/// The colour after `n` rotations depends on `n` modulo three only.
pub proof fn lemma_rotation_by_remainder(color: Rgb8, n: nat)
    ensures
        rotated_by(color, n) == rotated_by(color, n % 3),
    decreases n,
{
    if n >= 3 {
        lemma_rotation_by_remainder(color, (n - 3) as nat);
        lemma_rotation_period_three(color, (n - 3) as nat);
        assert((n - 3) % 3 == n % 3);
    }
}

/// From a canonical colour the rotation visits exactly three values, all
/// canonical and pairwise different.
pub proof fn lemma_rotation_three_cycle(color: Rgb8)
    requires
        is_canonical(color),
    ensures
        is_canonical(rotated(color)),
        is_canonical(rotated(rotated(color))),
        rotated(color) != color,
        rotated(rotated(color)) != color,
        rotated(rotated(color)) != rotated(color),
{
}

} // verus!
