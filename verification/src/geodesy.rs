//! Bearing normalization and cardinal-direction classification.
//!
//! Angles are carried as signed microdegrees (millionths of a degree), so
//! that the quadrant boundaries and the extent corners used elsewhere in the
//! engine are exact integers. A bearing of 0 points north and grows
//! clockwise.

use vstd::prelude::*;

verus! {

use vstd::arithmetic::div_mod::lemma_mod_add_multiples_vanish;
use vstd::arithmetic::div_mod::lemma_mod_sub_multiples_vanish;
use vstd::arithmetic::div_mod::lemma_small_mod;

/// Microdegrees in one degree.
pub const MICRODEG_PER_DEG: i64 = 1_000_000;

/// One full turn (360 degrees) in microdegrees.
pub const FULL_TURN_UDEG: i64 = 360_000_000;

/// Boundary between the northern and the eastern quadrant (45 degrees).
pub const NORTH_EAST_UDEG: i64 = 45_000_000;

/// Boundary between the eastern and the southern quadrant (135 degrees).
pub const SOUTH_EAST_UDEG: i64 = 135_000_000;

/// Boundary between the southern and the western quadrant (225 degrees).
pub const SOUTH_WEST_UDEG: i64 = 225_000_000;

/// Boundary between the western and the northern quadrant (315 degrees).
pub const NORTH_WEST_UDEG: i64 = 315_000_000;

/// A cardinal direction the player can travel in.
#[derive(Clone, Copy, Debug, PartialEq, Eq, Structural)]
pub enum Direction {
    North,
    South,
    East,
    West,
}

/// Whether a normalized bearing falls in the quadrant of a direction.
///
/// The quadrants are closed on both ends, so the boundary bearings (45, 135,
/// 225 and 315 degrees) satisfy two directions at once.
pub open spec fn direction_matches(bearing_udeg: int, direction: Direction) -> bool {
    match direction {
        Direction::North => bearing_udeg <= NORTH_EAST_UDEG || bearing_udeg >= NORTH_WEST_UDEG,
        Direction::East => NORTH_EAST_UDEG <= bearing_udeg <= SOUTH_EAST_UDEG,
        Direction::South => SOUTH_EAST_UDEG <= bearing_udeg <= SOUTH_WEST_UDEG,
        Direction::West => SOUTH_WEST_UDEG <= bearing_udeg <= NORTH_WEST_UDEG,
    }
}

/// Decides whether a bearing falls in the quadrant of a cardinal direction,
/// boundaries included on both sides.
pub fn classify_direction(bearing_udeg: i64, direction: Direction) -> (r: bool)
    ensures
        r == direction_matches(bearing_udeg as int, direction),
{
    match direction {
        Direction::North => bearing_udeg <= NORTH_EAST_UDEG || bearing_udeg >= NORTH_WEST_UDEG,
        Direction::East => NORTH_EAST_UDEG <= bearing_udeg && bearing_udeg <= SOUTH_EAST_UDEG,
        Direction::South => SOUTH_EAST_UDEG <= bearing_udeg && bearing_udeg <= SOUTH_WEST_UDEG,
        Direction::West => SOUTH_WEST_UDEG <= bearing_udeg && bearing_udeg <= NORTH_WEST_UDEG,
    }
}

/// Brings a raw bearing into [0, 360) degrees by repeatedly subtracting or
/// adding whole turns, never by a single modulo operation.
pub fn normalize_bearing(raw_udeg: i64) -> (r: i64)
    ensures
        0 <= r < FULL_TURN_UDEG,
        r == raw_udeg as int % (FULL_TURN_UDEG as int),
{
    let mut b: i64 = raw_udeg;
    while b >= FULL_TURN_UDEG
        invariant
            b as int % (FULL_TURN_UDEG as int) == raw_udeg as int % (FULL_TURN_UDEG as int),
        decreases b,
    {
        proof {
            lemma_mod_sub_multiples_vanish(b as int, FULL_TURN_UDEG as int);
        }
        b = b - FULL_TURN_UDEG;
    }
    while b < 0
        invariant
            b < FULL_TURN_UDEG,
            b as int % (FULL_TURN_UDEG as int) == raw_udeg as int % (FULL_TURN_UDEG as int),
        decreases FULL_TURN_UDEG - b,
    {
        proof {
            lemma_mod_add_multiples_vanish(b as int, FULL_TURN_UDEG as int);
        }
        b = b + FULL_TURN_UDEG;
    }
    proof {
        lemma_small_mod(b as nat, FULL_TURN_UDEG as nat);
    }
    b
}

/// Law: normalization hits exactly one value. A bearing already in
/// [0, 360) that agrees with the raw bearing modulo a full turn is the one
/// value the raw bearing normalizes to.
pub proof fn lemma_normalized_bearing_unique(raw_udeg: int, candidate: int)
    requires
        0 <= candidate < FULL_TURN_UDEG,
        candidate % (FULL_TURN_UDEG as int) == raw_udeg % (FULL_TURN_UDEG as int),
    ensures
        candidate == raw_udeg % (FULL_TURN_UDEG as int),
{
    lemma_small_mod(candidate as nat, FULL_TURN_UDEG as nat);
}

/// Law: classification is total. Every normalized bearing matches at least
/// one cardinal direction.
pub proof fn lemma_classification_total(bearing_udeg: int)
    requires
        0 <= bearing_udeg < FULL_TURN_UDEG,
    ensures
        direction_matches(bearing_udeg, Direction::North) || direction_matches(
            bearing_udeg,
            Direction::East,
        ) || direction_matches(bearing_udeg, Direction::South) || direction_matches(
            bearing_udeg,
            Direction::West,
        ),
{
}

} // verus!
