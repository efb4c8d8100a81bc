//! The two-state click cycle that turns a pair of clicks into a measurement.
//!
//! One click fixes the start point of a drag; the next click ends it and
//! yields the squared pixel distance travelled. The cycle then starts over.

use crate::geometry::Point;
use crate::geometry::squared_distance;
use crate::geometry::squared_distance_spec;
use vstd::prelude::*;

verus! {

/// Where the measurement cycle stands.
#[derive(Clone, Copy, PartialEq, Eq, Structural, Debug)]
pub enum ClickPhase {
    /// Waiting for the click that fixes the start point.
    Idle,
    /// The start point is fixed; the next click ends the measurement.
    Started(Point),
}

/// Advances the click cycle by one click at global position `pos`.
///
/// The first click of a cycle fixes the start point and measures nothing;
/// the second completes the cycle and yields the squared pixel distance
/// between the two click positions.
pub fn on_click(phase: ClickPhase, pos: Point) -> (r: (ClickPhase, Option<u128>))
    ensures
        match phase {
            ClickPhase::Idle => r.0 == ClickPhase::Started(pos) && r.1 == None::<u128>,
            ClickPhase::Started(start) => r.0 == ClickPhase::Idle && (r.1 matches Some(sq)
                && sq == squared_distance_spec(start, pos)),
        },
{
    match phase {
        ClickPhase::Idle => (ClickPhase::Started(pos), None),
        ClickPhase::Started(start) => {
            let sq: u128 = squared_distance(start, pos);
            (ClickPhase::Idle, Some(sq))
        },
    }
}

} // verus!
