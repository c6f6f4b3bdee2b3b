//! Orientation bookkeeping: the finite table that maps a (from, to)
//! orientation pair to one of the 36 canonical bend indices, the per-tick
//! advance of the front queued transition, and the direct 4-way sprite
//! selection that the head and tail use instead of the table.

use vstd::prelude::*;

use crate::grid::Direction;
use crate::grid::Orientation;
use crate::grid::SimError;
use crate::grid::Transition;
use crate::grid::TRANSITION_FRAME_MAX;

verus! {

/// The bend table: every geometrically valid combination of incoming and
/// outgoing orientation pairs has one of the 36 canonical indices; a pair
/// that would mean an impossible in-place reversal is absent.
pub open spec fn spec_bend_index(a: Orientation, b: Orientation) -> Option<u32> {
    match (a.from, a.to, b.from, b.to) {
        (Direction::Left, Direction::Right, Direction::Left, Direction::Right) => Some(0u32),
        (Direction::Left, Direction::Right, Direction::Left, Direction::Up) => Some(1u32),
        (Direction::Left, Direction::Right, Direction::Left, Direction::Down) => Some(2u32),
        (Direction::Left, Direction::Up, Direction::Down, Direction::Left) => Some(3u32),
        (Direction::Left, Direction::Up, Direction::Down, Direction::Up) => Some(4u32),
        (Direction::Left, Direction::Up, Direction::Down, Direction::Right) => Some(5u32),
        (Direction::Left, Direction::Down, Direction::Up, Direction::Left) => Some(6u32),
        (Direction::Left, Direction::Down, Direction::Up, Direction::Down) => Some(7u32),
        (Direction::Left, Direction::Down, Direction::Up, Direction::Right) => Some(8u32),
        (Direction::Right, Direction::Left, Direction::Right, Direction::Left) => Some(9u32),
        (Direction::Right, Direction::Left, Direction::Right, Direction::Up) => Some(10u32),
        (Direction::Right, Direction::Left, Direction::Right, Direction::Down) => Some(11u32),
        (Direction::Right, Direction::Up, Direction::Down, Direction::Left) => Some(12u32),
        (Direction::Right, Direction::Up, Direction::Down, Direction::Up) => Some(13u32),
        (Direction::Right, Direction::Up, Direction::Down, Direction::Right) => Some(14u32),
        (Direction::Right, Direction::Down, Direction::Up, Direction::Left) => Some(15u32),
        (Direction::Right, Direction::Down, Direction::Up, Direction::Down) => Some(16u32),
        (Direction::Right, Direction::Down, Direction::Up, Direction::Right) => Some(17u32),
        (Direction::Down, Direction::Up, Direction::Down, Direction::Up) => Some(18u32),
        (Direction::Down, Direction::Up, Direction::Down, Direction::Left) => Some(19u32),
        (Direction::Down, Direction::Up, Direction::Down, Direction::Right) => Some(20u32),
        (Direction::Down, Direction::Left, Direction::Right, Direction::Up) => Some(21u32),
        (Direction::Down, Direction::Left, Direction::Right, Direction::Left) => Some(22u32),
        (Direction::Down, Direction::Left, Direction::Right, Direction::Down) => Some(23u32),
        (Direction::Down, Direction::Right, Direction::Left, Direction::Up) => Some(24u32),
        (Direction::Down, Direction::Right, Direction::Left, Direction::Right) => Some(25u32),
        (Direction::Down, Direction::Right, Direction::Left, Direction::Down) => Some(26u32),
        (Direction::Up, Direction::Down, Direction::Up, Direction::Down) => Some(27u32),
        (Direction::Up, Direction::Down, Direction::Up, Direction::Left) => Some(28u32),
        (Direction::Up, Direction::Down, Direction::Up, Direction::Right) => Some(29u32),
        (Direction::Up, Direction::Left, Direction::Right, Direction::Up) => Some(30u32),
        (Direction::Up, Direction::Left, Direction::Right, Direction::Left) => Some(31u32),
        (Direction::Up, Direction::Left, Direction::Right, Direction::Down) => Some(32u32),
        (Direction::Up, Direction::Right, Direction::Left, Direction::Up) => Some(33u32),
        (Direction::Up, Direction::Right, Direction::Left, Direction::Right) => Some(34u32),
        (Direction::Up, Direction::Right, Direction::Left, Direction::Down) => Some(35u32),
        _ => None,
    }
}

/// Looks the bend index of one transition up. A pair absent from the table
/// is reported, never guessed at.
pub fn bend_index(a: Orientation, b: Orientation) -> (r: Result<u32, SimError>)
    ensures
        match spec_bend_index(a, b) {
            Some(k) => r == Ok::<u32, SimError>(k),
            None => r == Err::<u32, SimError>(SimError::UnrecognizedTransitionPair),
        },
{
    match (a.from, a.to, b.from, b.to) {
        (Direction::Left, Direction::Right, Direction::Left, Direction::Right) => Ok(0),
        (Direction::Left, Direction::Right, Direction::Left, Direction::Up) => Ok(1),
        (Direction::Left, Direction::Right, Direction::Left, Direction::Down) => Ok(2),
        (Direction::Left, Direction::Up, Direction::Down, Direction::Left) => Ok(3),
        (Direction::Left, Direction::Up, Direction::Down, Direction::Up) => Ok(4),
        (Direction::Left, Direction::Up, Direction::Down, Direction::Right) => Ok(5),
        (Direction::Left, Direction::Down, Direction::Up, Direction::Left) => Ok(6),
        (Direction::Left, Direction::Down, Direction::Up, Direction::Down) => Ok(7),
        (Direction::Left, Direction::Down, Direction::Up, Direction::Right) => Ok(8),
        (Direction::Right, Direction::Left, Direction::Right, Direction::Left) => Ok(9),
        (Direction::Right, Direction::Left, Direction::Right, Direction::Up) => Ok(10),
        (Direction::Right, Direction::Left, Direction::Right, Direction::Down) => Ok(11),
        (Direction::Right, Direction::Up, Direction::Down, Direction::Left) => Ok(12),
        (Direction::Right, Direction::Up, Direction::Down, Direction::Up) => Ok(13),
        (Direction::Right, Direction::Up, Direction::Down, Direction::Right) => Ok(14),
        (Direction::Right, Direction::Down, Direction::Up, Direction::Left) => Ok(15),
        (Direction::Right, Direction::Down, Direction::Up, Direction::Down) => Ok(16),
        (Direction::Right, Direction::Down, Direction::Up, Direction::Right) => Ok(17),
        (Direction::Down, Direction::Up, Direction::Down, Direction::Up) => Ok(18),
        (Direction::Down, Direction::Up, Direction::Down, Direction::Left) => Ok(19),
        (Direction::Down, Direction::Up, Direction::Down, Direction::Right) => Ok(20),
        (Direction::Down, Direction::Left, Direction::Right, Direction::Up) => Ok(21),
        (Direction::Down, Direction::Left, Direction::Right, Direction::Left) => Ok(22),
        (Direction::Down, Direction::Left, Direction::Right, Direction::Down) => Ok(23),
        (Direction::Down, Direction::Right, Direction::Left, Direction::Up) => Ok(24),
        (Direction::Down, Direction::Right, Direction::Left, Direction::Right) => Ok(25),
        (Direction::Down, Direction::Right, Direction::Left, Direction::Down) => Ok(26),
        (Direction::Up, Direction::Down, Direction::Up, Direction::Down) => Ok(27),
        (Direction::Up, Direction::Down, Direction::Up, Direction::Left) => Ok(28),
        (Direction::Up, Direction::Down, Direction::Up, Direction::Right) => Ok(29),
        (Direction::Up, Direction::Left, Direction::Right, Direction::Up) => Ok(30),
        (Direction::Up, Direction::Left, Direction::Right, Direction::Left) => Ok(31),
        (Direction::Up, Direction::Left, Direction::Right, Direction::Down) => Ok(32),
        (Direction::Up, Direction::Right, Direction::Left, Direction::Up) => Ok(33),
        (Direction::Up, Direction::Right, Direction::Left, Direction::Right) => Ok(34),
        (Direction::Up, Direction::Right, Direction::Left, Direction::Down) => Ok(35),
        _ => Err(SimError::UnrecognizedTransitionPair),
    }
}

/// The front transition after one consumer tick: its frame advanced by one,
/// capped at the per-transition maximum.
pub open spec fn spec_advanced(t: Transition) -> Transition {
    Transition {
        from: t.from,
        to: t.to,
        frame: if t.frame + 1 < TRANSITION_FRAME_MAX as int {
            (t.frame + 1) as u32
        } else {
            TRANSITION_FRAME_MAX
        },
    }
}

/// Advances the first queued transition's frame by one, up to the maximum;
/// at the maximum the transition is removed from the queue. Returns the
/// advanced transition for the consumer, or nothing when the queue is empty.
pub fn advance_front_transition(q: &mut Vec<Transition>) -> (r: Option<Transition>)
    ensures
        old(q)@.len() == 0 ==> r is None && final(q)@ == old(q)@,
        old(q)@.len() > 0 ==> {
            let adv = spec_advanced(old(q)@[0]);
            &&& r == Some(adv)
            &&& (adv.frame == TRANSITION_FRAME_MAX ==> final(q)@ == old(q)@.remove(0))
            &&& (adv.frame != TRANSITION_FRAME_MAX ==> final(q)@ == old(q)@.update(0, adv))
        },
{
    if q.len() == 0 {
        return None;
    }
    let front = q[0];
    let new_frame = if front.frame < TRANSITION_FRAME_MAX - 1 {
        front.frame + 1
    } else {
        TRANSITION_FRAME_MAX
    };
    let adv = Transition { from: front.from, to: front.to, frame: new_frame };
    if new_frame == TRANSITION_FRAME_MAX {
        q.remove(0);
    } else {
        q.remove(0);
        q.insert(0, adv);
        assert(q@ =~= old(q)@.update(0, adv));
    }
    Some(adv)
}

/// The sprite cell of a mid-body segment showing `t`: the bend's row of five
/// frames, at the transition's frame. A pair absent from the bend table is
/// reported.
pub fn body_sprite_index(t: &Transition) -> (r: Result<u32, SimError>)
    requires
        t.frame <= TRANSITION_FRAME_MAX,
    ensures
        match spec_bend_index(t.from, t.to) {
            Some(k) => r == Ok::<u32, SimError>((5 * k + t.frame) as u32),
            None => r == Err::<u32, SimError>(SimError::UnrecognizedTransitionPair),
        },
{
    match bend_index(t.from, t.to) {
        Ok(k) => {
            assert(k <= 35);
            Ok(5 * k + t.frame)
        },
        Err(e) => Err(e),
    }
}

/// The 4-way sprite cell of the head, a direct function of its own `to`
/// direction.
pub fn head_sprite_index(to: Direction) -> (r: u32)
    ensures
        r == match to {
            Direction::Right => 0u32,
            Direction::Up => 1u32,
            Direction::Left => 2u32,
            Direction::Down => 3u32,
        },
{
    match to {
        Direction::Right => 0,
        Direction::Up => 1,
        Direction::Left => 2,
        Direction::Down => 3,
    }
}

/// The 4-way sprite cell of the tail, a direct function of its own `to`
/// direction.
pub fn tail_sprite_index(to: Direction) -> (r: u32)
    ensures
        r == match to {
            Direction::Left => 0u32,
            Direction::Down => 1u32,
            Direction::Right => 2u32,
            Direction::Up => 3u32,
        },
{
    match to {
        Direction::Left => 0,
        Direction::Down => 1,
        Direction::Right => 2,
        Direction::Up => 3,
    }
}

} // verus!
