use vstd::prelude::*;

use crate::obstacle::gap_half_size_for;
use crate::state::State;
use crate::{Key, START_X, START_Y};

verus! {

/// One tick's input: elapsed microseconds, the key pressed if any, and the
/// gap centre drawn for an obstacle made during the tick.
pub type TickInput = (u32, Option<Key>, i32);

/// The session after the ticks of `inputs`, in order.
pub open spec fn run(s: State, inputs: Seq<TickInput>) -> State
    decreases inputs.len(),
{
    if inputs.len() == 0 {
        s
    } else {
        run(s.next(inputs[0].0, inputs[0].1, inputs[0].2), inputs.drop_first())
    }
}

/// A tick keeps the player's position and velocity in range.
pub proof fn tick_keeps_physics(s: State, elapsed: u32, key: Option<Key>, gap_y: i32)
    requires
        s.physics_ok(),
    ensures
        s.next(elapsed, key, gap_y).physics_ok(),
{
}

/// Whatever the ticks, the player's vertical position never goes negative.
pub proof fn position_never_negative(s: State, inputs: Seq<TickInput>)
    requires
        s.physics_ok(),
    ensures
        run(s, inputs).physics_ok(),
        run(s, inputs).player.y >= 0,
    decreases inputs.len(),
{
    if inputs.len() > 0 {
        tick_keeps_physics(s, inputs[0].0, inputs[0].1, inputs[0].2);
        position_never_negative(s.next(inputs[0].0, inputs[0].1, inputs[0].2), inputs.drop_first());
    }
}

/// For every score that is not negative, the gap of a new obstacle is open.
pub proof fn gap_never_closes(score: int)
    requires
        score >= 0,
    ensures
        gap_half_size_for(score) >= 1,
{
}

/// At the menu, Q asks the host to exit and the session does not start playing.
pub proof fn quit_from_menu(s: State, elapsed: u32, gap_y: i32)
    requires
        s.mode is Menu,
    ensures
        s.next(elapsed, Some(Key::Q), gap_y).quitting,
        s.next(elapsed, Some(Key::Q), gap_y).mode is Menu,
{
}

/// At the menu, P starts a game with score zero and a fresh player at rest.
pub proof fn start_from_menu(s: State, elapsed: u32, gap_y: i32)
    requires
        s.mode is Menu,
    ensures
        ({
            let t = s.next(elapsed, Some(Key::P), gap_y);
            &&& t.mode is Playing
            &&& t.score == 0
            &&& t.player.x == START_X
            &&& t.player.y == START_Y
            &&& t.player.velocity == 0
            &&& t.frame_time == 0
        }),
{
}

/// On the end screen, ticks without a key leave the session as it is.
pub proof fn end_screen_is_still(s: State, inputs: Seq<TickInput>)
    requires
        s.mode is End,
        forall|i: int| 0 <= i < inputs.len() ==> (#[trigger] inputs[i]).1 is None,
    ensures
        run(s, inputs) == s,
    decreases inputs.len(),
{
    if inputs.len() > 0 {
        assert(inputs[0].1 is None);
        let rest = inputs.drop_first();
        assert forall|i: int| 0 <= i < rest.len() implies (#[trigger] rest[i]).1 is None by {
            assert(rest[i] == inputs[i + 1]);
        }
        end_screen_is_still(s, rest);
    }
}

} // verus!
