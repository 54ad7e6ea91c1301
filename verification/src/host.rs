use crate::mmu::joypad::{Joypad, Key};
use vstd::prelude::*;

verus! {

/// The time that one frame is given, in nanoseconds: a sixtieth of a second.
pub const FRAME_NANOS: u64 = 16_666_667;

/// The time to wait at the end of a frame that took `elapsed` nanoseconds,
/// so that frames follow one another sixty times a second: what is left of
/// the frame's time, and nothing for a frame that took longer.
pub open spec fn deficit_of(elapsed: u64) -> u64 {
    if elapsed < FRAME_NANOS {
        (FRAME_NANOS - elapsed) as u64
    } else {
        0
    }
}

/// The time to wait at the end of a frame that took `elapsed` nanoseconds.
pub fn frame_deficit(elapsed: u64) -> (wait: u64)
    ensures
        wait == deficit_of(elapsed),
{
    if elapsed < FRAME_NANOS {
        FRAME_NANOS - elapsed
    } else {
        0
    }
}

/// The newest of the frames that have arrived since the last look, if any
/// has: the last of them. The older ones are dropped.
pub fn most_recent_frame(frames: Vec<Vec<u32>>) -> (latest: Option<Vec<u32>>)
    ensures
        latest == if frames@.len() == 0 {
            None::<Vec<u32>>
        } else {
            Some(frames@.last())
        },
{
    let mut frames = frames;
    frames.pop()
}

/// The joypad after the first `upto` of a row of key events, each a key and
/// whether it went down, have been applied in their order.
pub open spec fn after_events(joypad: Joypad, events: Seq<(bool, Key)>, upto: int) -> Joypad
    decreases upto,
{
    if upto <= 0 {
        joypad
    } else {
        let (pressed, key) = events[upto - 1];
        after_events(joypad, events, upto - 1).host_key_model(key, pressed)
    }
}

/// Applies the key events that have arrived between two steps, the oldest
/// first.
pub fn apply_key_events(joypad: &mut Joypad, events: &Vec<(bool, Key)>)
    ensures
        *final(joypad) == after_events(*old(joypad), events@, events@.len() as int),
{
    let mut i: usize = 0;
    while i < events.len()
        invariant
            i <= events@.len(),
            *joypad == after_events(*old(joypad), events@, i as int),
        decreases events@.len() - i,
    {
        let (pressed, key) = events[i];
        if pressed {
            joypad.handle_key_down(key);
        } else {
            joypad.handle_key_up(key);
        }
        i += 1;
    }
}

} // verus!
