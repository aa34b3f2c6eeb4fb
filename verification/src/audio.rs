//! Sound: the clack of a pressure plate is not repeated too soon.

use crate::timer::NANOS_PER_MILLI;
use vstd::prelude::*;

verus! {

/// Keeps the sounds of the pressure plates apart.
#[derive(Clone, Copy, Debug, PartialEq, Eq)]
pub struct PressurePlateSoundCooldown {
    /// When the sound of a plate going down was last played, in
    /// nanoseconds of game time.
    pub last_down_time: Option<u64>,
    /// When the sound of a plate coming up was last played.
    pub last_up_time: Option<u64>,
    /// How long a sound keeps the next one of its kind away, in
    /// nanoseconds.
    pub cooldown_duration: u64,
}

/// Whether a sound last played at `last` may be played again at `now`:
/// if it was never played, or the cooldown has passed since. A clock
/// that has gone backwards counts as no time passed.
pub open spec fn can_play(last: Option<u64>, now: u64, cooldown: u64) -> bool {
    match last {
        Some(then) => (if now >= then {
            now - then
        } else {
            0
        }) >= cooldown,
        None => true,
    }
}

/// Whether a sound last played at `last` may be played again at `now`:
/// see [`can_play`].
pub fn may_play(last: Option<u64>, now: u64, cooldown: u64) -> (allowed: bool)
    ensures
        allowed == can_play(last, now, cooldown),
{
    match last {
        Some(then) => {
            let passed: u64 = if now >= then {
                now - then
            } else {
                0
            };
            passed >= cooldown
        },
        None => true,
    }
}

impl PressurePlateSoundCooldown {
    /// No sound played yet, and a tenth of a second between two of a
    /// kind.
    pub fn new() -> (cooldown: PressurePlateSoundCooldown)
        ensures
            cooldown == (PressurePlateSoundCooldown {
                last_down_time: None,
                last_up_time: None,
                cooldown_duration: (100 * NANOS_PER_MILLI) as u64,
            }),
    {
        PressurePlateSoundCooldown {
            last_down_time: None,
            last_up_time: None,
            cooldown_duration: 100 * NANOS_PER_MILLI,
        }
    }
}

/// Answers a plate going down at `now_ns`: says whether its sound is
/// played. It is if the cooldown allows it and the plate has a place in
/// the world (`plate_placed`), and then the time is noted.
pub fn pressure_plate_pressed_audio(
    cooldown: &mut PressurePlateSoundCooldown,
    now_ns: u64,
    plate_placed: bool,
) -> (play: bool)
    ensures
        play == (can_play(old(cooldown).last_down_time, now_ns, old(cooldown).cooldown_duration)
            && plate_placed),
        final(cooldown).last_down_time == if play {
            Some(now_ns)
        } else {
            old(cooldown).last_down_time
        },
        final(cooldown).last_up_time == old(cooldown).last_up_time,
        final(cooldown).cooldown_duration == old(cooldown).cooldown_duration,
{
    let play = may_play(cooldown.last_down_time, now_ns, cooldown.cooldown_duration)
        && plate_placed;
    if play {
        cooldown.last_down_time = Some(now_ns);
    }
    play
}

/// Answers a plate coming up at `now_ns`: says whether its sound is
/// played. It is if the cooldown allows it and the plate has a place in
/// the world (`plate_placed`), and then the time is noted.
pub fn pressure_plate_released_audio(
    cooldown: &mut PressurePlateSoundCooldown,
    now_ns: u64,
    plate_placed: bool,
) -> (play: bool)
    ensures
        play == (can_play(old(cooldown).last_up_time, now_ns, old(cooldown).cooldown_duration)
            && plate_placed),
        final(cooldown).last_up_time == if play {
            Some(now_ns)
        } else {
            old(cooldown).last_up_time
        },
        final(cooldown).last_down_time == old(cooldown).last_down_time,
        final(cooldown).cooldown_duration == old(cooldown).cooldown_duration,
{
    let play = may_play(cooldown.last_up_time, now_ns, cooldown.cooldown_duration) && plate_placed;
    if play {
        cooldown.last_up_time = Some(now_ns);
    }
    play
}

/// A sound that was just played is not played again before its cooldown
/// has passed.
pub proof fn lemma_no_repeat_within_cooldown(played_at: u64, now: u64, cooldown: u64)
    requires
        played_at <= now,
        now - played_at < cooldown,
    ensures
        !can_play(Some(played_at), now, cooldown),
{
}

} // verus!
