//! The crosshair: what it tells the player about the thing in front of
//! them.

use crate::interaction::{usable, usable_action, Interactions, RayHit};
use crate::player::Held;
use vstd::prelude::*;

verus! {

/// Whether the crosshair is on screen. While it is, the game has the
/// cursor.
#[derive(Clone, Copy, Debug, PartialEq, Eq, Hash, Structural)]
pub enum CrosshairState {
    /// On screen.
    Shown,
    /// Off screen.
    Hidden,
}

/// The word beside the crosshair.
#[derive(Clone, Copy, Debug, PartialEq, Eq, Structural)]
pub enum Prompt {
    /// The thing ahead can be pressed.
    Press,
    /// The thing ahead can be picked up.
    PickUp,
    /// The thing in the hand can be put down.
    Release,
    /// Nothing to do.
    Nothing,
}

/// What the crosshair shows.
#[derive(Clone, Copy, Debug, PartialEq, Eq, Structural)]
pub struct Reticle {
    /// Whether the ring is lit: something ahead can be used.
    pub lit: bool,
    /// The word beside it.
    pub prompt: Prompt,
}

/// The other state.
pub open spec fn toggled(state: CrosshairState) -> CrosshairState {
    match state {
        CrosshairState::Shown => CrosshairState::Hidden,
        CrosshairState::Hidden => CrosshairState::Shown,
    }
}

/// Answers the menu key: a crosshair that is shown hides, one that is
/// hidden shows. Where there is no crosshair at all (`None`), there is
/// none after.
pub fn toggle_aim_state(crosshair_state: Option<CrosshairState>) -> (next: Option<CrosshairState>)
    ensures
        next == match crosshair_state {
            Some(state) => Some(toggled(state)),
            None => None,
        },
{
    match crosshair_state {
        Some(CrosshairState::Shown) => Some(CrosshairState::Hidden),
        Some(CrosshairState::Hidden) => Some(CrosshairState::Shown),
        None => None,
    }
}

/// Hiding and showing again, or the other way round, changes nothing.
pub proof fn lemma_toggle_twice(state: CrosshairState)
    ensures
        toggled(toggled(state)) == state,
{
}

/// What the crosshair shows for a hit and a hand.
pub open spec fn reticle_spec(hit: Option<RayHit>, held: Option<Held>) -> Reticle {
    match usable(hit, held.is_some()) {
        Some(Interactions::Press) => Reticle { lit: true, prompt: Prompt::Press },
        Some(Interactions::PickUp) => Reticle { lit: true, prompt: Prompt::PickUp },
        None => Reticle {
            lit: false,
            prompt: match held {
                Some(mark) => if mark.can_release {
                    Prompt::Release
                } else {
                    Prompt::Nothing
                },
                None => Prompt::Nothing,
            },
        },
    }
}

/// Decides what the crosshair shows.
///
/// `hit` is what the ray from the camera hit within reach, and `held`
/// the mark on the object that the player holds, if any. The ring is lit
/// and the word names the use where the thing ahead can be used; nothing
/// can be picked up while something is held. Otherwise the word offers to
/// release what is held, where it may be put down.
pub fn display_interaction_state(hit: Option<RayHit>, held: Option<Held>) -> (reticle: Reticle)
    ensures
        reticle == reticle_spec(hit, held),
{
    match usable_action(hit, held.is_some()) {
        Some(Interactions::Press) => Reticle { lit: true, prompt: Prompt::Press },
        Some(Interactions::PickUp) => Reticle { lit: true, prompt: Prompt::PickUp },
        None => {
            let prompt = match held {
                Some(mark) => if mark.can_release {
                    Prompt::Release
                } else {
                    Prompt::Nothing
                },
                None => Prompt::Nothing,
            };
            Reticle { lit: false, prompt }
        },
    }
}

impl Prompt {
    /// The word as it stands on screen.
    pub open spec fn text_spec(&self) -> Seq<char> {
        match self {
            Prompt::Press => "Press"@,
            Prompt::PickUp => "Pick Up"@,
            Prompt::Release => "Release"@,
            Prompt::Nothing => ""@,
        }
    }

    /// The word as it stands on screen.
    pub fn text(&self) -> (word: &'static str)
        ensures
            word@ == self.text_spec(),
    {
        match self {
            Prompt::Press => "Press",
            Prompt::PickUp => "Pick Up",
            Prompt::Release => "Release",
            Prompt::Nothing => "",
        }
    }
}

} // verus!
