//! Loading: the game starts once every asset has arrived.

use vstd::prelude::*;

verus! {

/// The stages of the game.
#[derive(Clone, Copy, Debug, PartialEq, Eq, Hash, Structural)]
pub enum GameState {
    /// Assets are on their way.
    Loading,
    /// The title screen.
    MainMenu,
    /// The game itself.
    Playing,
}

/// The stages of loading.
#[derive(Clone, Copy, Debug, PartialEq, Eq, Hash, Structural)]
pub enum AssetLoaderState {
    /// Assets are on their way.
    Loading,
    /// All assets have arrived and are made ready.
    Postprocess,
}

/// Whether the title menu is on screen.
#[derive(Clone, Copy, Debug, PartialEq, Eq, Hash, Structural)]
pub enum MainMenuState {
    /// On screen.
    Shown,
    /// Off screen.
    Hidden,
}

/// Whether every entry of `loaded` is set.
pub open spec fn all_loaded(loaded: Seq<bool>) -> bool {
    forall|i: int| 0 <= i < loaded.len() ==> loaded[i]
}

/// Checks the assets that are on their way. `loaded` says of each
/// whether it has arrived. Once all have, loading moves on to
/// `Postprocess`; until then it stays at `Loading`.
pub fn check_asset_loading(loaded: &Vec<bool>) -> (next: AssetLoaderState)
    ensures
        next == if all_loaded(loaded@) {
            AssetLoaderState::Postprocess
        } else {
            AssetLoaderState::Loading
        },
{
    let mut i: usize = 0;
    while i < loaded.len()
        invariant
            i <= loaded@.len(),
            forall|k: int| 0 <= k < i ==> loaded@[k],
        decreases loaded.len() - i,
    {
        if !loaded[i] {
            return AssetLoaderState::Loading;
        }
        i += 1;
    }
    AssetLoaderState::Postprocess
}

} // verus!
