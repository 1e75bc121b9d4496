//! The game's state enums: the top-level game state and the *Clear
//! Skies* substate that decides when the painting pipeline runs.

use vstd::prelude::*;

verus! {

/// The main state enum of this game.
#[derive(Clone, Copy, Debug, PartialEq, Eq, Hash, Structural)]
pub enum GameState {
    /// The *Clear Skies* game.
    ClearSkies,
}

impl Default for GameState {
    /// The game starts in *Clear Skies*.
    fn default() -> (r: GameState)
        ensures
            r is ClearSkies,
    {
        GameState::ClearSkies
    }
}

/// Substate for the *Clear Skies* game.
#[derive(Clone, Copy, Debug, PartialEq, Eq, Hash, Structural)]
pub enum ClearSkiesState {
    /// Assets are still loading.
    Loading,
    /// The skybox is being drawn by the camera.
    PaintSkies,
    /// The skybox is being played.
    PlaySkies,
}

impl ClearSkiesState {
    /// The paint gate and the capture protocol tick only in this state.
    pub fn painting_active(&self) -> (r: bool)
        ensures
            r <==> *self is PaintSkies,
    {
        matches!(self, ClearSkiesState::PaintSkies)
    }
}

impl Default for ClearSkiesState {
    /// Painting begins as soon as loading hands over.
    fn default() -> (r: ClearSkiesState)
        ensures
            r is PaintSkies,
    {
        ClearSkiesState::PaintSkies
    }
}

} // verus!
