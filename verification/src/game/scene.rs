use vstd::prelude::*;

verus! {

/// The scene that the game switches to at the start of the next frame.
#[derive(Debug, Clone, Copy, PartialEq, Eq, Structural)]
pub enum NextScene {
    MainMenu,
    Playing,
}

} // verus!
