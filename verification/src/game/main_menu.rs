use vstd::prelude::*;
use crate::game::button::Button;

verus! {

/// What a click in the main menu asks for.
#[derive(Debug, Clone, Copy, PartialEq, Eq, Structural)]
pub enum MenuAction {
    /// Start a round.
    StartGame,
    /// Close the window.
    Quit,
    /// The click hit no button.
    Nothing,
}

/// The action of a release of the left mouse button: the play button wins
/// over the quit button.
pub fn click_action(play: &Button, quit: &Button) -> (r: MenuAction)
    ensures
        r == (if play.spec_mouse_inside() {
            MenuAction::StartGame
        } else if quit.spec_mouse_inside() {
            MenuAction::Quit
        } else {
            MenuAction::Nothing
        }),
{
    if play.is_mouse_inside() {
        MenuAction::StartGame
    } else if quit.is_mouse_inside() {
        MenuAction::Quit
    } else {
        MenuAction::Nothing
    }
}

} // verus!
