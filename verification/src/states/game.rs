use vstd::prelude::*;

verus! {

/// What a screen asks the state machine of the game to do.
#[derive(Debug, Clone, Copy, PartialEq, Eq, Structural)]
pub enum Transition {
    /// Stay on this screen.
    Stay,
    /// Leave the game.
    Quit,
    /// Leave this screen for the one below it (the game screen goes back to
    /// the loading screen, which reloads the level).
    Pop,
}

/// The keyboard and window facts of a window event that the game screen
/// reacts to.
#[derive(Debug, Clone, Copy, PartialEq, Eq, Structural)]
pub struct WindowInput {
    /// The window's close button was pressed.
    pub close_requested: bool,
    /// The event is the Escape key going down.
    pub escape_down: bool,
    /// The event is the R key going down.
    pub r_down: bool,
}

/// An event handed to the game screen.
#[derive(Debug, Clone, Copy, PartialEq, Eq, Structural)]
pub enum StateEvent {
    Window(WindowInput),
    /// An interaction with a UI element.
    Ui,
}

/// How the game screen answers an event.
pub open spec fn spec_game_transition(event: StateEvent) -> Transition {
    match event {
        StateEvent::Window(input) => if input.close_requested || input.escape_down {
            Transition::Quit
        } else if input.r_down {
            Transition::Pop
        } else {
            Transition::Stay
        },
        StateEvent::Ui => Transition::Stay,
    }
}

/// The game screen's event handling: closing the window or Escape quits,
/// R reloads the level, anything else is ignored.
pub fn handle_event(event: &StateEvent) -> (transition: Transition)
    ensures
        transition == spec_game_transition(*event),
{
    match event {
        StateEvent::Window(input) => {
            if input.close_requested || input.escape_down {
                Transition::Quit
            } else if input.r_down {
                Transition::Pop
            } else {
                Transition::Stay
            }
        },
        StateEvent::Ui => Transition::Stay,
    }
}

/// Quitting wins over reloading: an event that asks to quit quits, whatever
/// else it carries.
pub proof fn lemma_quit_wins(input: WindowInput)
    requires
        input.close_requested || input.escape_down,
    ensures
        spec_game_transition(StateEvent::Window(input)) == Transition::Quit,
{
}

/// Every answer of the game screen, in terms of the event: UI events and
/// window events without close, Escape or R keep the screen; R alone pops
/// it (reload); close or Escape quits.
pub proof fn lemma_game_transition_cases(input: WindowInput)
    ensures
        spec_game_transition(StateEvent::Ui) == Transition::Stay,
        !input.close_requested && !input.escape_down && input.r_down ==> spec_game_transition(
            StateEvent::Window(input),
        ) == Transition::Pop,
        !input.close_requested && !input.escape_down && !input.r_down ==> spec_game_transition(
            StateEvent::Window(input),
        ) == Transition::Stay,
        spec_game_transition(StateEvent::Window(input)) == Transition::Quit <==> (
        input.close_requested || input.escape_down),
{
}

} // verus!
