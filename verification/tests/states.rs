use fuite::states::game::{handle_event, StateEvent, Transition, WindowInput};
use fuite::states::starting::{Completion, StartingState, StartingStep};

fn window(close_requested: bool, escape_down: bool, r_down: bool) -> StateEvent {
    StateEvent::Window(WindowInput { close_requested, escape_down, r_down })
}

#[test]
fn game_screen_events() {
    assert_eq!(handle_event(&window(true, false, false)), Transition::Quit);
    assert_eq!(handle_event(&window(false, true, false)), Transition::Quit);
    assert_eq!(handle_event(&window(false, true, true)), Transition::Quit);
    assert_eq!(handle_event(&window(false, false, true)), Transition::Pop);
    assert_eq!(handle_event(&window(false, false, false)), Transition::Stay);
    assert_eq!(handle_event(&StateEvent::Ui), Transition::Stay);
}

#[test]
fn starting_screen_waits_then_switches() {
    let mut s = StartingState::new("scene");
    assert!(matches!(s.update(Completion::Loading), StartingStep::Wait));
    assert!(!s.load_complete);
    assert!(matches!(s.update(Completion::Complete), StartingStep::Wait));
    assert!(s.load_complete);
    assert!(matches!(s.update(Completion::Loading), StartingStep::SwitchToLevelLoading("scene")));
    assert!(s.game_prefab.is_none());
}

#[test]
fn starting_screen_quits_on_failure() {
    let mut s = StartingState::new(7u32);
    assert!(matches!(s.update(Completion::Failed), StartingStep::Quit));
    assert!(!s.load_complete);
    assert_eq!(s.game_prefab, Some(7));
}
