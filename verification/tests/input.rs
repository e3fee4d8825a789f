use fuite::systems::player_input::{ActionState, camera_axis, classify_action, same_text, CameraAxis, PlayerInput, PressedAction};

#[test]
fn press_is_reported_once_until_release() {
    let mut input = PlayerInput::new();
    assert!(!input.is_pressed(&"left_click".to_string()));
    assert_eq!(input.update_action("left_click".to_string(), true), Some(PressedAction::LeftClick));
    assert!(input.is_pressed(&"left_click".to_string()));
    assert_eq!(input.update_action("left_click".to_string(), true), None);
    assert_eq!(input.update_action("left_click".to_string(), false), None);
    assert!(!input.is_pressed(&"left_click".to_string()));
    assert_eq!(input.update_action("left_click".to_string(), false), None);
    assert_eq!(input.update_action("left_click".to_string(), true), Some(PressedAction::LeftClick));
}

#[test]
fn actions_are_tracked_separately() {
    let mut input = PlayerInput::new();
    assert_eq!(input.update_action("right_click".to_string(), true), Some(PressedAction::RightClick));
    assert_eq!(input.update_action("jump".to_string(), true), Some(PressedAction::Unhandled));
    assert_eq!(input.update_action("jump".to_string(), false), None);
    assert!(input.is_pressed(&"right_click".to_string()));
    assert!(!input.is_pressed(&"jump".to_string()));
}

#[test]
fn action_names() {
    assert_eq!(classify_action("left_click"), PressedAction::LeftClick);
    assert_eq!(classify_action("right_click"), PressedAction::RightClick);
    assert_eq!(classify_action("left_clic"), PressedAction::Unhandled);
    assert_eq!(classify_action(""), PressedAction::Unhandled);
}

#[test]
fn axis_names() {
    assert_eq!(camera_axis("camera_x"), Some(CameraAxis::Horizontal));
    assert_eq!(camera_axis("camera_y"), Some(CameraAxis::VerticalInverted));
    assert_eq!(camera_axis("camera_z"), None);
}

#[test]
fn text_comparison() {
    assert!(same_text("héllo", "héllo"));
    assert!(!same_text("héllo", "hello"));
    assert!(!same_text("abc", "abcd"));
    assert!(same_text("", ""));
}

fn frame(states: &[(&str, bool)]) -> Vec<ActionState> {
    states.iter().map(|(n, d)| ActionState { name: n.to_string(), is_down: *d }).collect()
}

#[test]
fn frames_report_each_press_once() {
    let mut input = PlayerInput::new();
    assert_eq!(
        input.process_actions(frame(&[("left_click", true), ("right_click", false), ("jump", true)])),
        vec![Some(PressedAction::LeftClick), None, Some(PressedAction::Unhandled)]
    );
    // Held down: nothing new.
    assert_eq!(
        input.process_actions(frame(&[("left_click", true), ("right_click", true), ("jump", false)])),
        vec![None, Some(PressedAction::RightClick), None]
    );
    assert!(input.is_pressed(&"left_click".to_string()));
    assert!(input.is_pressed(&"right_click".to_string()));
    assert!(!input.is_pressed(&"jump".to_string()));
    assert_eq!(input.process_actions(frame(&[])), vec![]);
}
