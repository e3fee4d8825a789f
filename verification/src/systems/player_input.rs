use fnv::FnvHashSet;
use vstd::prelude::*;
use vstd::string::*;

verus! {

/// The FNV hasher of the `fnv` crate.
#[verifier::external_type_specification]
#[verifier::external_body]
pub struct ExFnvHasher(fnv::FnvHasher);

/// `std::hash::BuildHasherDefault`, which builds the FNV hashers of an
/// `FnvHashSet`.
#[verifier::external_type_specification]
#[verifier::external_body]
#[verifier::reject_recursive_types(H)]
pub struct ExBuildHasherDefault<H>(std::hash::BuildHasherDefault<H>);

/// The names that an `FnvHashSet` of action names holds.
pub uninterp spec fn pressed_names(set: FnvHashSet<String>) -> Set<Seq<char>>;

/// An empty set.
///
/// Calls `FnvHashSet::default()` (a `HashSet` with a default
/// `FnvBuildHasher`); the claim is that the set holds no name.
#[verifier::external_body]
fn new_pressed_set() -> (set: FnvHashSet<String>)
    ensures
        pressed_names(set) == Set::<Seq<char>>::empty(),
{
    FnvHashSet::default()
}

/// Calls `HashSet::contains`; the claim is that it answers whether the set
/// holds a string with the same characters (the FNV hasher hashes equal
/// strings alike).
#[verifier::external_body]
fn pressed_set_contains(set: &FnvHashSet<String>, action: &String) -> (held: bool)
    ensures
        held == pressed_names(*set).contains(action@),
{
    set.contains(action)
}

/// Calls `HashSet::insert`; the claim is that the set then holds the name
/// as well, and nothing else changes.
#[verifier::external_body]
fn pressed_set_insert(set: &mut FnvHashSet<String>, action: String)
    ensures
        pressed_names(*final(set)) == pressed_names(*old(set)).insert(action@),
{
    set.insert(action);
}

/// Calls `HashSet::remove`; the claim is that the set then no longer holds
/// the name, and nothing else changes.
#[verifier::external_body]
fn pressed_set_remove(set: &mut FnvHashSet<String>, action: &String)
    ensures
        pressed_names(*final(set)) == pressed_names(*old(set)).remove(action@),
{
    set.remove(action);
}

/// Whether two strings hold the same characters.
pub fn same_text(a: &str, b: &str) -> (same: bool)
    ensures
        same == (a@ == b@),
{
    let n = a.unicode_len();
    if n != b.unicode_len() {
        return false;
    }
    let mut i: usize = 0;
    while i < n
        invariant
            n == a@.len(),
            n == b@.len(),
            i <= n,
            a@.subrange(0, i as int) == b@.subrange(0, i as int),
        decreases n - i,
    {
        if a.get_char(i) != b.get_char(i) {
            assert(a@[i as int] != b@[i as int]);
            return false;
        }
        assert(a@.subrange(0, i + 1) == a@.subrange(0, i as int).push(a@[i as int]));
        assert(b@.subrange(0, i + 1) == b@.subrange(0, i as int).push(b@[i as int]));
        i = i + 1;
    }
    assert(a@.subrange(0, n as int) == a@);
    assert(b@.subrange(0, n as int) == b@);
    true
}

/// A newly pressed input action, as the game sees it.
#[derive(Debug, Clone, Copy, PartialEq, Eq, Structural)]
pub enum PressedAction {
    /// "left_click": send the clicked Hums to the left.
    LeftClick,
    /// "right_click": send the clicked Hums to the right.
    RightClick,
    /// An action the game does not handle.
    Unhandled,
}

/// How the game reads the name of a newly pressed action.
pub open spec fn spec_classify(action: Seq<char>) -> PressedAction {
    if action == "left_click"@ {
        PressedAction::LeftClick
    } else if action == "right_click"@ {
        PressedAction::RightClick
    } else {
        PressedAction::Unhandled
    }
}

/// Reads the name of a newly pressed action.
pub fn classify_action(action: &str) -> (kind: PressedAction)
    ensures
        kind == spec_classify(action@),
{
    if same_text(action, "left_click") {
        PressedAction::LeftClick
    } else if same_text(action, "right_click") {
        PressedAction::RightClick
    } else {
        PressedAction::Unhandled
    }
}

/// An input axis that moves the camera.
#[derive(Debug, Clone, Copy, PartialEq, Eq, Structural)]
pub enum CameraAxis {
    /// "camera_x": moves the camera horizontally by the axis value.
    Horizontal,
    /// "camera_y": moves the camera vertically by the opposite of the axis
    /// value.
    VerticalInverted,
}

/// Which camera move an input axis drives, if any.
pub open spec fn spec_camera_axis(axis: Seq<char>) -> Option<CameraAxis> {
    if axis == "camera_x"@ {
        Some(CameraAxis::Horizontal)
    } else if axis == "camera_y"@ {
        Some(CameraAxis::VerticalInverted)
    } else {
        None
    }
}

/// Reads the name of an input axis.
pub fn camera_axis(axis: &str) -> (target: Option<CameraAxis>)
    ensures
        target == spec_camera_axis(axis@),
{
    if same_text(axis, "camera_x") {
        Some(CameraAxis::Horizontal)
    } else if same_text(axis, "camera_y") {
        Some(CameraAxis::VerticalInverted)
    } else {
        None
    }
}

/// Turns the state of the input actions into presses: an action is
/// reported once when it goes down, and again only after it went up.
pub struct PlayerInput {
    currently_pressed: FnvHashSet<String>,
}

impl PlayerInput {
    /// The names of the actions held down at the last update.
    pub closed spec fn pressed(self) -> Set<Seq<char>> {
        pressed_names(self.currently_pressed)
    }

    /// No action held down.
    pub fn new() -> (input: PlayerInput)
        ensures
            input.pressed() == Set::<Seq<char>>::empty(),
    {
        PlayerInput { currently_pressed: new_pressed_set() }
    }

    /// Whether the action was held down at the last update.
    pub fn is_pressed(&self, action: &String) -> (held: bool)
        ensures
            held == self.pressed().contains(action@),
    {
        pressed_set_contains(&self.currently_pressed, action)
    }

    /// Records that `action` is now down or up, and reports it when it has
    /// just gone down.
    pub fn update_action(&mut self, action: String, is_down: bool) -> (press: Option<
        PressedAction,
    >)
        ensures
            (final(self).pressed(), press) == spec_input_update(
                old(self).pressed(),
                action@,
                is_down,
            ),
    {
        let was_down = pressed_set_contains(&self.currently_pressed, &action);
        if was_down && !is_down {
            pressed_set_remove(&mut self.currently_pressed, &action);
        }
        if !was_down && is_down {
            let kind = classify_action(action.as_str());
            pressed_set_insert(&mut self.currently_pressed, action);
            return Some(kind);
        }
        proof {
            if was_down {
                assert(old(self).pressed().insert(action@) == old(self).pressed());
            } else {
                assert(old(self).pressed().remove(action@) == old(self).pressed());
            }
        }
        None
    }

    /// One frame of input: updates every action of `actions` in turn, and
    /// reports, for each, the press it makes (if it has just gone down).
    pub fn process_actions(&mut self, actions: Vec<ActionState>) -> (presses: Vec<
        Option<PressedAction>,
    >)
        ensures
            (final(self).pressed(), presses@) == spec_frame(
                old(self).pressed(),
                frame_view(actions@),
            ),
    {
        let mut presses: Vec<Option<PressedAction>> = Vec::new();
        let ghost start = self.pressed();
        let ghost frame = frame_view(actions@);
        let mut i: usize = 0;
        while i < actions.len()
            invariant
                i <= actions@.len(),
                frame == frame_view(actions@),
                (self.pressed(), presses@) == spec_frame(start, frame.subrange(0, i as int)),
            decreases actions@.len() - i,
        {
            let name = actions[i].name.clone();
            let is_down = actions[i].is_down;
            assert(frame.subrange(0, i + 1).drop_last() == frame.subrange(0, i as int));
            assert(frame.subrange(0, i + 1).last() == (name@, is_down));
            let press = self.update_action(name, is_down);
            presses.push(press);
            i = i + 1;
        }
        assert(frame.subrange(0, actions@.len() as int) == frame);
        presses
    }
}

/// The state of one input action at a frame.
#[derive(Debug)]
pub struct ActionState {
    pub name: String,
    pub is_down: bool,
}

/// A frame of input as names and states.
pub open spec fn frame_view(actions: Seq<ActionState>) -> Seq<(Seq<char>, bool)> {
    actions.map_values(|a: ActionState| (a.name@, a.is_down))
}

/// A frame of input updates, in order: the actions held down afterwards,
/// and the press that each update reports.
pub open spec fn spec_frame(pressed: Set<Seq<char>>, frame: Seq<(Seq<char>, bool)>) -> (
    Set<Seq<char>>,
    Seq<Option<PressedAction>>,
)
    decreases frame.len(),
{
    if frame.len() == 0 {
        (pressed, seq![])
    } else {
        let (before, presses) = spec_frame(pressed, frame.drop_last());
        let (after, press) = spec_input_update(before, frame.last().0, frame.last().1);
        (after, presses.push(press))
    }
}

/// The names of a frame are all different (as the bindings list them).
pub open spec fn distinct_names(frame: Seq<(Seq<char>, bool)>) -> bool {
    forall|i: int, j: int| 0 <= i < j < frame.len() ==> #[trigger] frame[i].0 != #[trigger] frame[j].0
}

/// After a frame whose actions have different names, an action is held
/// down exactly when the frame reported it down; a press is reported for
/// an action exactly when it is down now and was not held before the
/// frame; and actions outside the frame are untouched. So holding a button
/// gives one press, however many frames it is held.
pub proof fn lemma_frame_tracks_input(pressed: Set<Seq<char>>, frame: Seq<(Seq<char>, bool)>)
    requires
        distinct_names(frame),
    ensures
        spec_frame(pressed, frame).1.len() == frame.len(),
        forall|i: int|
            0 <= i < frame.len() ==> (#[trigger] spec_frame(pressed, frame).0.contains(
                frame[i].0,
            ) == frame[i].1),
        forall|i: int|
            0 <= i < frame.len() ==> ((#[trigger] spec_frame(pressed, frame).1[i] is Some) == (
            frame[i].1 && !pressed.contains(frame[i].0))),
        forall|name: Seq<char>|
            (forall|i: int| 0 <= i < frame.len() ==> #[trigger] frame[i].0 != name) ==> (
            #[trigger] spec_frame(pressed, frame).0.contains(name) == pressed.contains(name)),
    decreases frame.len(),
{
    if frame.len() > 0 {
        let prefix = frame.drop_last();
        let last = frame.last();
        assert(distinct_names(prefix)) by {
            assert forall|i: int, j: int| 0 <= i < j < prefix.len() implies #[trigger] prefix[i].0
                != #[trigger] prefix[j].0 by {
                assert(prefix[i] == frame[i] && prefix[j] == frame[j]);
            }
        }
        lemma_frame_tracks_input(pressed, prefix);
        let (before, presses) = spec_frame(pressed, prefix);
        assert forall|i: int| 0 <= i < prefix.len() implies #[trigger] prefix[i].0 != last.0 by {
            assert(prefix[i] == frame[i]);
            assert(frame[i].0 != frame[frame.len() - 1].0);
        }
        assert(before.contains(last.0) == pressed.contains(last.0));
        assert forall|i: int| 0 <= i < frame.len() implies (#[trigger] spec_frame(
            pressed,
            frame,
        ).0.contains(frame[i].0) == frame[i].1) by {
            if i < frame.len() - 1 {
                assert(prefix[i] == frame[i]);
            }
        }
        assert forall|i: int| 0 <= i < frame.len() implies ((#[trigger] spec_frame(
            pressed,
            frame,
        ).1[i] is Some) == (frame[i].1 && !pressed.contains(frame[i].0))) by {
            if i < frame.len() - 1 {
                assert(prefix[i] == frame[i]);
                assert(spec_frame(pressed, frame).1[i] == presses[i]);
            }
        }
        assert forall|name: Seq<char>|
            (forall|i: int| 0 <= i < frame.len() ==> #[trigger] frame[i].0 != name) implies (
            #[trigger] spec_frame(pressed, frame).0.contains(name) == pressed.contains(name)) by {
            assert forall|i: int| 0 <= i < prefix.len() implies #[trigger] prefix[i].0 != name by {
                assert(prefix[i] == frame[i]);
            }
            assert(frame[frame.len() - 1].0 != name);
        }
    }
}

/// One update of an input action: the actions held down afterwards, and
/// the press reported, if the action has just gone down.
pub open spec fn spec_input_update(pressed: Set<Seq<char>>, action: Seq<char>, is_down: bool) -> (
    Set<Seq<char>>,
    Option<PressedAction>,
) {
    (
        if is_down {
            pressed.insert(action)
        } else {
            pressed.remove(action)
        },
        if is_down && !pressed.contains(action) {
            Some(spec_classify(action))
        } else {
            None
        },
    )
}

/// A press is reported once: an action still held down at the next update
/// is not reported again.
pub proof fn lemma_press_reported_once(pressed: Set<Seq<char>>, action: Seq<char>)
    ensures
        ({
            let (held, _) = spec_input_update(pressed, action, true);
            spec_input_update(held, action, true).1 is None
        }),
{
}

/// Releasing an action re-arms it: its next press is reported.
pub proof fn lemma_release_rearms(pressed: Set<Seq<char>>, action: Seq<char>)
    ensures
        ({
            let (released, _) = spec_input_update(pressed, action, false);
            spec_input_update(released, action, true).1 == Some(spec_classify(action))
        }),
{
}

/// Other actions are not touched by an update.
pub proof fn lemma_update_is_local(
    pressed: Set<Seq<char>>,
    action: Seq<char>,
    other: Seq<char>,
    is_down: bool,
)
    requires
        other != action,
    ensures
        spec_input_update(pressed, action, is_down).0.contains(other) == pressed.contains(other),
{
}

/// The names the game reads: the two clicks and the two camera axes;
/// every other name is unhandled.
pub proof fn lemma_input_names(name: Seq<char>)
    ensures
        spec_classify("left_click"@) == PressedAction::LeftClick,
        spec_classify("right_click"@) == PressedAction::RightClick,
        name != "left_click"@ && name != "right_click"@ ==> spec_classify(name)
            == PressedAction::Unhandled,
        spec_camera_axis("camera_x"@) == Some(CameraAxis::Horizontal),
        spec_camera_axis("camera_y"@) == Some(CameraAxis::VerticalInverted),
        name != "camera_x"@ && name != "camera_y"@ ==> spec_camera_axis(name) is None,
{
    reveal_strlit("left_click");
    reveal_strlit("right_click");
    reveal_strlit("camera_x");
    reveal_strlit("camera_y");
    assert("left_click"@[0] != "right_click"@[0]);
    assert("camera_x"@[7] != "camera_y"@[7]);
}

/// One update of an action, in terms of its inputs: afterwards the action
/// is held exactly when it is down; a press is reported exactly when it is
/// down and was not held, and then it is the action's reading.
pub proof fn lemma_input_update_cases(pressed: Set<Seq<char>>, action: Seq<char>, is_down: bool)
    ensures
        spec_input_update(pressed, action, is_down).0.contains(action) == is_down,
        (spec_input_update(pressed, action, is_down).1 is Some) == (is_down && !pressed.contains(
            action,
        )),
        spec_input_update(pressed, action, is_down).1 is Some ==> spec_input_update(
            pressed,
            action,
            is_down,
        ).1 == Some(spec_classify(action)),
{
}

} // verus!
