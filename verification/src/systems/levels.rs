use vstd::prelude::*;

use crate::resources::levels::{
    clone_levels, LevelInfoView, LevelResource, LevelResourceState, LevelResourceView, LevelsConfig,
};
use crate::resources::messages::GameMessage;

verus! {

/// What the level manager asks the engine to do, in order.
#[derive(Debug, Clone, Copy, PartialEq, Eq, Structural)]
pub enum LevelOrder {
    /// Run `load_levels` on the world.
    LoadLevels,
    /// Run `load_level` on the world.
    LoadLevel,
    /// Write this message to the message channel.
    Send(GameMessage),
    /// Run `unload_level` then `load_levels` on the world.
    ReloadLevels,
    /// Run `restart_level` on the world.
    RestartLevel,
}

/// Drives the level lifecycle from the level resource's state.
#[derive(Debug, Clone, Copy, PartialEq, Eq, Structural)]
pub struct LevelManager {
    /// A level load was ordered and `LevelLoaded` was not sent yet.
    pub level_just_loaded: bool,
}

/// The orders that one message read in the `Loaded` state gives.
pub open spec fn message_order(message: GameMessage) -> Seq<LevelOrder> {
    match message {
        GameMessage::ReloadLevels => seq![LevelOrder::ReloadLevels],
        GameMessage::ReloadLevel => seq![LevelOrder::RestartLevel],
        _ => seq![],
    }
}

/// The orders that a run of messages gives, in the messages' order.
pub open spec fn message_orders(messages: Seq<GameMessage>) -> Seq<LevelOrder>
    decreases messages.len(),
{
    if messages.len() == 0 {
        seq![]
    } else {
        message_orders(messages.drop_last()) + message_order(messages.last())
    }
}

/// What one run of the level manager orders, and whether a load is then
/// waiting to be announced.
pub open spec fn spec_manager_run(
    just_loaded: bool,
    state: LevelResourceState,
    messages: Seq<GameMessage>,
) -> (bool, Seq<LevelOrder>) {
    match state {
        LevelResourceState::JustCreated => (just_loaded, seq![LevelOrder::LoadLevels]),
        LevelResourceState::ConfigLoaded | LevelResourceState::ReloadNeeded => (
            true,
            seq![LevelOrder::LoadLevel],
        ),
        LevelResourceState::Loaded => (
            false,
            (if just_loaded {
                seq![LevelOrder::Send(GameMessage::LevelLoaded)]
            } else {
                seq![]
            }) + message_orders(messages),
        ),
    }
}

impl LevelManager {
    pub fn new() -> (manager: LevelManager)
        ensures
            !manager.level_just_loaded,
    {
        LevelManager { level_just_loaded: false }
    }

    /// Whether a run in this state reads the message channel: messages
    /// written meanwhile wait in the channel until the level is loaded.
    pub fn reads_messages(state: LevelResourceState) -> (reads: bool)
        ensures
            reads == (state == LevelResourceState::Loaded),
    {
        state == LevelResourceState::Loaded
    }

    /// One run of the level manager. `messages` are those read from the
    /// channel, which is read only when `reads_messages(state)` holds.
    pub fn run(&mut self, state: LevelResourceState, messages: &Vec<GameMessage>) -> (orders: Vec<
        LevelOrder,
    >)
        ensures
            (final(self).level_just_loaded, orders@) == spec_manager_run(
                old(self).level_just_loaded,
                state,
                messages@,
            ),
    {
        let mut orders: Vec<LevelOrder> = Vec::new();
        match state {
            LevelResourceState::JustCreated => {
                orders.push(LevelOrder::LoadLevels);
            },
            LevelResourceState::ConfigLoaded | LevelResourceState::ReloadNeeded => {
                orders.push(LevelOrder::LoadLevel);
                self.level_just_loaded = true;
            },
            LevelResourceState::Loaded => {
                if self.level_just_loaded {
                    orders.push(LevelOrder::Send(GameMessage::LevelLoaded));
                    self.level_just_loaded = false;
                }
                let ghost announced = orders@;
                let mut i: usize = 0;
                while i < messages.len()
                    invariant
                        i <= messages@.len(),
                        orders@ == announced + message_orders(messages@.subrange(0, i as int)),
                    decreases messages@.len() - i,
                {
                    assert(messages@.subrange(0, i + 1).drop_last() == messages@.subrange(
                        0,
                        i as int,
                    ));
                    match messages[i] {
                        GameMessage::ReloadLevels => orders.push(LevelOrder::ReloadLevels),
                        GameMessage::ReloadLevel => orders.push(LevelOrder::RestartLevel),
                        _ => {},
                    }
                    i = i + 1;
                }
                assert(messages@.subrange(0, messages@.len() as int) == messages@);
            },
        }
        orders
    }
}

/// The resource once the level list is taken from the configuration.
pub open spec fn spec_load_levels(
    resource: LevelResourceView,
    levels: Seq<LevelInfoView>,
) -> LevelResourceView {
    LevelResourceView {
        state: LevelResourceState::ConfigLoaded,
        current_level: Some(0),
        levels: levels,
        ..resource
    }
}

/// The resource once the current level is built.
pub open spec fn spec_load_level(resource: LevelResourceView) -> LevelResourceView {
    LevelResourceView { state: LevelResourceState::Loaded, ..resource }
}

/// The resource once the current level is torn down; only a loaded level
/// can be.
pub open spec fn spec_unload_level(resource: LevelResourceView) -> LevelResourceView {
    if resource.state == LevelResourceState::Loaded {
        LevelResourceView { state: LevelResourceState::ReloadNeeded, ..resource }
    } else {
        resource
    }
}

/// Takes the level list from the configuration. The game has a single
/// level: a configuration with another count, or another start level, is
/// corrupted (the caller stops the game on it).
pub fn load_levels(resource: &mut LevelResource, config: &LevelsConfig)
    requires
        config.levels@.len() == 1,
        config.start_level == 0,
    ensures
        final(resource)@ == spec_load_levels(old(resource)@, config.level_views()),
{
    resource.current_level = Some(0);
    resource.levels = clone_levels(&config.levels);
    resource.state = LevelResourceState::ConfigLoaded;
}

/// Marks the current level built, and returns its index: the caller
/// builds the platforms and Hums of that level.
pub fn load_level(resource: &mut LevelResource) -> (index: usize)
    requires
        old(resource)@.has_valid_current(),
    ensures
        Some(index) == old(resource)@.current_level,
        final(resource)@ == spec_load_level(old(resource)@),
{
    let index = match resource.current_level {
        Some(i) => i,
        None => 0,
    };
    resource.state = LevelResourceState::Loaded;
    index
}

/// Tears the current level down when one is loaded, and returns its
/// index: the caller deletes the Hums and the platforms. With no level
/// loaded nothing changes and `None` comes back.
pub fn unload_level(resource: &mut LevelResource) -> (index: Option<usize>)
    requires
        old(resource)@.state == LevelResourceState::Loaded ==> old(
            resource,
        )@.has_valid_current(),
    ensures
        final(resource)@ == spec_unload_level(old(resource)@),
        index == (if old(resource)@.state == LevelResourceState::Loaded {
            old(resource)@.current_level
        } else {
            None
        }),
{
    if resource.state != LevelResourceState::Loaded {
        return None;
    }
    let index = resource.current_level;
    resource.state = LevelResourceState::ReloadNeeded;
    index
}

/// Restarts the current level: it is torn down, and the manager builds it
/// again on its next run.
pub fn restart_level(resource: &mut LevelResource) -> (index: Option<usize>)
    requires
        old(resource)@.state == LevelResourceState::Loaded ==> old(
            resource,
        )@.has_valid_current(),
    ensures
        final(resource)@ == spec_unload_level(old(resource)@),
        index == (if old(resource)@.state == LevelResourceState::Loaded {
            old(resource)@.current_level
        } else {
            None
        }),
{
    unload_level(resource)
}

/// Restarting a loaded level and building it again gives back the same
/// resource: the same level, loaded.
pub proof fn lemma_restart_then_load_restores(resource: LevelResourceView)
    requires
        resource.state == LevelResourceState::Loaded,
    ensures
        spec_load_level(spec_unload_level(resource)) == resource,
{
}

/// Tearing down when no level is loaded changes nothing, so a second
/// restart in a row is harmless.
pub proof fn lemma_unload_twice(resource: LevelResourceView)
    ensures
        spec_unload_level(spec_unload_level(resource)) == spec_unload_level(resource),
{
}

/// The level lifecycle from a fresh resource: the manager orders the level
/// list, then the level, then announces it once; the resource ends loaded
/// with its level selected.
pub proof fn lemma_manager_lifecycle(
    resource: LevelResourceView,
    levels: Seq<LevelInfoView>,
    messages: Seq<GameMessage>,
)
    requires
        resource.state == LevelResourceState::JustCreated,
        levels.len() == 1,
    ensures
        spec_manager_run(false, resource.state, messages) == (false, seq![LevelOrder::LoadLevels]),
        ({
            let configured = spec_load_levels(resource, levels);
            &&& configured.has_valid_current()
            &&& spec_manager_run(false, configured.state, messages) == (
                true,
                seq![LevelOrder::LoadLevel],
            )
            &&& spec_load_level(configured).state == LevelResourceState::Loaded
            &&& spec_load_level(configured).has_valid_current()
        }),
        spec_manager_run(true, LevelResourceState::Loaded, seq![]) == (
            false,
            seq![LevelOrder::Send(GameMessage::LevelLoaded)],
        ),
{
    assert(message_orders(seq![]) == Seq::<LevelOrder>::empty());
    assert(seq![LevelOrder::Send(GameMessage::LevelLoaded)] + Seq::<LevelOrder>::empty()
        == seq![LevelOrder::Send(GameMessage::LevelLoaded)]);
}

/// `LevelLoaded` is announced once per load: after a run in the `Loaded`
/// state, the next run in that state announces nothing.
pub proof fn lemma_loaded_announced_once(just_loaded: bool, first: Seq<GameMessage>, second: Seq<GameMessage>)
    ensures
        ({
            let (after, _) = spec_manager_run(just_loaded, LevelResourceState::Loaded, first);
            spec_manager_run(after, LevelResourceState::Loaded, second).1 == message_orders(second)
        }),
{
    assert(Seq::<LevelOrder>::empty() + message_orders(second) == message_orders(second));
}

/// The orders of one run outside the `Loaded` state: a fresh resource asks
/// for the level list, a configured or torn down one for the level (and a
/// load then waits to be announced); no message is read.
pub proof fn lemma_manager_orders_outside_loaded(just_loaded: bool, messages: Seq<GameMessage>)
    ensures
        spec_manager_run(just_loaded, LevelResourceState::JustCreated, messages) == (
            just_loaded,
            seq![LevelOrder::LoadLevels],
        ),
        spec_manager_run(just_loaded, LevelResourceState::ConfigLoaded, messages) == (
            true,
            seq![LevelOrder::LoadLevel],
        ),
        spec_manager_run(just_loaded, LevelResourceState::ReloadNeeded, messages) == (
            true,
            seq![LevelOrder::LoadLevel],
        ),
{
}

/// In the `Loaded` state with no message, the only order is the pending
/// announcement of the load, if any; afterwards nothing is pending.
pub proof fn lemma_manager_loaded_without_messages(just_loaded: bool)
    ensures
        spec_manager_run(just_loaded, LevelResourceState::Loaded, seq![]) == (
            false,
            if just_loaded {
                seq![LevelOrder::Send(GameMessage::LevelLoaded)]
            } else {
                seq![]
            },
        ),
{
    assert(message_orders(seq![]) == Seq::<LevelOrder>::empty());
    assert(seq![LevelOrder::Send(GameMessage::LevelLoaded)] + Seq::<LevelOrder>::empty()
        == seq![LevelOrder::Send(GameMessage::LevelLoaded)]);
    assert(Seq::<LevelOrder>::empty() + Seq::<LevelOrder>::empty() == Seq::<LevelOrder>::empty());
}

/// In the `Loaded` state, one more message read adds, after the orders of
/// the others: one `ReloadLevels` for `ReloadLevels`, one `RestartLevel`
/// for `ReloadLevel`, and nothing for any other message (a destroyed
/// Rocket waits for the player's R, deaths and boardings change nothing).
pub proof fn lemma_manager_one_more_message(
    just_loaded: bool,
    messages: Seq<GameMessage>,
    message: GameMessage,
)
    ensures
        spec_manager_run(just_loaded, LevelResourceState::Loaded, messages.push(message)).0
            == false,
        spec_manager_run(just_loaded, LevelResourceState::Loaded, messages.push(message)).1 == (
        if message == GameMessage::ReloadLevels {
            spec_manager_run(just_loaded, LevelResourceState::Loaded, messages).1.push(
                LevelOrder::ReloadLevels,
            )
        } else if message == GameMessage::ReloadLevel {
            spec_manager_run(just_loaded, LevelResourceState::Loaded, messages).1.push(
                LevelOrder::RestartLevel,
            )
        } else {
            spec_manager_run(just_loaded, LevelResourceState::Loaded, messages).1
        }),
{
    assert(messages.push(message).drop_last() == messages);
    assert(messages.push(message).last() == message);
    let head: Seq<LevelOrder> = if just_loaded {
        seq![LevelOrder::Send(GameMessage::LevelLoaded)]
    } else {
        seq![]
    };
    let before = message_orders(messages);
    let added = message_order(message);
    assert(head + (before + added) == (head + before) + added);
    if message == GameMessage::ReloadLevels {
        assert((head + before) + seq![LevelOrder::ReloadLevels] == (head + before).push(
            LevelOrder::ReloadLevels,
        ));
    } else if message == GameMessage::ReloadLevel {
        assert((head + before) + seq![LevelOrder::RestartLevel] == (head + before).push(
            LevelOrder::RestartLevel,
        ));
    } else {
        assert((head + before) + Seq::<LevelOrder>::empty() == head + before);
    }
}

/// Messages that are not reload requests give no order at all, however
/// many are read.
pub proof fn lemma_other_messages_give_no_order(messages: Seq<GameMessage>)
    requires
        forall|i: int|
            0 <= i < messages.len() ==> #[trigger] messages[i] != GameMessage::ReloadLevels
                && messages[i] != GameMessage::ReloadLevel,
    ensures
        spec_manager_run(false, LevelResourceState::Loaded, messages).1 == Seq::<LevelOrder>::empty(),
    decreases messages.len(),
{
    if messages.len() == 0 {
        lemma_manager_loaded_without_messages(false);
    } else {
        let rest = messages.drop_last();
        assert forall|i: int|
            0 <= i < rest.len() implies #[trigger] rest[i] != GameMessage::ReloadLevels
            && rest[i] != GameMessage::ReloadLevel by {
            assert(rest[i] == messages[i]);
        }
        lemma_other_messages_give_no_order(rest);
        assert(rest.push(messages.last()) == messages);
        assert(messages.last() == messages[messages.len() - 1]);
        lemma_manager_one_more_message(false, rest, messages.last());
    }
}

/// The level operations, field by field: taking the level list selects
/// the first level and marks the configuration loaded; building the level
/// only marks it loaded; tearing down a loaded level only marks that a
/// reload is needed, and changes nothing when no level is loaded. None of
/// them touches the `finished` mark.
pub proof fn lemma_level_operations(resource: LevelResourceView, levels: Seq<LevelInfoView>)
    ensures
        spec_load_levels(resource, levels).state == LevelResourceState::ConfigLoaded,
        spec_load_levels(resource, levels).current_level == Some(0usize),
        spec_load_levels(resource, levels).levels == levels,
        spec_load_levels(resource, levels).finished == resource.finished,
        spec_load_level(resource).state == LevelResourceState::Loaded,
        spec_load_level(resource).current_level == resource.current_level,
        spec_load_level(resource).levels == resource.levels,
        spec_load_level(resource).finished == resource.finished,
        resource.state == LevelResourceState::Loaded ==> {
            &&& spec_unload_level(resource).state == LevelResourceState::ReloadNeeded
            &&& spec_unload_level(resource).current_level == resource.current_level
            &&& spec_unload_level(resource).levels == resource.levels
            &&& spec_unload_level(resource).finished == resource.finished
        },
        resource.state != LevelResourceState::Loaded ==> spec_unload_level(resource) == resource,
{
}

} // verus!
