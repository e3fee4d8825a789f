use vstd::prelude::*;

use crate::resources::levels::{
    clone_levels, LevelInfoView, LevelResource, LevelResourceView, LevelsConfig,
};

verus! {

/// Progress of the level loading screen.
#[derive(Debug, Clone, Copy, PartialEq, Eq, Structural)]
pub enum LoadingState {
    NeedToLoadLevels,
    LevelsLoaded,
    NeedToLoadLevel,
    LevelLoaded,
}

/// What the loading screen asks the engine to do after one update.
#[derive(Debug, Clone, Copy, PartialEq, Eq, Structural)]
pub enum LoadingStep {
    /// Nothing to build; stay on the loading screen.
    Wait,
    /// Build the platforms, the Rocket and the Hums of this level, and stay.
    BuildLevel(usize),
    /// Hide the loading text and push the game screen.
    PushGame,
}

/// The loading screen shown between two levels.
#[derive(Debug, Clone, Copy, PartialEq, Eq, Structural)]
pub struct LevelLoader {
    pub loading_state: LoadingState,
}

/// The level that a level load builds: the selected one, or the one after
/// it once the Rocket took off, counted round the list.
pub open spec fn next_level_index(current: int, finished: bool, count: int) -> int {
    (current + if finished { 1int } else { 0int }) % count
}

/// One update of the loading screen: its next state, the resource after
/// it, and what the engine must do.
pub open spec fn spec_loader_update(
    state: LoadingState,
    resource: LevelResourceView,
    start_level: usize,
    levels: Seq<LevelInfoView>,
) -> (LoadingState, LevelResourceView, LoadingStep) {
    match state {
        LoadingState::NeedToLoadLevels => (
            LoadingState::LevelsLoaded,
            LevelResourceView { current_level: Some(start_level), levels: levels, ..resource },
            LoadingStep::Wait,
        ),
        LoadingState::LevelsLoaded => (LoadingState::NeedToLoadLevel, resource, LoadingStep::Wait),
        LoadingState::NeedToLoadLevel => {
            let selected = resource.current_level->0;
            let fixed: usize = if selected >= resource.levels.len() {
                0
            } else {
                selected
            };
            let built = next_level_index(
                fixed as int,
                resource.finished,
                resource.levels.len() as int,
            ) as usize;
            (
                LoadingState::LevelLoaded,
                LevelResourceView { current_level: Some(built), finished: false, ..resource },
                LoadingStep::BuildLevel(built),
            )
        },
        LoadingState::LevelLoaded => (LoadingState::LevelLoaded, resource, LoadingStep::PushGame),
    }
}

/// What an update needs to go through without stopping the game.
pub open spec fn loader_update_allowed(
    state: LoadingState,
    resource: LevelResourceView,
    levels: Seq<LevelInfoView>,
) -> bool {
    &&& state == LoadingState::NeedToLoadLevels ==> levels.len() > 0
    &&& state == LoadingState::NeedToLoadLevel ==> {
        &&& resource.current_level is Some
        &&& resource.levels.len() > 0
    }
}

impl LevelLoader {
    /// A loading screen that starts by reading the level list.
    pub fn new() -> (loader: LevelLoader)
        ensures
            loader.loading_state == LoadingState::NeedToLoadLevels,
    {
        LevelLoader { loading_state: LoadingState::NeedToLoadLevels }
    }

    /// Takes the level list from the configuration and selects its start
    /// level. An empty list is a corrupted configuration.
    pub fn load_levels(&mut self, resource: &mut LevelResource, config: &LevelsConfig)
        requires
            config.levels@.len() > 0,
        ensures
            *final(self) == *old(self),
            final(resource)@ == (LevelResourceView {
                current_level: Some(config.start_level),
                levels: config.level_views(),
                ..old(resource)@
            }),
    {
        resource.current_level = Some(config.start_level);
        resource.levels = clone_levels(&config.levels);
    }

    /// Picks the level to build, selects it, and clears the `finished`
    /// mark: the selected level, or the next one (round the list) once the
    /// Rocket took off. The built level is then the current level, which R
    /// restarts and whose texts are shown.
    pub fn load_level(&mut self, resource: &mut LevelResource) -> (index: usize)
        requires
            old(resource)@.current_level is Some,
            old(resource)@.levels.len() > 0,
        ensures
            *final(self) == *old(self),
            index == next_level_index(
                old(resource)@.current_level->0 as int,
                old(resource)@.finished,
                old(resource)@.levels.len() as int,
            ),
            index < old(resource)@.levels.len(),
            final(resource)@ == (LevelResourceView {
                finished: false,
                current_level: Some(index),
                ..old(resource)@
            }),
    {
        let selected = match resource.current_level {
            Some(i) => i,
            None => 0,
        };
        let count = resource.levels.len();
        let index = if resource.finished {
            if selected < count {
                (selected + 1) % count
            } else {
                (selected % count + 1) % count
            }
        } else {
            selected % count
        };
        proof {
            let c = count as int;
            let s = selected as int;
            if resource.finished && selected >= count {
                vstd::arithmetic::div_mod::lemma_add_mod_noop(s, 1, c);
                vstd::arithmetic::div_mod::lemma_add_mod_noop(s % c, 1, c);
                vstd::arithmetic::div_mod::lemma_mod_twice(s, c);
                assert((s % c + 1) % c == (s + 1) % c);
            }
        }
        resource.finished = false;
        resource.current_level = Some(index);
        index
    }

    /// One update of the loading screen.
    pub fn update(&mut self, resource: &mut LevelResource, config: &LevelsConfig) -> (step:
        LoadingStep)
        requires
            loader_update_allowed(old(self).loading_state, old(resource)@, config.level_views()),
        ensures
            (final(self).loading_state, final(resource)@, step) == spec_loader_update(
                old(self).loading_state,
                old(resource)@,
                config.start_level,
                config.level_views(),
            ),
    {
        match self.loading_state {
            LoadingState::NeedToLoadLevels => {
                self.load_levels(resource, config);
                self.loading_state = LoadingState::LevelsLoaded;
                LoadingStep::Wait
            },
            LoadingState::LevelsLoaded => {
                self.loading_state = LoadingState::NeedToLoadLevel;
                LoadingStep::Wait
            },
            LoadingState::NeedToLoadLevel => {
                let selected = match resource.current_level {
                    Some(i) => i,
                    None => 0,
                };
                if selected >= resource.levels.len() {
                    resource.current_level = Some(0);
                }
                let index = self.load_level(resource);
                self.loading_state = LoadingState::LevelLoaded;
                LoadingStep::BuildLevel(index)
            },
            LoadingState::LevelLoaded => LoadingStep::PushGame,
        }
    }

    /// Back from the game screen: the current level is torn down and the
    /// loader builds a level again. Returns the index of the level the
    /// caller must tear down (after showing the loading text).
    pub fn on_resume(&mut self, resource: &LevelResource) -> (index: usize)
        requires
            resource@.has_valid_current(),
        ensures
            final(self).loading_state == LoadingState::NeedToLoadLevel,
            Some(index) == resource@.current_level,
    {
        self.loading_state = LoadingState::NeedToLoadLevel;
        match resource.current_level {
            Some(i) => i,
            None => 0,
        }
    }
}

/// Every level that the loading screen builds is one of the loaded levels,
/// and afterwards the selected level is one of them too.
pub proof fn lemma_built_level_exists(
    state: LoadingState,
    resource: LevelResourceView,
    start_level: usize,
    levels: Seq<LevelInfoView>,
)
    requires
        loader_update_allowed(state, resource, levels),
    ensures
        ({
            let (next, after, step) = spec_loader_update(state, resource, start_level, levels);
            &&& step matches LoadingStep::BuildLevel(index) ==> index < after.levels.len()
            &&& state == LoadingState::NeedToLoadLevel ==> after.has_valid_current()
        }),
{
    if state == LoadingState::NeedToLoadLevel {
        let selected = resource.current_level->0;
        let fixed: usize = if selected >= resource.levels.len() { 0 } else { selected };
        let c = resource.levels.len() as int;
        let s = fixed as int + if resource.finished { 1int } else { 0int };
        assert(0 <= s % c < c) by (nonlinear_arith)
            requires
                c > 0,
        ;
    }
}

/// From a fresh loading screen and a non-empty level list, the screen
/// waits twice, builds the start level (the first one when the start
/// level is out of the list), then pushes the game.
pub proof fn lemma_fresh_loading(
    resource: LevelResourceView,
    start_level: usize,
    levels: Seq<LevelInfoView>,
)
    requires
        levels.len() > 0,
        !resource.finished,
    ensures
        ({
            let (s1, r1, step1) = spec_loader_update(
                LoadingState::NeedToLoadLevels,
                resource,
                start_level,
                levels,
            );
            let (s2, r2, step2) = spec_loader_update(s1, r1, start_level, levels);
            let (s3, r3, step3) = spec_loader_update(s2, r2, start_level, levels);
            let (s4, r4, step4) = spec_loader_update(s3, r3, start_level, levels);
            &&& step1 == LoadingStep::Wait
            &&& step2 == LoadingStep::Wait
            &&& loader_update_allowed(s3, r2, levels)
            &&& step3 == LoadingStep::BuildLevel(
                if start_level < levels.len() {
                    start_level
                } else {
                    0
                },
            )
            &&& step4 == LoadingStep::PushGame
            &&& r4.has_valid_current()
        }),
{
    let fixed: usize = if start_level < levels.len() { start_level } else { 0 };
    let c = levels.len() as int;
    assert((fixed as int + 0) % c == fixed as int) by {
        vstd::arithmetic::div_mod::lemma_small_mod(fixed as nat, c as nat);
    }
}

/// After the Rocket took off, coming back from the game builds the next
/// level of the list (the first one after the last), and clears the mark.
pub proof fn lemma_next_level_after_take_off(resource: LevelResourceView, start_level: usize)
    requires
        resource.has_valid_current(),
        resource.finished,
    ensures
        ({
            let (s, after, step) = spec_loader_update(
                LoadingState::NeedToLoadLevel,
                resource,
                start_level,
                resource.levels,
            );
            let i = resource.current_level->0 as int;
            &&& step == LoadingStep::BuildLevel(
                (if i + 1 == resource.levels.len() {
                    0
                } else {
                    i + 1
                }) as usize,
            )
            &&& !after.finished
            &&& after.current_level == Some(
                (if i + 1 == resource.levels.len() {
                    0
                } else {
                    i + 1
                }) as usize,
            )
        }),
{
    let i = resource.current_level->0 as int;
    let c = resource.levels.len() as int;
    if i + 1 == c {
        vstd::arithmetic::div_mod::lemma_mod_self_0(c);
    } else {
        vstd::arithmetic::div_mod::lemma_small_mod((i + 1) as nat, c as nat);
    }
}

/// Without a take off, coming back from the game (the player pressed R)
/// builds the same level again, and it stays selected.
pub proof fn lemma_restart_rebuilds_same_level(resource: LevelResourceView, start_level: usize)
    requires
        resource.has_valid_current(),
        !resource.finished,
    ensures
        ({
            let (s, after, step) = spec_loader_update(
                LoadingState::NeedToLoadLevel,
                resource,
                start_level,
                resource.levels,
            );
            &&& step == LoadingStep::BuildLevel(resource.current_level->0)
            &&& after.current_level == resource.current_level
        }),
{
    let i = resource.current_level->0 as int;
    vstd::arithmetic::div_mod::lemma_small_mod(i as nat, resource.levels.len() as nat);
}

/// R restarts the level being played: whatever level a load built (the
/// selected one, or the next one after a take off), the following restart
/// builds that same level again.
pub proof fn lemma_restart_restarts_level_played(resource: LevelResourceView, start_level: usize)
    requires
        resource.has_valid_current(),
    ensures
        ({
            let (s1, played, step1) = spec_loader_update(
                LoadingState::NeedToLoadLevel,
                resource,
                start_level,
                resource.levels,
            );
            let (s2, restarted, step2) = spec_loader_update(
                LoadingState::NeedToLoadLevel,
                played,
                start_level,
                played.levels,
            );
            &&& step1 matches LoadingStep::BuildLevel(j)
            &&& played.current_level == Some(step1->BuildLevel_0)
            &&& step2 == step1
            &&& restarted.current_level == played.current_level
        }),
{
    lemma_built_level_exists(LoadingState::NeedToLoadLevel, resource, start_level, resource.levels);
    let (s1, played, step1) = spec_loader_update(
        LoadingState::NeedToLoadLevel,
        resource,
        start_level,
        resource.levels,
    );
    lemma_restart_rebuilds_same_level(played, start_level);
}

/// The level a load builds, for a selected level among `count`: the same
/// level without a take off, the next one after a take off, and the first
/// one after the last.
pub proof fn lemma_next_level_index(current: int, count: int)
    requires
        0 <= current < count,
    ensures
        next_level_index(current, false, count) == current,
        next_level_index(current, true, count) == if current + 1 == count {
            0
        } else {
            current + 1
        },
{
    vstd::arithmetic::div_mod::lemma_small_mod(current as nat, count as nat);
    if current + 1 == count {
        vstd::arithmetic::div_mod::lemma_mod_self_0(count);
    } else {
        vstd::arithmetic::div_mod::lemma_small_mod((current + 1) as nat, count as nat);
    }
}

/// Every update of the loading screen, in terms of its inputs: reading
/// the level list selects the start level and waits; the next update only
/// moves on and waits; building selects the level it builds (the selected
/// one, or the first when the selection is out of the list, moved on by
/// one after a take off) and clears the mark; pushing the game leaves the
/// resource exactly as it is, so the level pushed is the level built.
pub proof fn lemma_loader_update_cases(
    resource: LevelResourceView,
    start_level: usize,
    levels: Seq<LevelInfoView>,
)
    ensures
        spec_loader_update(LoadingState::NeedToLoadLevels, resource, start_level, levels) == (
            LoadingState::LevelsLoaded,
            LevelResourceView {
                state: resource.state,
                current_level: Some(start_level),
                levels: levels,
                finished: resource.finished,
            },
            LoadingStep::Wait,
        ),
        spec_loader_update(LoadingState::LevelsLoaded, resource, start_level, levels) == (
            LoadingState::NeedToLoadLevel,
            resource,
            LoadingStep::Wait,
        ),
        spec_loader_update(LoadingState::LevelLoaded, resource, start_level, levels) == (
            LoadingState::LevelLoaded,
            resource,
            LoadingStep::PushGame,
        ),
        resource.current_level is Some && resource.levels.len() > 0 ==> ({
            let (next, after, step) = spec_loader_update(
                LoadingState::NeedToLoadLevel,
                resource,
                start_level,
                levels,
            );
            let n = resource.levels.len() as int;
            let selected = resource.current_level->0 as int;
            let fixed = if selected < n {
                selected
            } else {
                0
            };
            let built = if !resource.finished {
                fixed
            } else if fixed + 1 == n {
                0
            } else {
                fixed + 1
            };
            &&& next == LoadingState::LevelLoaded
            &&& step == LoadingStep::BuildLevel(built as usize)
            &&& 0 <= built < n
            &&& after == LevelResourceView {
                state: resource.state,
                current_level: Some(built as usize),
                levels: resource.levels,
                finished: false,
            }
        }),
{
    if resource.current_level is Some && resource.levels.len() > 0 {
        let n = resource.levels.len() as int;
        let selected = resource.current_level->0 as int;
        let fixed = if selected < n { selected } else { 0 };
        lemma_next_level_index(fixed, n);
    }
}

/// After a level is built, pushing the game keeps it selected: the level
/// whose texts are shown, which R restarts and a take off moves on from,
/// is the level on screen.
pub proof fn lemma_pushed_level_is_built_level(resource: LevelResourceView, start_level: usize)
    requires
        resource.current_level is Some,
        resource.levels.len() > 0,
    ensures
        ({
            let (s1, built, step1) = spec_loader_update(
                LoadingState::NeedToLoadLevel,
                resource,
                start_level,
                resource.levels,
            );
            let (s2, pushed, step2) = spec_loader_update(s1, built, start_level, resource.levels);
            &&& step1 matches LoadingStep::BuildLevel(j)
            &&& step2 == LoadingStep::PushGame
            &&& pushed.current_level == Some(step1->BuildLevel_0)
            &&& pushed == built
        }),
{
    lemma_loader_update_cases(resource, start_level, resource.levels);
    let (s1, built, step1) = spec_loader_update(
        LoadingState::NeedToLoadLevel,
        resource,
        start_level,
        resource.levels,
    );
    lemma_loader_update_cases(built, start_level, resource.levels);
}

} // verus!
