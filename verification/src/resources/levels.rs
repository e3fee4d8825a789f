use vstd::prelude::*;

verus! {

/// The texts of a level that the game shows to the player.
#[derive(Debug)]
pub struct LevelInfo {
    pub name: String,
    pub comment: String,
    pub take_off: String,
}

/// The mathematical value of a `LevelInfo`.
pub struct LevelInfoView {
    pub name: Seq<char>,
    pub comment: Seq<char>,
    pub take_off: Seq<char>,
}

impl View for LevelInfo {
    type V = LevelInfoView;

    open spec fn view(&self) -> LevelInfoView {
        LevelInfoView { name: self.name@, comment: self.comment@, take_off: self.take_off@ }
    }
}

/// The mathematical values of a list of levels.
pub open spec fn levels_view(levels: Seq<LevelInfo>) -> Seq<LevelInfoView> {
    levels.map_values(|level: LevelInfo| level@)
}

impl Clone for LevelInfo {
    fn clone(&self) -> (info: Self)
        ensures
            info == *self,
    {
        LevelInfo {
            name: self.name.clone(),
            comment: self.comment.clone(),
            take_off: self.take_off.clone(),
        }
    }
}

/// The list of levels, as read from the game configuration.
#[derive(Debug)]
pub struct LevelsConfig {
    pub start_level: usize,
    pub levels: Vec<LevelInfo>,
}

impl LevelsConfig {
    /// The mathematical values of the configured levels.
    pub open spec fn level_views(&self) -> Seq<LevelInfoView> {
        levels_view(self.levels@)
    }
}

impl Default for LevelsConfig {
    fn default() -> (config: Self)
        ensures
            config.start_level == 0,
            config.levels@.len() == 0,
    {
        LevelsConfig { start_level: 0, levels: Vec::new() }
    }
}

/// Where the level lifecycle stands.
#[derive(Debug, Clone, Copy, PartialEq, Eq, Structural)]
pub enum LevelResourceState {
    JustCreated,
    ConfigLoaded,
    Loaded,
    ReloadNeeded,
}

/// Level resource and info.
#[derive(Debug)]
pub struct LevelResource {
    pub state: LevelResourceState,
    pub current_level: Option<usize>,
    pub levels: Vec<LevelInfo>,
    /// Set when the Rocket took off: the next level load moves on.
    pub finished: bool,
}

/// The mathematical value of a `LevelResource`.
pub struct LevelResourceView {
    pub state: LevelResourceState,
    pub current_level: Option<usize>,
    pub levels: Seq<LevelInfoView>,
    pub finished: bool,
}

impl View for LevelResource {
    type V = LevelResourceView;

    open spec fn view(&self) -> LevelResourceView {
        LevelResourceView {
            state: self.state,
            current_level: self.current_level,
            levels: levels_view(self.levels@),
            finished: self.finished,
        }
    }
}

impl LevelResourceView {
    /// A level is selected and it is one of the loaded levels.
    pub open spec fn has_valid_current(self) -> bool {
        &&& self.current_level is Some
        &&& self.current_level->0 < self.levels.len()
    }

    /// The selected level, when `has_valid_current` holds.
    pub open spec fn current_info(self) -> LevelInfoView {
        self.levels[self.current_level->0 as int]
    }
}

impl Default for LevelResource {
    fn default() -> (resource: Self)
        ensures
            resource@.state == LevelResourceState::JustCreated,
            resource@.current_level is None,
            resource@.levels.len() == 0,
            !resource@.finished,
    {
        LevelResource {
            state: LevelResourceState::JustCreated,
            current_level: None,
            levels: Vec::new(),
            finished: false,
        }
    }
}

impl LevelResource {
    /// Whether a level is selected and it is one of the loaded levels.
    pub fn has_valid_current(&self) -> (valid: bool)
        ensures
            valid == self@.has_valid_current(),
    {
        match self.current_level {
            Some(i) => i < self.levels.len(),
            None => false,
        }
    }

    /// The Rocket took off: the next level load moves to the next level.
    pub fn finish_level(&mut self)
        ensures
            final(self)@ == (LevelResourceView { finished: true, ..old(self)@ }),
    {
        self.finished = true;
    }
}

/// Copies a list of levels.
pub fn clone_levels(levels: &Vec<LevelInfo>) -> (copy: Vec<LevelInfo>)
    ensures
        copy@ == levels@,
{
    let mut copy: Vec<LevelInfo> = Vec::new();
    let mut i: usize = 0;
    while i < levels.len()
        invariant
            i <= levels@.len(),
            copy@ == levels@.subrange(0, i as int),
        decreases levels@.len() - i,
    {
        copy.push(levels[i].clone());
        i = i + 1;
    }
    assert(levels@.subrange(0, levels@.len() as int) == levels@);
    copy
}

} // verus!
