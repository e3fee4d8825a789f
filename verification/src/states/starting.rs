use vstd::prelude::*;

verus! {

/// How far the loading of the game's assets has come.
#[derive(Debug, Clone, Copy, PartialEq, Eq, Structural)]
pub enum Completion {
    Loading,
    Complete,
    Failed,
}

/// What the starting screen asks for after one update.
#[derive(Debug)]
pub enum StartingStep<P> {
    /// Keep waiting for the assets.
    Wait,
    /// The assets failed to load: leave the game.
    Quit,
    /// Switch to the level loading screen, handing it the game scene.
    SwitchToLevelLoading(P),
}

/// The first screen: waits for the assets, then hands the loaded game scene
/// `P` to the level loading screen.
pub struct StartingState<P> {
    pub load_complete: bool,
    pub game_prefab: Option<P>,
}

impl<P> StartingState<P> {
    /// A starting screen that waits for the assets of `game_prefab`.
    pub fn new(game_prefab: P) -> (state: StartingState<P>)
        ensures
            !state.load_complete,
            state.game_prefab == Some(game_prefab),
    {
        StartingState { load_complete: false, game_prefab: Some(game_prefab) }
    }

    /// One update of the starting screen: once the assets are loaded, the
    /// next update switches to the level loading screen.
    pub fn update(&mut self, progress: Completion) -> (step: StartingStep<P>)
        requires
            old(self).load_complete ==> old(self).game_prefab is Some,
        ensures
            !old(self).load_complete ==> {
                &&& final(self).game_prefab == old(self).game_prefab
                &&& match progress {
                    Completion::Loading => !final(self).load_complete && step is Wait,
                    Completion::Complete => final(self).load_complete && step is Wait,
                    Completion::Failed => !final(self).load_complete && step is Quit,
                }
            },
            old(self).load_complete ==> {
                &&& final(self).load_complete
                &&& final(self).game_prefab is None
                &&& step == StartingStep::SwitchToLevelLoading(old(self).game_prefab->0)
            },
    {
        if !self.load_complete {
            match progress {
                Completion::Loading => {},
                Completion::Complete => {
                    self.load_complete = true;
                },
                Completion::Failed => {
                    return StartingStep::Quit;
                },
            }
            StartingStep::Wait
        } else {
            match self.game_prefab.take() {
                Some(prefab) => StartingStep::SwitchToLevelLoading(prefab),
                None => StartingStep::Wait,
            }
        }
    }
}

} // verus!
