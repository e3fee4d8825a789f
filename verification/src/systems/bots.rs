use vstd::prelude::*;

use crate::components::bots::CurrentAction;
use crate::resources::messages::GameMessage;

verus! {

/// A Hum as the fights see it: which entity it is, and its camp.
#[derive(Debug, Clone, Copy, PartialEq, Eq, Structural)]
pub struct Fighter {
    pub entity: u64,
    pub bad: bool,
}

/// `other` is an enemy of `me`: another entity, of the other camp.
pub open spec fn spec_is_enemy(me: Fighter, other: Fighter) -> bool {
    me.entity != other.entity && me.bad != other.bad
}

/// Whether `other` is an enemy of `me`.
pub fn is_enemy(me: &Fighter, other: &Fighter) -> (enemy: bool)
    ensures
        enemy == spec_is_enemy(*me, *other),
{
    me.entity != other.entity && me.bad != other.bad
}

/// Nobody is their own enemy, and enmity goes both ways.
pub proof fn lemma_enemy_irreflexive_symmetric(a: Fighter, b: Fighter)
    ensures
        !spec_is_enemy(a, a),
        spec_is_enemy(a, b) == spec_is_enemy(b, a),
{
}

/// A Hum that the attacker could hit: who it is, and whether it stands
/// within the attacking distance.
#[derive(Debug, Clone, Copy, PartialEq, Eq, Structural)]
pub struct Target {
    pub fighter: Fighter,
    pub within_reach: bool,
}

/// `target` can be hit by `attacker`.
pub open spec fn spec_hittable(attacker: Fighter, target: Target) -> bool {
    spec_is_enemy(attacker, target.fighter) && target.within_reach
}

/// The Hum that an attacking Hum hits: the first enemy within reach, one at
/// a time.
pub fn first_attack_target(attacker: &Fighter, targets: &Vec<Target>) -> (hit: Option<usize>)
    ensures
        match hit {
            Some(i) => {
                &&& i < targets@.len()
                &&& spec_hittable(*attacker, targets@[i as int])
                &&& forall|j: int| 0 <= j < i ==> !spec_hittable(*attacker, #[trigger] targets@[j])
            },
            None => forall|j: int|
                0 <= j < targets@.len() ==> !spec_hittable(*attacker, #[trigger] targets@[j]),
        },
{
    let mut i: usize = 0;
    while i < targets.len()
        invariant
            i <= targets@.len(),
            forall|j: int| 0 <= j < i ==> !spec_hittable(*attacker, #[trigger] targets@[j]),
        decreases targets@.len() - i,
    {
        let target = targets[i];
        if is_enemy(attacker, &target.fighter) && target.within_reach {
            return Some(i);
        }
        i = i + 1;
    }
    None
}

/// An attacking Hum that found nobody to hit becomes passive.
pub fn action_after_fight(action: CurrentAction, hit: Option<usize>) -> (next: CurrentAction)
    ensures
        next == (if action == CurrentAction::Attacking && hit is None {
            CurrentAction::Idle
        } else {
            action
        }),
{
    if action == CurrentAction::Attacking && hit.is_none() {
        CurrentAction::Idle
    } else {
        action
    }
}

/// The nearest enemy that a bad Hum sees.
#[derive(Debug, Clone, Copy, PartialEq, Eq, Structural)]
pub struct Sighting {
    /// The enemy stands within the attacking distance.
    pub within_reach: bool,
    /// The enemy stands to the left.
    pub on_the_left: bool,
}

/// What a bad Hum decides.
#[derive(Debug, Clone, Copy, PartialEq, Eq, Structural)]
pub struct Seek {
    /// Its new action, or `None` to keep the current one.
    pub action: Option<CurrentAction>,
    /// Whether the time of this change of direction must be recorded.
    pub record_change: bool,
}

/// How a bad Hum answers the nearest enemy it sees: attacks when close
/// enough, otherwise walks towards it, but changes direction at most once
/// a second; with no enemy it stops.
pub open spec fn spec_seek(nearest: Option<Sighting>, changed_recently: bool) -> Seek {
    match nearest {
        None => Seek { action: Some(CurrentAction::Idle), record_change: false },
        Some(sighting) => if sighting.within_reach {
            Seek { action: Some(CurrentAction::Attacking), record_change: false }
        } else if changed_recently {
            Seek { action: None, record_change: false }
        } else {
            Seek {
                action: Some(
                    if sighting.on_the_left {
                        CurrentAction::GoingLeft
                    } else {
                        CurrentAction::GoingRight
                    },
                ),
                record_change: true,
            }
        },
    }
}

/// A bad Hum's decision, given the nearest enemy it sees and whether it
/// changed direction less than a second ago.
pub fn seek(nearest: Option<Sighting>, changed_recently: bool) -> (decision: Seek)
    ensures
        decision == spec_seek(nearest, changed_recently),
{
    match nearest {
        None => Seek { action: Some(CurrentAction::Idle), record_change: false },
        Some(sighting) => {
            if sighting.within_reach {
                Seek { action: Some(CurrentAction::Attacking), record_change: false }
            } else if changed_recently {
                Seek { action: None, record_change: false }
            } else {
                let action = if sighting.on_the_left {
                    CurrentAction::GoingLeft
                } else {
                    CurrentAction::GoingRight
                };
                Seek { action: Some(action), record_change: true }
            }
        },
    }
}

/// An enemy within reach is always attacked, however recently the bad Hum
/// changed direction.
pub proof fn lemma_attack_always_possible(sighting: Sighting, changed_recently: bool)
    requires
        sighting.within_reach,
    ensures
        spec_seek(Some(sighting), changed_recently).action == Some(CurrentAction::Attacking),
{
}

/// Two Hums of the same camp never fight; two different Hums of
/// different camps always do.
pub proof fn lemma_enemy_by_camp(a: Fighter, b: Fighter)
    ensures
        a.bad == b.bad ==> !spec_is_enemy(a, b),
        a.entity != b.entity && a.bad != b.bad ==> spec_is_enemy(a, b),
{
}

/// A target can be hit exactly when it is another Hum, of the other camp,
/// standing within reach: a friend, the attacker itself or a far enemy is
/// never hit.
pub proof fn lemma_hittable_targets(attacker: Fighter, target: Target)
    ensures
        spec_hittable(attacker, target) <==> (attacker.entity != target.fighter.entity
            && attacker.bad != target.fighter.bad && target.within_reach),
{
}

/// Every case of a bad Hum's decision, in terms of what it sees:
/// no enemy stops it; an enemy within reach is attacked, whenever the Hum
/// last turned; an enemy out of reach is walked towards (recording the
/// turn) unless the Hum turned less than a second ago, in which case it
/// keeps its action and records nothing, on whichever side the enemy is.
pub proof fn lemma_seek_cases(sighting: Sighting, changed_recently: bool)
    ensures
        spec_seek(None, changed_recently) == (Seek {
            action: Some(CurrentAction::Idle),
            record_change: false,
        }),
        sighting.within_reach ==> spec_seek(Some(sighting), changed_recently) == (Seek {
            action: Some(CurrentAction::Attacking),
            record_change: false,
        }),
        !sighting.within_reach && changed_recently ==> spec_seek(Some(sighting), changed_recently)
            == (Seek { action: None, record_change: false }),
        !sighting.within_reach && !changed_recently && sighting.on_the_left ==> spec_seek(
            Some(sighting),
            changed_recently,
        ) == (Seek { action: Some(CurrentAction::GoingLeft), record_change: true }),
        !sighting.within_reach && !changed_recently && !sighting.on_the_left ==> spec_seek(
            Some(sighting),
            changed_recently,
        ) == (Seek { action: Some(CurrentAction::GoingRight), record_change: true }),
        spec_seek(Some(sighting), changed_recently).record_change <==> (!sighting.within_reach
            && !changed_recently),
{
}

/// A random hop: only a Hum at rest and idle hops, when the coin says so.
pub fn should_hop(at_rest: bool, action: CurrentAction, coin: bool) -> (hop: bool)
    ensures
        hop == (at_rest && action == CurrentAction::Idle && coin),
{
    at_rest && action == CurrentAction::Idle && coin
}

/// The message that announces the death of a Hum of this camp.
pub fn death_message(bad: bool) -> (message: GameMessage)
    ensures
        message == (if bad {
            GameMessage::DeadBadBot
        } else {
            GameMessage::DeadGoodBot
        }),
{
    if bad {
        GameMessage::DeadBadBot
    } else {
        GameMessage::DeadGoodBot
    }
}

/// A mouse button.
#[derive(Debug, Clone, Copy, PartialEq, Eq, Structural)]
pub enum MouseButton {
    Left,
    Right,
}

/// A click on a Hum sends it towards the clicked side: left click to the
/// left, right click to the right.
pub fn click_action(button: MouseButton) -> (action: CurrentAction)
    ensures
        action == (match button {
            MouseButton::Left => CurrentAction::GoingLeft,
            MouseButton::Right => CurrentAction::GoingRight,
        }),
{
    match button {
        MouseButton::Left => CurrentAction::GoingLeft,
        MouseButton::Right => CurrentAction::GoingRight,
    }
}

} // verus!
