use vstd::prelude::*;

use crate::resources::messages::GameMessage;

verus! {

/// Marks a Rocket which took off.
#[derive(Debug, Clone, Copy, PartialEq, Eq, Structural)]
pub struct RocketTakeOff;

/// The passenger count of a Rocket: how many Hums boarded, and how many
/// must board before it takes off.
#[derive(Debug, Clone, Copy, PartialEq, Eq, Structural)]
pub struct RocketCrew {
    pub passengers: i32,
    pub min_passengers: i32,
}

/// What happens when a Hum enters the Rocket.
#[derive(Debug, Clone, Copy, PartialEq, Eq, Structural)]
pub struct Boarding {
    /// Always `NewBotInRocket` with the new count.
    pub joined: GameMessage,
    /// `RocketFullEnough` with the new count when the Rocket may take off.
    pub full_enough: Option<GameMessage>,
}

impl RocketCrew {
    /// Whether enough Hums are aboard for the Rocket to take off.
    pub open spec fn can_take_off(self) -> bool {
        self.passengers >= self.min_passengers
    }

    /// What boarding one more Hum does to the crew and says about it.
    pub open spec fn spec_board(self) -> (RocketCrew, Boarding) {
        let crew = RocketCrew { passengers: (self.passengers + 1) as i32, ..self };
        let boarding = Boarding {
            joined: GameMessage::NewBotInRocket(crew.passengers, crew.min_passengers),
            full_enough: if crew.can_take_off() {
                Some(GameMessage::RocketFullEnough(crew.passengers, crew.min_passengers))
            } else {
                None
            },
        };
        (crew, boarding)
    }

    /// An empty Rocket that needs `min_passengers` Hums to take off.
    pub fn new(min_passengers: i32) -> (crew: RocketCrew)
        ensures
            crew.passengers == 0,
            crew.min_passengers == min_passengers,
    {
        RocketCrew { passengers: 0, min_passengers }
    }

    /// A Hum entered the Rocket: count it, announce it, and announce the
    /// take off when the Rocket is full enough (the caller then marks the
    /// Rocket with `RocketTakeOff`).
    pub fn board(&mut self) -> (boarding: Boarding)
        requires
            old(self).passengers < i32::MAX,
        ensures
            (*final(self), boarding) == old(self).spec_board(),
    {
        self.passengers = self.passengers + 1;
        let joined = GameMessage::NewBotInRocket(self.passengers, self.min_passengers);
        let full_enough = if self.passengers >= self.min_passengers {
            Some(GameMessage::RocketFullEnough(self.passengers, self.min_passengers))
        } else {
            None
        };
        Boarding { joined, full_enough }
    }
}

/// Boarding adds exactly one passenger and keeps what is needed; the take
/// off is announced exactly when the new count reaches what is needed.
pub proof fn lemma_board_counts_one(crew: RocketCrew)
    requires
        crew.passengers < i32::MAX,
    ensures
        crew.spec_board().0.passengers == crew.passengers + 1,
        crew.spec_board().0.min_passengers == crew.min_passengers,
        crew.spec_board().1.full_enough is Some
            <==> crew.passengers + 1 >= crew.min_passengers,
{
}

/// Once a Rocket is full enough, every further boarding announces the take
/// off again: a full Rocket never stops being full.
pub proof fn lemma_full_stays_full(crew: RocketCrew)
    requires
        crew.passengers < i32::MAX - 1,
        crew.spec_board().1.full_enough is Some,
    ensures
        crew.spec_board().0.spec_board().1.full_enough is Some,
{
}

/// What a boarding announces, in terms of the crew before it: the new
/// passenger count (one more than before, whatever the minimum) with the
/// count needed, and the take off exactly when the new count reaches what
/// is needed, with the same two counts.
pub proof fn lemma_board_announces_new_count(crew: RocketCrew)
    requires
        crew.passengers < i32::MAX,
    ensures
        crew.spec_board().1.joined == GameMessage::NewBotInRocket(
            (crew.passengers + 1) as i32,
            crew.min_passengers,
        ),
        crew.spec_board().1.full_enough == (if crew.passengers + 1 >= crew.min_passengers {
            Some(GameMessage::RocketFullEnough((crew.passengers + 1) as i32, crew.min_passengers))
        } else {
            None
        }),
        crew.spec_board().1.joined == GameMessage::NewBotInRocket(
            crew.spec_board().0.passengers,
            crew.spec_board().0.min_passengers,
        ),
{
}

} // verus!
