use rand::distributions::Distribution;
use vstd::prelude::*;
use vstd::string::*;

use crate::resources::levels::{LevelResource, LevelResourceView};
use crate::resources::messages::GameMessage;

verus! {

/// The character of a decimal digit.
pub open spec fn digit_char(d: nat) -> char {
    if d == 0 {
        '0'
    } else if d == 1 {
        '1'
    } else if d == 2 {
        '2'
    } else if d == 3 {
        '3'
    } else if d == 4 {
        '4'
    } else if d == 5 {
        '5'
    } else if d == 6 {
        '6'
    } else if d == 7 {
        '7'
    } else if d == 8 {
        '8'
    } else {
        '9'
    }
}

/// The value of a decimal digit character.
pub open spec fn char_value(c: char) -> int {
    if c == '0' {
        0
    } else if c == '1' {
        1
    } else if c == '2' {
        2
    } else if c == '3' {
        3
    } else if c == '4' {
        4
    } else if c == '5' {
        5
    } else if c == '6' {
        6
    } else if c == '7' {
        7
    } else if c == '8' {
        8
    } else {
        9
    }
}

/// The decimal digits of `n`, most significant first, without leading zero.
pub open spec fn digits(n: nat) -> Seq<char>
    decreases n,
{
    if n < 10 {
        seq![digit_char(n)]
    } else {
        digits(n / 10).push(digit_char(n % 10))
    }
}

/// How an integer is written: a minus sign when negative, then its digits.
pub open spec fn decimal(n: int) -> Seq<char> {
    if n < 0 {
        seq!['-'] + digits((-n) as nat)
    } else {
        digits(n as nat)
    }
}

/// The number that a run of decimal digits writes.
pub open spec fn digits_value(s: Seq<char>) -> int
    decreases s.len(),
{
    if s.len() == 0 {
        0
    } else {
        digits_value(s.drop_last()) * 10 + char_value(s.last())
    }
}

/// The number that a written integer stands for.
pub open spec fn parse_decimal(s: Seq<char>) -> int {
    if s.len() > 0 && s[0] == '-' {
        -digits_value(s.drop_first())
    } else {
        digits_value(s)
    }
}

proof fn lemma_digits_value(n: nat)
    ensures
        digits_value(digits(n)) == n,
        digits(n).len() > 0,
        digits(n)[0] != '-',
    decreases n,
{
    let last = digit_char(n % 10);
    assert(char_value(last) == n % 10);
    if n >= 10 {
        lemma_digits_value(n / 10);
        let d = digits(n / 10).push(last);
        assert(d.drop_last() == digits(n / 10));
        assert(d.last() == last);
        assert(d[0] == digits(n / 10)[0]);
        assert(digits_value(d) == (n / 10) * 10 + n % 10);
    } else {
        assert(seq![last].drop_last() == Seq::<char>::empty());
        assert(digits_value(Seq::<char>::empty()) == 0);
        assert(seq![last].last() == last);
        assert(digits_value(seq![last]) == char_value(last));
    }
}

/// Writing an integer in decimal loses nothing: reading it back gives the
/// same integer, so two different numbers are never written alike.
pub proof fn lemma_decimal_roundtrip(n: int)
    ensures
        parse_decimal(decimal(n)) == n,
{
    if n < 0 {
        lemma_digits_value((-n) as nat);
        assert((seq!['-'] + digits((-n) as nat)).drop_first() == digits((-n) as nat));
    } else {
        lemma_digits_value(n as nat);
    }
}

fn digit_str(d: u32) -> (s: &'static str)
    requires
        d < 10,
    ensures
        s@ == seq![digit_char(d as nat)],
{
    proof {
        reveal_strlit("0");
        reveal_strlit("1");
        reveal_strlit("2");
        reveal_strlit("3");
        reveal_strlit("4");
        reveal_strlit("5");
        reveal_strlit("6");
        reveal_strlit("7");
        reveal_strlit("8");
        reveal_strlit("9");
    }
    let s = if d == 0 {
        "0"
    } else if d == 1 {
        "1"
    } else if d == 2 {
        "2"
    } else if d == 3 {
        "3"
    } else if d == 4 {
        "4"
    } else if d == 5 {
        "5"
    } else if d == 6 {
        "6"
    } else if d == 7 {
        "7"
    } else if d == 8 {
        "8"
    } else {
        "9"
    };
    assert(s@ == seq![digit_char(d as nat)]);
    s
}

fn push_digits(text: &mut String, n: u32)
    ensures
        final(text)@ == old(text)@ + digits(n as nat),
    decreases n,
{
    if n >= 10 {
        push_digits(text, n / 10);
    }
    text.append(digit_str(n % 10));
    assert(old(text)@ + digits(n as nat) == old(text)@ + (if n >= 10 {
        digits((n / 10) as nat)
    } else {
        Seq::<char>::empty()
    }) + seq![digit_char((n % 10) as nat)]);
}

/// Writes an integer in decimal.
pub fn format_i32(n: i32) -> (text: String)
    ensures
        text@ == decimal(n as int),
{
    let mut text = String::new();
    if n < 0 {
        proof {
            reveal_strlit("-");
        }
        text.append("-");
        let magnitude: u32 = (0i64 - n as i64) as u32;
        push_digits(&mut text, magnitude);
    } else {
        push_digits(&mut text, n as u32);
    }
    text
}

/// "Passengers: {passengers}/{min_passengers}"
pub open spec fn spec_passengers_text(passengers: int, min_passengers: int) -> Seq<char> {
    "Passengers: "@ + decimal(passengers) + "/"@ + decimal(min_passengers)
}

/// The Rocket's passenger count as the player reads it.
pub fn passengers_text(passengers: i32, min_passengers: i32) -> (text: String)
    ensures
        text@ == spec_passengers_text(passengers as int, min_passengers as int),
{
    let mut text = String::from_str("Passengers: ");
    let count = format_i32(passengers);
    text.append(count.as_str());
    text.append("/");
    let needed = format_i32(min_passengers);
    text.append(needed.as_str());
    text
}

/// What follows the Hum's name in each of the six jokes.
pub open spec fn joke_ending(index: int) -> Seq<char> {
    if index == 0 {
        " went to meet his creator"@
    } else if index == 1 {
        " learned to fly"@
    } else if index == 2 {
        ": SSSPPPAAAAAAACCCEEEEE"@
    } else if index == 3 {
        ": To infinity and beyond!"@
    } else if index == 4 {
        ": Look! Look! I can fly! I can fly!"@
    } else {
        ": Bye, losers!."@
    }
}

/// The joke number `index` about the Hum called `name`; any number past the
/// fifth gives the last joke.
pub fn joke_text(name: &str, index: i32) -> (joke: String)
    ensures
        joke@ == name@ + joke_ending(index as int),
{
    let mut joke = String::from_str(name);
    let ending = if index == 0 {
        " went to meet his creator"
    } else if index == 1 {
        " learned to fly"
    } else if index == 2 {
        ": SSSPPPAAAAAAACCCEEEEE"
    } else if index == 3 {
        ": To infinity and beyond!"
    } else if index == 4 {
        ": Look! Look! I can fly! I can fly!"
    } else {
        ": Bye, losers!."
    };
    joke.append(ending);
    joke
}

/// Draws a number between `low` and `high`, both included.
///
/// Calls `rand::distributions::Uniform::new_inclusive(low, high)` and
/// samples it with `rand::thread_rng()`. The claim: the number drawn lies
/// between the bounds (the sampler adds to its low bound an offset below
/// the range's width); `new_inclusive` panics when `low > high`, which the
/// precondition leaves out. Which number comes out is left open: it is
/// random. Also unsaid: `thread_rng` panics when the system's entropy
/// source fails.
#[verifier::external_body]
fn random_index_inclusive(low: i32, high: i32) -> (index: i32)
    requires
        low <= high,
    ensures
        low <= index <= high,
{
    rand::distributions::Uniform::new_inclusive(low, high).sample(&mut rand::thread_rng())
}

/// How many jokes there are to tell.
pub const JOKE_COUNT: i32 = 6;

/// A random joke about the Hum called `name`.
pub fn new_joke(name: &str) -> (joke: String)
    ensures
        exists|k: int| 0 <= k <= 5 && joke@ == name@ + joke_ending(k),
{
    let index = random_index_inclusive(0, JOKE_COUNT - 1);
    joke_text(name, index)
}

/// Every joke starts with the name of the Hum it is about.
pub proof fn lemma_joke_starts_with_name(name: Seq<char>, index: int)
    ensures
        (name + joke_ending(index)).subrange(0, name.len() as int) == name,
{
    assert((name + joke_ending(index)).subrange(0, name.len() as int) =~= name);
}

/// The new texts of the four text areas (name, comment, Rocket passengers,
/// Rocket health); `None` leaves an area as it is. Writing the name or the
/// comment also restarts its display timer.
#[derive(Debug)]
pub struct TextUpdate {
    pub name: Option<String>,
    pub comment: Option<String>,
    pub passengers: Option<String>,
    pub health: Option<String>,
}

/// The mathematical value of a `TextUpdate`.
pub struct TextUpdateView {
    pub name: Option<Seq<char>>,
    pub comment: Option<Seq<char>>,
    pub passengers: Option<Seq<char>>,
    pub health: Option<Seq<char>>,
}

pub open spec fn text_option_view(text: Option<String>) -> Option<Seq<char>> {
    match text {
        Some(t) => Some(t@),
        None => None,
    }
}

impl View for TextUpdate {
    type V = TextUpdateView;

    open spec fn view(&self) -> TextUpdateView {
        TextUpdateView {
            name: text_option_view(self.name),
            comment: text_option_view(self.comment),
            passengers: text_option_view(self.passengers),
            health: text_option_view(self.health),
        }
    }
}

/// Which messages read the current level's texts.
pub open spec fn reads_level(message: GameMessage) -> bool {
    message is LevelStarted || message is RocketFullEnough
}

/// Whether the texts for this message read the current level.
pub fn message_reads_level(message: &GameMessage) -> (reads: bool)
    ensures
        reads == reads_level(*message),
{
    match message {
        GameMessage::LevelStarted | GameMessage::RocketFullEnough(_, _) => true,
        _ => false,
    }
}

/// The texts shown for a message, with the joke number `joke_index` for a
/// dead Hum.
pub open spec fn spec_message_texts(
    message: GameMessage,
    level: LevelResourceView,
    joke_index: int,
) -> TextUpdateView {
    let nothing = TextUpdateView { name: None, comment: None, passengers: None, health: None };
    match message {
        GameMessage::LevelStarted => TextUpdateView {
            name: Some(level.current_info().name),
            comment: Some(level.current_info().comment),
            passengers: Some("Passengers: 0/?"@),
            health: Some("Health: N/A"@),
        },
        GameMessage::DeadGoodBot => TextUpdateView {
            comment: Some("A nice Hum"@ + joke_ending(joke_index)),
            ..nothing
        },
        GameMessage::DeadBadBot => TextUpdateView {
            comment: Some("A bad Hum"@ + joke_ending(joke_index)),
            ..nothing
        },
        GameMessage::NewBotInRocket(passengers, min_passengers) => TextUpdateView {
            comment: Some("A new Hum joined the Rocket!"@),
            passengers: Some(spec_passengers_text(passengers as int, min_passengers as int)),
            ..nothing
        },
        GameMessage::RocketFullEnough(passengers, min_passengers) => TextUpdateView {
            comment: Some(level.current_info().take_off),
            passengers: Some(spec_passengers_text(passengers as int, min_passengers as int)),
            ..nothing
        },
        GameMessage::RocketDestroyed => TextUpdateView {
            name: Some("The Rocket is dead!"@),
            comment: Some("Press R"@),
            passengers: Some("Passengers: DEAD"@),
            health: Some("Health: KO"@),
        },
        _ => nothing,
    }
}

/// The texts shown for a message, telling the joke number `joke_index`
/// when a Hum died.
pub fn message_texts(message: &GameMessage, level: &LevelResource, joke_index: i32) -> (update:
    TextUpdate)
    requires
        reads_level(*message) ==> level@.has_valid_current(),
    ensures
        update@ == spec_message_texts(*message, level@, joke_index as int),
{
    let nothing = TextUpdate { name: None, comment: None, passengers: None, health: None };
    match message {
        GameMessage::LevelStarted => {
            let index = match level.current_level {
                Some(i) => i,
                None => 0,
            };
            let info = &level.levels[index];
            TextUpdate {
                name: Some(info.name.clone()),
                comment: Some(info.comment.clone()),
                passengers: Some(String::from_str("Passengers: 0/?")),
                health: Some(String::from_str("Health: N/A")),
            }
        },
        GameMessage::DeadGoodBot => TextUpdate {
            comment: Some(joke_text("A nice Hum", joke_index)),
            ..nothing
        },
        GameMessage::DeadBadBot => TextUpdate {
            comment: Some(joke_text("A bad Hum", joke_index)),
            ..nothing
        },
        GameMessage::NewBotInRocket(passengers, min_passengers) => TextUpdate {
            comment: Some(String::from_str("A new Hum joined the Rocket!")),
            passengers: Some(passengers_text(*passengers, *min_passengers)),
            ..nothing
        },
        GameMessage::RocketFullEnough(passengers, min_passengers) => {
            let index = match level.current_level {
                Some(i) => i,
                None => 0,
            };
            TextUpdate {
                comment: Some(level.levels[index].take_off.clone()),
                passengers: Some(passengers_text(*passengers, *min_passengers)),
                ..nothing
            }
        },
        GameMessage::RocketDestroyed => TextUpdate {
            name: Some(String::from_str("The Rocket is dead!")),
            comment: Some(String::from_str("Press R")),
            passengers: Some(String::from_str("Passengers: DEAD")),
            health: Some(String::from_str("Health: KO")),
        },
        _ => nothing,
    }
}

/// The texts shown for a message; the joke told for a dead Hum is drawn at
/// random among the six, and nothing is drawn for other messages.
pub fn texts_for_message(message: &GameMessage, level: &LevelResource) -> (update: TextUpdate)
    requires
        reads_level(*message) ==> level@.has_valid_current(),
    ensures
        exists|k: int| 0 <= k <= 5 && update@ == spec_message_texts(*message, level@, k),
{
    let index = match message {
        GameMessage::DeadGoodBot | GameMessage::DeadBadBot => random_index_inclusive(
            0,
            JOKE_COUNT - 1,
        ),
        _ => 0,
    };
    message_texts(message, level, index)
}

/// The Rocket's passenger texts: both the boarding and the take off show
/// "Passengers: ", the count aboard, "/", then the count needed, in that
/// order; the take off comment is the current level's take off text, a
/// boarding says that a Hum joined, and neither touches the name or the
/// health.
pub proof fn lemma_rocket_texts(
    passengers: i32,
    min_passengers: i32,
    level: LevelResourceView,
    joke_index: int,
)
    ensures
        ({
            let full = spec_message_texts(
                GameMessage::RocketFullEnough(passengers, min_passengers),
                level,
                joke_index,
            );
            let joined = spec_message_texts(
                GameMessage::NewBotInRocket(passengers, min_passengers),
                level,
                joke_index,
            );
            let shown = "Passengers: "@ + decimal(passengers as int) + "/"@ + decimal(
                min_passengers as int,
            );
            &&& full.passengers == Some(shown)
            &&& joined.passengers == Some(shown)
            &&& full.comment == Some(level.levels[level.current_level->0 as int].take_off)
            &&& joined.comment == Some("A new Hum joined the Rocket!"@)
            &&& full.name is None && full.health is None
            &&& joined.name is None && joined.health is None
        }),
{
}

/// The texts of a level start: the current level's name and comment, an
/// unknown passenger count and no health yet.
pub proof fn lemma_level_start_texts(level: LevelResourceView, joke_index: int)
    ensures
        ({
            let start = spec_message_texts(GameMessage::LevelStarted, level, joke_index);
            &&& start.name == Some(level.levels[level.current_level->0 as int].name)
            &&& start.comment == Some(level.levels[level.current_level->0 as int].comment)
            &&& start.passengers == Some("Passengers: 0/?"@)
            &&& start.health == Some("Health: N/A"@)
        }),
{
}

/// A death shows only a comment: the joke number `joke_index` about "A
/// nice Hum" or "A bad Hum", after the camp of the dead Hum.
pub proof fn lemma_death_texts(level: LevelResourceView, joke_index: int)
    ensures
        ({
            let good = spec_message_texts(GameMessage::DeadGoodBot, level, joke_index);
            let bad = spec_message_texts(GameMessage::DeadBadBot, level, joke_index);
            &&& good.comment == Some("A nice Hum"@ + joke_ending(joke_index))
            &&& bad.comment == Some("A bad Hum"@ + joke_ending(joke_index))
            &&& good.name is None && good.passengers is None && good.health is None
            &&& bad.name is None && bad.passengers is None && bad.health is None
        }),
{
}

/// A destroyed Rocket fills every text area: the Rocket is dead, press R,
/// no passengers, no health.
pub proof fn lemma_destroyed_rocket_texts(level: LevelResourceView, joke_index: int)
    ensures
        spec_message_texts(GameMessage::RocketDestroyed, level, joke_index) == (TextUpdateView {
            name: Some("The Rocket is dead!"@),
            comment: Some("Press R"@),
            passengers: Some("Passengers: DEAD"@),
            health: Some("Health: KO"@),
        }),
{
}

/// The level lifecycle messages change no text.
pub proof fn lemma_lifecycle_messages_show_nothing(level: LevelResourceView, joke_index: int)
    ensures
        ({
            let nothing = TextUpdateView {
                name: None,
                comment: None,
                passengers: None,
                health: None,
            };
            &&& spec_message_texts(GameMessage::LevelLoaded, level, joke_index) == nothing
            &&& spec_message_texts(GameMessage::ReloadLevel, level, joke_index) == nothing
            &&& spec_message_texts(GameMessage::ReloadLevels, level, joke_index) == nothing
        }),
{
}

/// The six jokes, by number; every other number tells the last one.
pub proof fn lemma_joke_endings(index: int)
    ensures
        joke_ending(0) == " went to meet his creator"@,
        joke_ending(1) == " learned to fly"@,
        joke_ending(2) == ": SSSPPPAAAAAAACCCEEEEE"@,
        joke_ending(3) == ": To infinity and beyond!"@,
        joke_ending(4) == ": Look! Look! I can fly! I can fly!"@,
        !(0 <= index <= 4) ==> joke_ending(index) == ": Bye, losers!."@,
{
}

/// A one-digit number is written as its digit, and a negative number
/// starts with a minus sign followed by the digits of its magnitude.
pub proof fn lemma_decimal_shape(n: int)
    ensures
        0 <= n < 10 ==> decimal(n) == seq![digit_char(n as nat)],
        n < 0 ==> decimal(n)[0] == '-' && decimal(n).drop_first() == digits((-n) as nat),
        0 <= n ==> decimal(n) == digits(n as nat),
        digit_char(0) == '0' && digit_char(9) == '9',
{
    if n < 0 {
        assert((seq!['-'] + digits((-n) as nat)).drop_first() == digits((-n) as nat));
    }
}

} // verus!
