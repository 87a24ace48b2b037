use vstd::prelude::*;

verus! {

/// The phase of the game day.
#[derive(Clone, Copy, PartialEq, Eq, Structural, Debug, Hash)]
pub enum DayCycleState {
    Day,
    Night,
    Opening,
    Bankrupt,
}

impl Default for DayCycleState {
    fn default() -> (s: Self)
        ensures
            s == DayCycleState::Night,
    {
        DayCycleState::Night
    }
}

/// How many days have passed (the length of a day is kept by the
/// application's timer).
pub struct DayTimer {
    pub day_count: i32,
}

impl DayTimer {
    /// A new night begins: one more day has passed.
    pub fn count_night(&mut self)
        requires
            old(self).day_count < i32::MAX,
        ensures
            final(self).day_count == old(self).day_count + 1,
    {
        self.day_count = self.day_count + 1;
    }
}

/// The change of phase that the day timer causes: none at night; night
/// once the day's timer has just run out.  The application ticks the timer
/// only when it is not night.
pub fn day_timer_system(state: DayCycleState, timer_just_finished: bool) -> (next: Option<DayCycleState>)
    ensures
        next == if state != DayCycleState::Night && timer_just_finished {
            Some(DayCycleState::Night)
        } else {
            None::<DayCycleState>
        },
{
    if state == DayCycleState::Night {
        return None;
    }
    if timer_just_finished {
        Some(DayCycleState::Night)
    } else {
        None
    }
}

/// The lines told when the game opens, and the one being shown.
pub struct OpeningDialogue {
    pub text: Vec<String>,
    pub index: usize,
}

/// The lines told when the player goes bankrupt, and the one being shown.
pub struct BankruptDialogue {
    pub text: Vec<String>,
    pub index: usize,
}

/// The text of a dialogue line.
pub struct DialogueProps {
    pub dialogue: String,
}

pub open spec fn opening_lines() -> Seq<Seq<char>> {
    seq![
        "Congratulations. You have inherited a factory from your late grandfather as well as a small amount of cash."@,
        "Unfortunately the factory has been abandoned for a while. There doesnt seem to be any equipment left."@,
        "Luckily you should have enough money to purchase a new saw mill."@,
        "I have purchased some wood for you to get started. Good luck!"@,
    ]
}

pub open spec fn bankrupt_lines() -> Seq<Seq<char>> {
    seq![
        "You do not have enough money to pay todays bills."@,
        "The bank has seized your assets."@,
        "The End."@,
    ]
}

pub open spec fn lines_of(text: Seq<String>) -> Seq<Seq<char>> {
    text.map_values(|s: String| s@)
}

impl Default for OpeningDialogue {
    fn default() -> (d: Self)
        ensures
            lines_of(d.text@) == opening_lines(),
            d.index == 0,
    {
        let mut text: Vec<String> = Vec::new();
        text.push("Congratulations. You have inherited a factory from your late grandfather as well as a small amount of cash.".to_owned());
        text.push("Unfortunately the factory has been abandoned for a while. There doesnt seem to be any equipment left.".to_owned());
        text.push("Luckily you should have enough money to purchase a new saw mill.".to_owned());
        text.push("I have purchased some wood for you to get started. Good luck!".to_owned());
        assert(lines_of(text@) =~= opening_lines());
        OpeningDialogue { text, index: 0 }
    }
}

impl Default for BankruptDialogue {
    fn default() -> (d: Self)
        ensures
            lines_of(d.text@) == bankrupt_lines(),
            d.index == 0,
    {
        let mut text: Vec<String> = Vec::new();
        text.push("You do not have enough money to pay todays bills.".to_owned());
        text.push("The bank has seized your assets.".to_owned());
        text.push("The End.".to_owned());
        assert(lines_of(text@) =~= bankrupt_lines());
        BankruptDialogue { text, index: 0 }
    }
}

/// On a key press or click, shows the next opening line; at the last line
/// the press starts the first day instead (the result is `true`).
pub fn cycle_opening_dialogue(opening_dialogue: &mut OpeningDialogue, pressed: bool) -> (start_day: bool)
    requires
        pressed ==> old(opening_dialogue).text@.len() >= 1,
    ensures
        final(opening_dialogue).text@ == old(opening_dialogue).text@,
        start_day == (pressed && old(opening_dialogue).index >= old(opening_dialogue).text@.len() - 1),
        final(opening_dialogue).index == if pressed && old(opening_dialogue).index < old(opening_dialogue).text@.len() - 1 {
            old(opening_dialogue).index + 1
        } else {
            old(opening_dialogue).index as int
        },
        // the line shown always exists
        old(opening_dialogue).index < old(opening_dialogue).text@.len() ==> final(opening_dialogue).index
            < final(opening_dialogue).text@.len(),
{
    if pressed {
        if opening_dialogue.index < opening_dialogue.text.len() - 1 {
            opening_dialogue.index = opening_dialogue.index + 1;
            false
        } else {
            true
        }
    } else {
        false
    }
}

/// On a key press or click, shows the next bankruptcy line, stopping at the
/// last one.
pub fn cycle_bankrupt_dialogue(bankrupt_dialogue: &mut BankruptDialogue, pressed: bool)
    requires
        pressed ==> old(bankrupt_dialogue).text@.len() >= 1,
    ensures
        final(bankrupt_dialogue).text@ == old(bankrupt_dialogue).text@,
        final(bankrupt_dialogue).index == if pressed && old(bankrupt_dialogue).index < old(bankrupt_dialogue).text@.len() - 1 {
            old(bankrupt_dialogue).index + 1
        } else {
            old(bankrupt_dialogue).index as int
        },
        old(bankrupt_dialogue).index < old(bankrupt_dialogue).text@.len() ==> final(bankrupt_dialogue).index
            < final(bankrupt_dialogue).text@.len(),
{
    if pressed {
        if bankrupt_dialogue.index < bankrupt_dialogue.text.len() - 1 {
            bankrupt_dialogue.index = bankrupt_dialogue.index + 1;
        }
    }
}

/// The bankruptcy line to show: the current one, or the last one when the
/// index has run past the end.
pub fn bankrupt_dialogue_render(bankrupt_dialogue: &BankruptDialogue) -> (line: &String)
    requires
        bankrupt_dialogue.text@.len() >= 1,
    ensures
        *line == if bankrupt_dialogue.index < bankrupt_dialogue.text@.len() {
            bankrupt_dialogue.text@[bankrupt_dialogue.index as int]
        } else {
            bankrupt_dialogue.text@.last()
        },
{
    if bankrupt_dialogue.index < bankrupt_dialogue.text.len() {
        &bankrupt_dialogue.text[bankrupt_dialogue.index]
    } else {
        &bankrupt_dialogue.text[bankrupt_dialogue.text.len() - 1]
    }
}

/// The text of one decimal digit.
pub open spec fn digit_text(d: nat) -> Seq<char> {
    if d == 0 { "0"@ }
    else if d == 1 { "1"@ }
    else if d == 2 { "2"@ }
    else if d == 3 { "3"@ }
    else if d == 4 { "4"@ }
    else if d == 5 { "5"@ }
    else if d == 6 { "6"@ }
    else if d == 7 { "7"@ }
    else if d == 8 { "8"@ }
    else { "9"@ }
}

/// The decimal digits of `n`, most significant first, without leading
/// zeros.
pub open spec fn decimal_text(n: nat) -> Seq<char>
    decreases n,
{
    if n < 10 { digit_text(n) } else { decimal_text(n / 10) + digit_text(n % 10) }
}

/// The decimal text of a signed number.
pub open spec fn signed_text(n: int) -> Seq<char> {
    if n < 0 { "-"@ + decimal_text((-n) as nat) } else { decimal_text(n as nat) }
}

fn digit_str(d: u32) -> (s: &'static str)
    requires
        d < 10,
    ensures
        s@ == digit_text(d as nat),
{
    if d == 0 { "0" }
    else if d == 1 { "1" }
    else if d == 2 { "2" }
    else if d == 3 { "3" }
    else if d == 4 { "4" }
    else if d == 5 { "5" }
    else if d == 6 { "6" }
    else if d == 7 { "7" }
    else if d == 8 { "8" }
    else { "9" }
}

fn append_decimal(text: &mut String, n: u32)
    ensures
        final(text)@ == old(text)@ + decimal_text(n as nat),
    decreases n,
{
    if n >= 10 {
        append_decimal(text, n / 10);
    }
    text.append(digit_str(n % 10));
    proof {
        if n < 10 {
            assert(n % 10 == n);
        }
        assert(old(text)@ + decimal_text(n as nat) =~= if n >= 10 {
            old(text)@ + decimal_text((n / 10) as nat) + digit_text((n % 10) as nat)
        } else {
            old(text)@ + digit_text(n as nat)
        });
    }
}

/// The day counter shown at night: "Day " and the number of days.
pub fn day_count_text_render(day_count: i32) -> (text: String)
    ensures
        text@ == "Day "@ + signed_text(day_count as int),
{
    let mut text = "Day ".to_owned();
    if day_count < 0 {
        text.append("-");
        let magnitude: u32 = if day_count == i32::MIN { 2147483648u32 } else { (-day_count) as u32 };
        append_decimal(&mut text, magnitude);
        assert(text@ =~= "Day "@ + signed_text(day_count as int));
    } else {
        append_decimal(&mut text, day_count as u32);
    }
    text
}

/// Whether a widget that follows the day phase is drawn again: when its
/// own properties or the phase changed.
pub fn widget_update_with_day_state(widget_changed: bool, day_state_changed: bool) -> (update: bool)
    ensures
        update == (widget_changed || day_state_changed),
{
    widget_changed || day_state_changed
}

/// Whether the night screen is shown: only at night.
pub fn night_ui_render(state: DayCycleState) -> (shown: bool)
    ensures
        shown == (state == DayCycleState::Night),
{
    state == DayCycleState::Night
}

/// The opening line to show while the game opens; nothing (the dialogue is
/// folded away) in any other phase.
pub fn opening_dialogue_render(state: DayCycleState, opening_dialogue: &OpeningDialogue) -> (line: Option<&String>)
    requires
        state == DayCycleState::Opening ==> opening_dialogue.index < opening_dialogue.text@.len(),
    ensures
        state == DayCycleState::Opening ==> line == Some(&opening_dialogue.text@[opening_dialogue.index as int]),
        state != DayCycleState::Opening ==> line is None,
{
    if state != DayCycleState::Opening {
        return None;
    }
    Some(&opening_dialogue.text[opening_dialogue.index])
}

} // verus!
