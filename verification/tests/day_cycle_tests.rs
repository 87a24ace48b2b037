use industrial_evolution::day_cycle::{
    bankrupt_dialogue_render, cycle_bankrupt_dialogue, cycle_opening_dialogue, day_count_text_render, day_timer_system,
    night_ui_render, opening_dialogue_render, widget_update_with_day_state, BankruptDialogue, DayCycleState, DayTimer, OpeningDialogue,
};
use industrial_evolution::ui::widget_update_with_import_selection;

#[test]
fn default_state_is_night() {
    assert_eq!(DayCycleState::default(), DayCycleState::Night);
}

#[test]
fn day_timer_moves_to_night() {
    assert_eq!(day_timer_system(DayCycleState::Day, true), Some(DayCycleState::Night));
    assert_eq!(day_timer_system(DayCycleState::Day, false), None);
    assert_eq!(day_timer_system(DayCycleState::Night, true), None);
    assert_eq!(day_timer_system(DayCycleState::Opening, true), Some(DayCycleState::Night));
    let mut t = DayTimer { day_count: 0 };
    t.count_night();
    t.count_night();
    assert_eq!(t.day_count, 2);
}

#[test]
fn opening_dialogue_lines() {
    let d = OpeningDialogue::default();
    assert_eq!(d.text.len(), 4);
    assert_eq!(d.index, 0);
    assert_eq!(
        d.text[0],
        "Congratulations. You have inherited a factory from your late grandfather as well as a small amount of cash."
    );
    assert_eq!(d.text[3], "I have purchased some wood for you to get started. Good luck!");
}

#[test]
fn opening_dialogue_cycles_then_starts_day() {
    let mut d = OpeningDialogue::default();
    assert!(!cycle_opening_dialogue(&mut d, false));
    assert_eq!(d.index, 0);
    assert!(!cycle_opening_dialogue(&mut d, true));
    assert!(!cycle_opening_dialogue(&mut d, true));
    assert!(!cycle_opening_dialogue(&mut d, true));
    assert_eq!(d.index, 3);
    assert!(cycle_opening_dialogue(&mut d, true));
    assert_eq!(d.index, 3);
}

#[test]
fn bankrupt_dialogue_stops_at_last_line() {
    let mut d = BankruptDialogue::default();
    assert_eq!(d.text, vec!["You do not have enough money to pay todays bills.", "The bank has seized your assets.", "The End."]);
    assert_eq!(bankrupt_dialogue_render(&d), "You do not have enough money to pay todays bills.");
    for _ in 0..5 {
        cycle_bankrupt_dialogue(&mut d, true);
    }
    assert_eq!(d.index, 2);
    assert_eq!(bankrupt_dialogue_render(&d), "The End.");
    d.index = 10;
    assert_eq!(bankrupt_dialogue_render(&d), "The End.");
}

#[test]
fn day_count_text() {
    assert_eq!(day_count_text_render(0), "Day 0");
    assert_eq!(day_count_text_render(7), "Day 7");
    assert_eq!(day_count_text_render(120), "Day 120");
    assert_eq!(day_count_text_render(-5), "Day -5");
    assert_eq!(day_count_text_render(i32::MAX), "Day 2147483647");
    assert_eq!(day_count_text_render(i32::MIN), "Day -2147483648");
}

#[test]
fn night_and_opening_screens() {
    assert!(night_ui_render(DayCycleState::Night));
    assert!(!night_ui_render(DayCycleState::Day));
    let d = OpeningDialogue::default();
    assert_eq!(opening_dialogue_render(DayCycleState::Day, &d), None);
    assert_eq!(
        opening_dialogue_render(DayCycleState::Opening, &d).map(|s| s.as_str()),
        Some("Congratulations. You have inherited a factory from your late grandfather as well as a small amount of cash.")
    );
}

#[test]
fn widgets_redraw_on_change() {
    assert!(!widget_update_with_day_state(false, false));
    assert!(widget_update_with_day_state(false, true));
    assert!(widget_update_with_day_state(true, false));
    assert!(!widget_update_with_import_selection(false, false));
    assert!(widget_update_with_import_selection(false, true));
}
