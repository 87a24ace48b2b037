use industrial_evolution::bundles::{
    ItemExportBundle, ItemReceivableBundle, LumberBundle, PaperBundle, TradeDepotBundle, WoodBundle, WoodChipsBundle,
    WoodPulpBundle,
};
use industrial_evolution::container::ItemContainer;
use industrial_evolution::day_cycle::DayCycleState;
use industrial_evolution::ghost::{assembly_ghost_tracking, hide_hover_ghost, hover_ghost_tracking};
use industrial_evolution::items::{GoodItem, Item, MaterialItem, PurchasableItem, ResourceItem};
use industrial_evolution::jobs::JobAction;
use industrial_evolution::modes::PlayerState;
use industrial_evolution::receivables::purchase_receivables;
use industrial_evolution::tiles::{EntityTileSize, TilePos};
use industrial_evolution::tutorial::{
    apply_step_check, increment_step_system, tutorial_step_check, StepCheck, TutorialObservation,
    TutorialSteps,
};
use industrial_evolution::ui::{
    image_button_render, set_mouse_tile_res, sorted_imports, toggle_container_selectors, tutorial_system,
    widget_update_with_money, widget_update_with_player_state, ButtonImage,
    ImageButtonState, ImportSelections, MouseTile, TutorialAction, TutorialState, Visibility,
};

#[test]
fn selectors_toggle() {
    let mut v = Visibility::Hidden;
    toggle_container_selectors(&mut v);
    assert_eq!(v, Visibility::Visible);
    toggle_container_selectors(&mut v);
    assert_eq!(v, Visibility::Hidden);
    let mut i = Visibility::Inherited;
    toggle_container_selectors(&mut i);
    assert_eq!(i, Visibility::Hidden);
}

#[test]
fn button_images() {
    assert_eq!(image_button_render(true, None), ButtonImage::Normal);
    assert_eq!(image_button_render(true, Some(ImageButtonState { hover: false })), ButtonImage::Selected);
    assert_eq!(image_button_render(true, Some(ImageButtonState { hover: true })), ButtonImage::Hover);
    assert_eq!(image_button_render(false, Some(ImageButtonState { hover: false })), ButtonImage::Normal);
}

#[test]
fn mouse_tile_follows_cursor() {
    let mut m = MouseTile(TilePos { x: 1, y: 1 });
    set_mouse_tile_res(&mut m, Some(TilePos { x: 4, y: 2 }));
    assert_eq!(m.0, TilePos { x: 4, y: 2 });
    set_mouse_tile_res(&mut m, None);
    assert_eq!(m.0, TilePos { x: 4, y: 2 });
}

#[test]
fn import_selection_counts() {
    let wood = PurchasableItem::Resource(ResourceItem::Wood);
    let paper = PurchasableItem::Good(GoodItem::Paper);
    let mut s = ImportSelections { selected: vec![] };
    assert_eq!(s.selected_count(wood), 0);
    s.select(wood);
    s.select(paper);
    s.select(wood);
    assert_eq!(s.selected_count(wood), 2);
    assert_eq!(s.selected_count(paper), 1);
    s.deselect(wood);
    assert_eq!(s.selected, vec![paper, wood]);
    s.deselect(paper);
    s.deselect(paper);
    assert_eq!(s.selected, vec![wood]);
}

#[test]
fn tutorial_system_actions() {
    assert_eq!(tutorial_system(TutorialState::Disabled, 0, 21), TutorialAction::Idle);
    assert_eq!(tutorial_system(TutorialState::Enabled, 3, 21), TutorialAction::RunStep(3));
    assert_eq!(tutorial_system(TutorialState::Enabled, 21, 21), TutorialAction::Finish);
}

#[test]
fn ghosts() {
    let t = Some(TilePos { x: 3, y: 3 });
    assert_eq!(hover_ghost_tracking(1, true, t), t);
    assert_eq!(hover_ghost_tracking(2, true, t), None);
    assert_eq!(hover_ghost_tracking(1, false, t), None);
    assert_eq!(assembly_ghost_tracking(1, true, t), t);
    assert_eq!(assembly_ghost_tracking(0, true, t), None);
    assert_eq!(assembly_ghost_tracking(1, true, None), None);
    assert!(hide_hover_ghost(1));
    assert!(!hide_hover_ghost(0));
    assert!(!hide_hover_ghost(2));
}

#[test]
fn receivables_fill_until_full() {
    let mut area = ItemContainer::new(2);
    let bought = vec![PurchasableItem::Resource(ResourceItem::Wood); 3];
    let kept = purchase_receivables(&mut area, &bought, &vec![10, 11, 12]);
    assert_eq!(kept, vec![true, true, false]);
    assert_eq!(area.items, vec![Some(10), Some(11)]);
    // a full area takes nothing at all
    let kept = purchase_receivables(&mut area, &bought, &vec![13, 14, 15]);
    assert!(kept.is_empty());
    assert_eq!(area.items.len(), 2);
}

#[test]
fn receivables_check_type() {
    let mut area = ItemContainer::new(5);
    area.item_type = Some(Item::Resource(ResourceItem::Wood));
    let bought = vec![PurchasableItem::Good(GoodItem::Paper), PurchasableItem::Resource(ResourceItem::Wood)];
    assert_eq!(purchase_receivables(&mut area, &bought, &vec![1, 2]), vec![false, true]);
    assert_eq!(area.items, vec![Some(2)]);
}

fn observation() -> TutorialObservation {
    TutorialObservation {
        moved_long_enough: false,
        player_state: PlayerState::NoMode,
        has_saw_mill: false,
        player_holding: false,
        saw_mill_input_filled: false,
        saw_mill_output_filled: false,
        exports_holding: false,
        workers: 0,
        worker_selected: false,
        selected_job: None,
        day: DayCycleState::Day,
    }
}

#[test]
fn tutorial_steps_text() {
    let t = TutorialSteps::new();
    assert_eq!(t.step, 0);
    assert_eq!(t.steps.len(), 21);
    assert_eq!(t.steps[0].dialogue, "Move your character with WASD.\nYou can adjust the camera level with the scroll wheel");
    assert_eq!(t.steps[20].dialogue, "Purchase some wood for tomorrow. Click on the \"+\" next to wood.");
}

#[test]
fn tutorial_simple_checks() {
    let mut obs = observation();
    assert_eq!(tutorial_step_check(0, &obs), StepCheck::Stay);
    obs.moved_long_enough = true;
    assert_eq!(tutorial_step_check(0, &obs), StepCheck::Advance);
    assert_eq!(tutorial_step_check(3, &obs), StepCheck::Advance);
    assert_eq!(tutorial_step_check(8, &obs), StepCheck::Advance);
    obs.player_state = PlayerState::Power;
    assert_eq!(tutorial_step_check(6, &obs), StepCheck::Advance);
    assert_eq!(tutorial_step_check(8, &obs), StepCheck::Stay);
    assert_eq!(tutorial_step_check(12, &obs), StepCheck::Stay);
    obs.workers = 1;
    assert_eq!(tutorial_step_check(12, &obs), StepCheck::Advance);
    assert_eq!(tutorial_step_check(19, &obs), StepCheck::Stay);
    assert_eq!(tutorial_step_check(20, &obs), StepCheck::Advance);
    obs.day = DayCycleState::Night;
    assert_eq!(tutorial_step_check(19, &obs), StepCheck::Advance);
    assert_eq!(tutorial_step_check(21, &obs), StepCheck::Stay);
}

#[test]
fn tutorial_job_checks() {
    let mut obs = observation();
    assert_eq!(tutorial_step_check(15, &obs), StepCheck::Stay);
    obs.worker_selected = true;
    assert_eq!(tutorial_step_check(15, &obs), StepCheck::GoBack);
    assert_eq!(tutorial_step_check(16, &obs), StepCheck::Stay);
    let pickup = JobAction::ContainerPickup { container: 1, pickup_amount: 1 };
    let drop = JobAction::Drop { worker: 2, input_container: Some(3) };
    obs.selected_job = Some(vec![pickup]);
    assert_eq!(tutorial_step_check(15, &obs), StepCheck::Advance);
    obs.selected_job = Some(vec![pickup, drop]);
    assert_eq!(tutorial_step_check(15, &obs), StepCheck::Stay);
    assert_eq!(tutorial_step_check(16, &obs), StepCheck::Advance);
    obs.selected_job = Some(vec![pickup, drop, JobAction::Work { assembly: 4 }]);
    assert_eq!(tutorial_step_check(17, &obs), StepCheck::Advance);
    obs.selected_job = Some(vec![drop, pickup, JobAction::Idle]);
    assert_eq!(tutorial_step_check(17, &obs), StepCheck::Stay);
}

#[test]
fn tutorial_step_moves() {
    let mut t = TutorialSteps::new();
    assert!(!apply_step_check(&mut t, StepCheck::Advance));
    assert_eq!(t.step, 1);
    assert!(!apply_step_check(&mut t, StepCheck::Stay));
    assert_eq!(t.step, 1);
    assert!(!apply_step_check(&mut t, StepCheck::GoBack));
    assert_eq!(t.step, 0);
    t.step = 20;
    assert!(increment_step_system(&mut t));
    assert_eq!(t.step, 20);
}

#[test]
fn bundle_defaults() {
    assert_eq!(WoodBundle::default().item, Item::Resource(ResourceItem::Wood));
    assert_eq!(WoodChipsBundle::default().resource, ResourceItem::WoodChips);
    assert_eq!(LumberBundle::default().item, Item::Resource(ResourceItem::Lumber));
    assert_eq!(PaperBundle::default().good, GoodItem::Paper);
    assert_eq!(WoodPulpBundle::default().material, MaterialItem::WoodPulp);
    let export = ItemExportBundle::default();
    assert_eq!(export.items.max_items, 100);
    assert!(export.items.items.is_empty());
    let receivable = ItemReceivableBundle::default();
    assert_eq!(receivable.container.max_items, 100);
    assert_eq!(receivable.tile_size, EntityTileSize { x: 2, y: 4 });
    assert_eq!(TradeDepotBundle::default().items.max_items, 25);
}

#[test]
fn imports_sorted_resources_then_goods() {
    let wood = PurchasableItem::Resource(ResourceItem::Wood);
    let chips = PurchasableItem::Resource(ResourceItem::WoodChips);
    let lumber = PurchasableItem::Resource(ResourceItem::Lumber);
    let paper = PurchasableItem::Good(GoodItem::Paper);
    assert_eq!(sorted_imports(&vec![paper, chips, wood, lumber]), vec![lumber, wood, chips, paper]);
    assert_eq!(sorted_imports(&vec![wood, paper, wood]), vec![wood, wood, paper]);
    assert!(sorted_imports(&vec![]).is_empty());
}

#[test]
fn hud_widgets_redraw_on_change() {
    assert!(widget_update_with_money(false, true));
    assert!(!widget_update_with_money(false, false));
    assert!(widget_update_with_player_state(true, false));
    assert!(!widget_update_with_player_state(false, false));
}

#[test]
fn tutorial_step_counter_is_a_byte() {
    let mut t = TutorialSteps::new();
    let extra: Vec<_> = (0..236).map(|_| industrial_evolution::tutorial::TutorialStep { dialogue: String::new() }).collect();
    t.steps.extend(extra);
    assert_eq!(t.steps.len(), 257);
    // 257 steps count as one: the first step is already the last
    assert!(increment_step_system(&mut t));
    assert_eq!(t.step, 0);
}
