use industrial_evolution::job_ui::{contains_point, job_path_lines, spawn_job_path_markers};
use industrial_evolution::jobs::{JobAction, JobPoint, JobStatus, PointTimer};
use industrial_evolution::modes::{
    input_reset_player_mode, input_toggle_assembly_mode, input_toggle_receivable_mode, input_toggle_trade_depot_mode,
    input_toggle_worker_mode, PlayerState,
};
use industrial_evolution::player::{activate_power_mode_on_click, sprite_direction_system, AssemblyPowerSelection, SpriteDirection};
use industrial_evolution::tiles::TilePos;

fn p(x: u32, y: u32) -> JobPoint {
    JobPoint { point: TilePos { x, y }, job_status: JobStatus::Active, action: JobAction::Idle, timer: None }
}

#[test]
fn default_mode_is_none() {
    assert_eq!(PlayerState::default(), PlayerState::NoMode);
}

#[test]
fn mode_keys_toggle() {
    assert_eq!(input_toggle_worker_mode(false, PlayerState::NoMode), None);
    assert_eq!(input_toggle_worker_mode(true, PlayerState::NoMode), Some(PlayerState::Workers));
    assert_eq!(input_toggle_worker_mode(true, PlayerState::Workers), Some(PlayerState::NoMode));
    assert_eq!(input_toggle_assembly_mode(true, PlayerState::Workers), Some(PlayerState::Assemblies));
    assert_eq!(input_toggle_assembly_mode(true, PlayerState::Assemblies), Some(PlayerState::NoMode));
    assert_eq!(input_toggle_receivable_mode(true, PlayerState::Jobs), Some(PlayerState::Receivables));
    assert_eq!(input_toggle_trade_depot_mode(true, PlayerState::TradeDepot), Some(PlayerState::NoMode));
    assert_eq!(input_reset_player_mode(true), Some(PlayerState::NoMode));
    assert_eq!(input_reset_player_mode(false), None);
}

#[test]
fn mode_key_twice_returns_to_no_mode() {
    let once = input_toggle_trade_depot_mode(true, PlayerState::Power).unwrap();
    let twice = input_toggle_trade_depot_mode(true, once).unwrap();
    assert_eq!(twice, PlayerState::NoMode);
}

#[test]
fn job_markers_follow_path() {
    let path = vec![p(1, 1), p(2, 2), p(3, 3)];
    let markers = vec![p(2, 2), p(9, 9), p(1, 1), p(8, 8)];
    let (despawn, spawn) = spawn_job_path_markers(&path, &markers);
    assert_eq!(despawn, vec![1, 3]);
    assert_eq!(spawn, vec![p(3, 3)]);
    let (despawn, spawn) = spawn_job_path_markers(&vec![], &markers);
    assert_eq!(despawn, vec![0, 1, 2, 3]);
    assert!(spawn.is_empty());
    assert!(contains_point(&path, &p(2, 2)));
    assert!(!contains_point(&path, &p(2, 3)));
}

#[test]
fn job_lines_join_points() {
    assert!(job_path_lines(&vec![]).is_empty());
    assert!(job_path_lines(&vec![p(1, 1)]).is_empty());
    let lines = job_path_lines(&vec![p(1, 1), p(2, 2), p(5, 1)]);
    assert_eq!(
        lines,
        vec![(TilePos { x: 1, y: 1 }, TilePos { x: 2, y: 2 }), (TilePos { x: 2, y: 2 }, TilePos { x: 5, y: 1 })]
    );
}

#[test]
fn power_mode_selects_last_reachable_assembly() {
    let mut sel = AssemblyPowerSelection { selected: None };
    let clicked = vec![(3, true), (4, false), (5, true), (6, false)];
    assert_eq!(activate_power_mode_on_click(PlayerState::NoMode, true, true, &clicked, &mut sel), Some(PlayerState::Power));
    assert_eq!(sel.selected, Some(5));
}

#[test]
fn power_mode_needs_click_reach_and_no_mode() {
    let mut sel = AssemblyPowerSelection { selected: Some(1) };
    let far = vec![(3, false)];
    assert_eq!(activate_power_mode_on_click(PlayerState::NoMode, true, true, &far, &mut sel), None);
    let near = vec![(3, true)];
    assert_eq!(activate_power_mode_on_click(PlayerState::Jobs, true, true, &near, &mut sel), None);
    assert_eq!(activate_power_mode_on_click(PlayerState::NoMode, false, true, &near, &mut sel), None);
    assert_eq!(activate_power_mode_on_click(PlayerState::NoMode, true, false, &near, &mut sel), None);
    assert_eq!(sel.selected, Some(1));
}

#[test]
fn sprite_index_is_direction() {
    let s = SpriteDirection { direction: 53, movement_frame: 5 };
    assert_eq!(sprite_direction_system(&s), 53);
}

#[test]
fn marker_of_a_ticked_point_is_replaced() {
    let fresh = PointTimer { duration_nanos: 1_000, elapsed_nanos: 0, finished: false, times_finished_this_tick: 0 };
    let marked = JobPoint { timer: Some(fresh), ..p(4, 4) };
    let ticked = JobPoint { timer: Some(PointTimer { elapsed_nanos: 250, ..fresh }), ..marked };
    let (despawn, spawn) = spawn_job_path_markers(&vec![ticked], &vec![marked]);
    assert_eq!(despawn, vec![0]);
    assert_eq!(spawn, vec![ticked]);
}
