use industrial_evolution::job_error::{job_error_marker, job_warning_marker, JobError, MarkerAction};
use industrial_evolution::jobs::{
    activate_job_mode_on_click, job_mode_creation, remove_job_point_click, set_current_status, toggle_worker_state,
    job_timer_to_tick, worker_do_job, worker_iterate_jobs, worker_path_to_next_job, ClickTarget, Job, JobAction,
    JobCommand, JobPoint, JobStatus, PointTimer, SelectedWorker, WorkerState, IDLE_WAIT_NANOS,
};
use industrial_evolution::tile_pathfinding::MoveToTile;
use industrial_evolution::tiles::{TilePos, TilemapSize};

fn t(x: u32, y: u32) -> TilePos {
    TilePos { x, y }
}

const MAP: TilemapSize = TilemapSize { x: 20, y: 20 };

fn point(x: u32, y: u32, status: JobStatus, action: JobAction) -> JobPoint {
    JobPoint { point: t(x, y), job_status: status, action, timer: None }
}

fn fresh(duration_nanos: u64) -> PointTimer {
    PointTimer { duration_nanos, elapsed_nanos: 0, finished: false, times_finished_this_tick: 0 }
}

fn three_point_job() -> Job {
    Job {
        path: vec![
            point(1, 1, JobStatus::Completed, JobAction::Idle),
            point(5, 5, JobStatus::Active, JobAction::Pickup { item: 7 }),
            point(9, 9, JobStatus::Active, JobAction::Work { assembly: 3 }),
        ],
        current_job: None,
        lock: false,
    }
}

#[test]
fn iterate_picks_first_active_point() {
    let mut job = three_point_job();
    worker_iterate_jobs(&mut job, &WorkerState::Working);
    assert_eq!(job.current_job, Some(1));
    assert_eq!(job.path[0].job_status, JobStatus::Completed);
}

#[test]
fn iterate_restarts_a_finished_round() {
    let mut job = three_point_job();
    for p in job.path.iter_mut() {
        p.job_status = JobStatus::Completed;
    }
    worker_iterate_jobs(&mut job, &WorkerState::Working);
    assert_eq!(job.current_job, Some(0));
    assert!(job.path.iter().all(|p| p.job_status == JobStatus::Active));
}

#[test]
fn iterate_leaves_paused_worker_alone() {
    let mut job = three_point_job();
    job.current_job = Some(2);
    worker_iterate_jobs(&mut job, &WorkerState::Paused);
    assert_eq!(job.current_job, Some(2));
    let mut empty = Job { path: vec![], current_job: None, lock: false };
    worker_iterate_jobs(&mut empty, &WorkerState::Paused);
    assert_eq!(empty.current_job, None);
}

#[test]
fn path_to_next_job_sets_target() {
    let job = three_point_job();
    let mut m = MoveToTile { target: None, path: Some(vec![t(0, 0)]), path_i: 3 };
    worker_path_to_next_job(&job, &WorkerState::Working, Some(t(0, 0)), &MAP, &mut m);
    assert_eq!(m.target, Some(t(5, 5)));
    assert_eq!(m.path, None);
    assert_eq!(m.path_i, 0);
}

#[test]
fn path_to_next_job_keeps_matching_path() {
    let job = three_point_job();
    let mut m = MoveToTile { target: Some(t(5, 5)), path: Some(vec![t(1, 1), t(4, 4)]), path_i: 1 };
    worker_path_to_next_job(&job, &WorkerState::Working, Some(t(1, 1)), &MAP, &mut m);
    assert_eq!(m.target, Some(t(5, 5)));
    assert_eq!(m.path, Some(vec![t(1, 1), t(4, 4)]));
    assert_eq!(m.path_i, 1);
}

#[test]
fn path_to_next_job_stops_near_target_or_paused() {
    let job = three_point_job();
    let mut m = MoveToTile { target: Some(t(5, 5)), path: Some(vec![t(4, 4)]), path_i: 1 };
    worker_path_to_next_job(&job, &WorkerState::Working, Some(t(6, 5)), &MAP, &mut m);
    assert_eq!(m.target, None);
    assert_eq!(m.path, None);
    let mut m2 = MoveToTile { target: Some(t(5, 5)), path: Some(vec![t(4, 4)]), path_i: 1 };
    worker_path_to_next_job(&job, &WorkerState::Paused, Some(t(0, 0)), &MAP, &mut m2);
    assert_eq!(m2.target, None);
    assert_eq!(m2.path, None);
    assert_eq!(m2.path_i, 0);
}

#[test]
fn do_job_requests_pickup_when_near() {
    let mut job = three_point_job();
    job.current_job = Some(1);
    let cmd = worker_do_job(&mut job, 42, Some(t(5, 6)), &MAP);
    assert_eq!(cmd, JobCommand::PickUpItem { item: 7, worker: 42, tile_pos: t(5, 6) });
    assert_eq!(job.path[1].job_status, JobStatus::Active);
}

#[test]
fn do_job_waits_for_timer_and_distance() {
    let mut job = three_point_job();
    job.current_job = Some(1);
    assert_eq!(worker_do_job(&mut job, 42, Some(t(8, 8)), &MAP), JobCommand::Nothing);
    assert_eq!(worker_do_job(&mut job, 42, None, &MAP), JobCommand::Nothing);
    job.lock = true;
    assert_eq!(worker_do_job(&mut job, 42, Some(t(5, 5)), &MAP), JobCommand::Nothing);
}

#[test]
fn do_job_completes_idle_point() {
    let mut job = Job { path: vec![point(2, 2, JobStatus::Active, JobAction::Idle)], current_job: Some(0), lock: false };
    assert_eq!(worker_do_job(&mut job, 1, Some(t(2, 2)), &MAP), JobCommand::Nothing);
    assert_eq!(job.path[0].job_status, JobStatus::Completed);
}

#[test]
fn do_job_other_actions() {
    let mut job = three_point_job();
    job.current_job = Some(2);
    assert_eq!(worker_do_job(&mut job, 4, Some(t(9, 9)), &MAP), JobCommand::PowerAssembly { assembly: 3, worker: 4 });
    let mut drop_job = Job {
        path: vec![
            point(0, 0, JobStatus::Active, JobAction::Drop { worker: 4, input_container: Some(11) }),
            point(0, 0, JobStatus::Active, JobAction::ContainerPickup { container: 12, pickup_amount: 1 }),
        ],
        current_job: Some(0),
        lock: false,
    };
    assert_eq!(
        worker_do_job(&mut drop_job, 4, Some(t(0, 1)), &MAP),
        JobCommand::DropFrom { holder: 4, worker: 4, input_container: Some(11) }
    );
    drop_job.current_job = Some(1);
    assert_eq!(
        worker_do_job(&mut drop_job, 4, Some(t(1, 0)), &MAP),
        JobCommand::PickUpFromContainer { container: 12, worker: 4, tile_pos: t(1, 0) }
    );
}

#[test]
fn toggle_state() {
    let mut s = WorkerState::Paused;
    toggle_worker_state(&mut s);
    assert_eq!(s, WorkerState::Working);
    toggle_worker_state(&mut s);
    assert_eq!(s, WorkerState::Paused);
}

#[test]
fn set_status_by_index() {
    let mut job = three_point_job();
    assert!(set_current_status(&mut job, 1, JobStatus::Completed));
    assert_eq!(job.path[1].job_status, JobStatus::Completed);
    assert!(!set_current_status(&mut job, 3, JobStatus::Completed));
    assert_eq!(job.path.len(), 3);
}

#[test]
fn clicks_add_points() {
    let mut job = Job { path: vec![], current_job: None, lock: false };
    assert_eq!(
        job_mode_creation(&mut job, 9, None, t(3, 4)),
        Some(JobPoint { timer: Some(fresh(IDLE_WAIT_NANOS)), ..point(3, 4, JobStatus::Active, JobAction::Idle) })
    );
    assert_eq!(
        job_mode_creation(&mut job, 9, Some(ClickTarget::Assembly { assembly: 5, corner_tile: Some(t(7, 7)) }), t(8, 8)),
        Some(point(7, 7, JobStatus::Active, JobAction::Work { assembly: 5 }))
    );
    assert_eq!(job_mode_creation(&mut job, 9, Some(ClickTarget::Assembly { assembly: 5, corner_tile: None }), t(8, 8)), None);
    assert_eq!(
        job_mode_creation(&mut job, 9, Some(ClickTarget::InputSelector { parent: 6 }), t(1, 1)),
        Some(point(1, 1, JobStatus::Active, JobAction::Drop { worker: 9, input_container: Some(6) }))
    );
    assert_eq!(
        job_mode_creation(&mut job, 9, Some(ClickTarget::OutputSelector { parent: 6 }), t(1, 2)),
        Some(point(1, 2, JobStatus::Active, JobAction::ContainerPickup { container: 6, pickup_amount: 1 }))
    );
    assert_eq!(
        job_mode_creation(&mut job, 9, Some(ClickTarget::Item { item: 8 }), t(2, 2)),
        Some(point(2, 2, JobStatus::Active, JobAction::Pickup { item: 8 }))
    );
    assert_eq!(job_mode_creation(&mut job, 9, Some(ClickTarget::Other), t(2, 2)), None);
    assert_eq!(job.path.len(), 5);
}

#[test]
fn select_worker_on_click() {
    let mut sel = SelectedWorker { selected: None };
    assert!(!activate_job_mode_on_click(&mut sel, &vec![]));
    assert_eq!(sel.selected, None);
    assert!(activate_job_mode_on_click(&mut sel, &vec![3, 8]));
    assert_eq!(sel.selected, Some(8));
}

#[test]
fn remove_point_removes_all_equal() {
    let mut job = three_point_job();
    let dup = job.path[1];
    job.path.push(dup);
    job.current_job = Some(1);
    remove_job_point_click(&mut job, &dup);
    assert_eq!(job.path.len(), 2);
    assert_eq!(job.path[0].point, t(1, 1));
    assert_eq!(job.path[1].point, t(9, 9));
    assert_eq!(job.current_job, Some(1));
}

#[test]
fn job_error_flags_and_markers() {
    let mut e = JobError::new();
    assert_eq!(job_error_marker(&e, 0), MarkerAction::Keep);
    assert_eq!(job_warning_marker(&e, 2), MarkerAction::RemoveAll);
    e.set_warning("careful");
    assert_eq!(e.warn_message, "careful");
    assert_eq!(job_warning_marker(&e, 0), MarkerAction::Spawn);
    assert_eq!(job_warning_marker(&e, 1), MarkerAction::Keep);
    e.set_error("broken");
    assert!(e.error);
    assert_eq!(e.message, "broken");
    assert_eq!(job_error_marker(&e, 0), MarkerAction::Spawn);
    assert_eq!(job_error_marker(&e, 1), MarkerAction::Keep);
    // an error hides the warning
    assert_eq!(job_warning_marker(&e, 1), MarkerAction::RemoveAll);
    e.clear_error();
    assert!(!e.error && !e.warning);
    assert_eq!(e.message, "");
    assert_eq!(e.warn_message, "careful");
    assert_eq!(job_error_marker(&e, 1), MarkerAction::RemoveAll);
    assert_eq!(job_warning_marker(&e, 0), MarkerAction::Keep);
}

#[test]
fn idle_point_waits_for_its_clock() {
    let waiting = PointTimer { duration_nanos: IDLE_WAIT_NANOS, elapsed_nanos: 400, finished: false, times_finished_this_tick: 0 };
    let idle = JobPoint { timer: Some(waiting), ..point(2, 2, JobStatus::Active, JobAction::Idle) };
    let mut job = Job { path: vec![idle], current_job: Some(0), lock: false };
    assert_eq!(job_timer_to_tick(&job, Some(t(2, 3)), &MAP), Some(0));
    assert_eq!(job_timer_to_tick(&job, Some(t(9, 9)), &MAP), None);
    // the clock has not run out: nothing happens
    assert_eq!(worker_do_job(&mut job, 1, Some(t(2, 3)), &MAP), JobCommand::Nothing);
    assert_eq!(job.path[0], idle);
    // the clock ran out: the point is completed and its clock restarts
    job.path[0].timer = Some(PointTimer { elapsed_nanos: IDLE_WAIT_NANOS, finished: true, times_finished_this_tick: 1, ..waiting });
    assert_eq!(worker_do_job(&mut job, 1, Some(t(2, 3)), &MAP), JobCommand::Nothing);
    assert_eq!(job.path[0].job_status, JobStatus::Completed);
    assert_eq!(job.path[0].timer, Some(fresh(IDLE_WAIT_NANOS)));
}

#[test]
fn run_out_clock_restarts_on_completed_point() {
    let done = PointTimer { duration_nanos: 5, elapsed_nanos: 5, finished: true, times_finished_this_tick: 1 };
    let p = JobPoint { timer: Some(done), ..point(2, 2, JobStatus::Completed, JobAction::Idle) };
    let mut job = Job { path: vec![p], current_job: Some(0), lock: false };
    assert_eq!(worker_do_job(&mut job, 1, Some(t(2, 2)), &MAP), JobCommand::Nothing);
    assert_eq!(job.path[0].timer, Some(fresh(5)));
    assert_eq!(job.path[0].job_status, JobStatus::Completed);
    assert_eq!(job_timer_to_tick(&Job { lock: true, ..Job { path: vec![p], current_job: Some(0), lock: false } }, Some(t(2, 2)), &MAP), None);
}

#[test]
fn points_with_clocks_in_other_states_differ() {
    let a = JobPoint { timer: Some(fresh(IDLE_WAIT_NANOS)), ..point(1, 1, JobStatus::Active, JobAction::Idle) };
    let ticked = JobPoint { timer: Some(PointTimer { elapsed_nanos: 10, ..fresh(IDLE_WAIT_NANOS) }), ..a };
    let mut job = Job { path: vec![ticked], current_job: None, lock: false };
    remove_job_point_click(&mut job, &a);
    assert_eq!(job.path, vec![ticked]);
    remove_job_point_click(&mut job, &ticked);
    assert!(job.path.is_empty());
}
