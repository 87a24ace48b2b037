use vstd::prelude::*;
use crate::container::EntityId;
use crate::tiles::{TilePos, TilemapSize, is_near_tile, spec_is_near_tile};
use crate::tile_pathfinding::{MoveToTile, path_view};

verus! {

/// Whether a worker carries out its job.
#[derive(Clone, Copy, PartialEq, Eq, Structural, Debug)]
pub enum WorkerState {
    Paused,
    Working,
}

/// Whether a point of a job still has to be done in the current round.
#[derive(Clone, Copy, PartialEq, Eq, Structural, Debug)]
pub enum JobStatus {
    Active,
    Completed,
}

/// What a worker does at a point of its job.  The kind and amount of power
/// that `Work` delivers is kept by the application beside the job.
#[derive(Clone, Copy, PartialEq, Eq, Structural, Debug)]
pub enum JobAction {
    /// Power the assembly.
    Work { assembly: EntityId },
    /// Pick up the item.
    Pickup { item: EntityId },
    /// Pick up the last item of the container.
    ContainerPickup { container: EntityId, pickup_amount: i32 },
    /// Hand the last item that `worker` holds to `input_container`.
    Drop { worker: EntityId, input_container: Option<EntityId> },
    /// Wait (for as long as the point's clock runs).
    Idle,
}

/// The waiting clock of a job point, as plain values: how long it runs and
/// how much of it has passed (in nanoseconds), whether it has run out, and
/// how often it ran out in its last tick.  The application ticks it.
#[derive(Clone, Copy, PartialEq, Eq, Structural, Debug)]
pub struct PointTimer {
    pub duration_nanos: u64,
    pub elapsed_nanos: u64,
    pub finished: bool,
    pub times_finished_this_tick: u32,
}

/// How long a worker waits at a point that only asks it to wait: one second.
pub const IDLE_WAIT_NANOS: u64 = 1_000_000_000;

/// A clock of `duration` nanoseconds that has not started.
pub open spec fn fresh_timer(duration: u64) -> PointTimer {
    PointTimer { duration_nanos: duration, elapsed_nanos: 0, finished: false, times_finished_this_tick: 0 }
}

/// `t` restarted: nothing has passed and it has not run out.
pub open spec fn reset_timer(t: PointTimer) -> PointTimer {
    PointTimer { elapsed_nanos: 0, finished: false, times_finished_this_tick: 0, ..t }
}

/// One point of a job: where it is, whether it is done in this round, what
/// to do there, and the clock of the wait there, if any.  Two points are
/// the same only when their clocks are in the same state too.
#[derive(Clone, Copy, PartialEq, Eq, Structural, Debug)]
pub struct JobPoint {
    pub point: TilePos,
    pub job_status: JobStatus,
    pub action: JobAction,
    pub timer: Option<PointTimer>,
}

/// A worker's job: the points it works through in a loop, the point it is
/// at, and a guard that keeps a job from being run twice in one frame.
pub struct Job {
    pub path: Vec<JobPoint>,
    pub current_job: Option<usize>,
    pub lock: bool,
}

/// Whether a worker waits.
pub struct JobWaiting(pub bool);

/// The worker whose job the player is editing.
pub struct SelectedWorker {
    pub selected: Option<EntityId>,
}

/// What a worker's job asks of the rest of the game this frame.
#[derive(Clone, Copy, PartialEq, Eq, Structural, Debug)]
pub enum JobCommand {
    Nothing,
    /// The worker powers the assembly.
    PowerAssembly { assembly: EntityId, worker: EntityId },
    /// The worker, standing on `tile_pos`, picks up the item.
    PickUpItem { item: EntityId, worker: EntityId, tile_pos: TilePos },
    /// The worker, standing on `tile_pos`, picks up the last item of the
    /// container (or of an assembly's output).
    PickUpFromContainer { container: EntityId, worker: EntityId, tile_pos: TilePos },
    /// The worker hands the last item that `holder` holds to
    /// `input_container`.
    DropFrom { holder: EntityId, worker: EntityId, input_container: Option<EntityId> },
}

/// The index of the first point at or after `k` whose status is `status`.
pub open spec fn first_status_from(path: Seq<JobPoint>, status: JobStatus, k: int) -> Option<int>
    decreases path.len() - k,
{
    if k < 0 || k >= path.len() {
        None
    } else if path[k].job_status == status {
        Some(k)
    } else {
        first_status_from(path, status, k + 1)
    }
}

/// The index of the first point of `path` whose status is `status`.
pub open spec fn first_with_status(path: Seq<JobPoint>, status: JobStatus) -> Option<int> {
    first_status_from(path, status, 0)
}

proof fn lemma_first_status_from(path: Seq<JobPoint>, status: JobStatus, k: int)
    requires
        0 <= k,
    ensures
        first_status_from(path, status, k) matches Some(i) ==> (k <= i < path.len()
            && path[i].job_status == status
            && forall|j: int| k <= j < i ==> #[trigger] path[j].job_status != status),
        first_status_from(path, status, k) is None ==> forall|j: int| k <= j < path.len() ==> #[trigger] path[j].job_status != status,
    decreases path.len() - k,
{
    if k < path.len() && path[k].job_status != status {
        lemma_first_status_from(path, status, k + 1);
    }
}

proof fn lemma_first_status_skip(path: Seq<JobPoint>, status: JobStatus, i: int)
    requires
        0 <= i <= path.len(),
        forall|j: int| 0 <= j < i ==> #[trigger] path[j].job_status != status,
    ensures
        first_with_status(path, status) == first_status_from(path, status, i),
    decreases i,
{
    if i > 0 {
        lemma_first_status_skip(path, status, i - 1);
        assert(path[i - 1].job_status != status);
    }
}

/// `path` with every status `Active`.
pub open spec fn all_active(path: Seq<JobPoint>) -> Seq<JobPoint> {
    path.map_values(|p: JobPoint| JobPoint { job_status: JobStatus::Active, ..p })
}

/// `path` with the status of point `i` set to `status`.
pub open spec fn with_status(path: Seq<JobPoint>, i: int, status: JobStatus) -> Seq<JobPoint> {
    path.update(i, JobPoint { job_status: status, ..path[i] })
}

/// The first active point is active and every point before it is
/// completed; a path without active points turns fully active.
proof fn lemma_first_active(path: Seq<JobPoint>)
    ensures
        first_with_status(path, JobStatus::Active) matches Some(i) ==> (0 <= i < path.len()
            && path[i].job_status == JobStatus::Active
            && forall|j: int| 0 <= j < i ==> #[trigger] path[j].job_status == JobStatus::Completed),
        first_with_status(path, JobStatus::Active) is None && path.len() > 0 ==> all_active(path)[0].job_status
            == JobStatus::Active,
{
    lemma_first_status_from(path, JobStatus::Active, 0);
    if let Some(i) = first_with_status(path, JobStatus::Active) {
        assert forall|j: int| 0 <= j < i implies #[trigger] path[j].job_status == JobStatus::Completed by {
            assert(path[j].job_status != JobStatus::Active);
        }
    }
}

/// Finds the first point with `status`, if any.
fn find_status(path: &Vec<JobPoint>, status: JobStatus) -> (r: Option<usize>)
    ensures
        match r {
            Some(i) => first_with_status(path@, status) == Some(i as int),
            None => first_with_status(path@, status) is None,
        },
        r matches Some(i) ==> i < path@.len() && path@[i as int].job_status == status,
{
    let mut i: usize = 0;
    while i < path.len()
        invariant
            i <= path@.len(),
            forall|j: int| 0 <= j < i ==> path@[j].job_status != status,
        decreases path@.len() - i,
    {
        if path[i].job_status == status {
            proof {
                lemma_first_status_skip(path@, status, i as int);
            }
            return Some(i);
        }
        i += 1;
    }
    proof {
        lemma_first_status_skip(path@, status, i as int);
    }
    None
}

/// Points a working worker at the first point still to do in this round;
/// once every point is done, starts a new round with every point active
/// again and the first point current (index 0 also for a job without
/// points).  A paused worker's job is left alone.
pub fn worker_iterate_jobs(job: &mut Job, state: &WorkerState)
    ensures
        final(job).lock == old(job).lock,
        *state == WorkerState::Paused ==> final(job).path@ == old(job).path@ && final(job).current_job
            == old(job).current_job,
        *state == WorkerState::Working ==> match first_with_status(old(job).path@, JobStatus::Active) {
            Some(i) => final(job).path@ == old(job).path@ && final(job).current_job == Some(i as usize),
            None => final(job).path@ == all_active(old(job).path@) && final(job).current_job == Some(0usize),
        },
        // a working worker is always at the first point still to do
        *state == WorkerState::Working && old(job).path@.len() > 0 ==> (final(job).current_job matches Some(i) && i < final(job).path@.len()
            && final(job).path@[i as int].job_status == JobStatus::Active
            && forall|j: int| 0 <= j < i ==> #[trigger] final(job).path@[j].job_status == JobStatus::Completed),
{
    if *state == WorkerState::Paused {
        return;
    }
    match find_status(&job.path, JobStatus::Active) {
        Some(i) => {
            proof { lemma_first_active(job.path@); }
            job.current_job = Some(i);
        },
        None => {
            let n = job.path.len();
            let mut k: usize = 0;
            while k < n
                invariant
                    k <= n,
                    n == old(job).path@.len(),
                    job.path@.len() == n,
                    job.lock == old(job).lock,
                    forall|j: int| 0 <= j < k ==> job.path@[j] == all_active(old(job).path@)[j],
                    forall|j: int| k <= j < n ==> job.path@[j] == old(job).path@[j],
                decreases n - k,
            {
                let p = job.path[k];
                job.path.set(k, JobPoint { job_status: JobStatus::Active, ..p });
                k += 1;
            }
            assert(job.path@ =~= all_active(old(job).path@));
            proof { lemma_first_active(old(job).path@); }
            job.current_job = Some(0);
        },
    }
}

/// The point a worker heads for: the first one not yet completed.
pub open spec fn next_point(path: Seq<JobPoint>) -> Option<TilePos> {
    match first_with_status(path, JobStatus::Active) {
        Some(i) => Some(path[i].point),
        None => None,
    }
}

/// Chooses where a worker walks.  A paused worker stops.  A working worker
/// heads for its first point not yet completed: it stops when already near
/// that point, keeps a path it is following to that point (one that ends
/// near it), and otherwise takes that point as its new target and drops its
/// path so that a new one is searched.
pub fn worker_path_to_next_job(
    job: &Job,
    state: &WorkerState,
    worker_tile: Option<TilePos>,
    map_size: &TilemapSize,
    movement: &mut MoveToTile,
)
    ensures
        *state == WorkerState::Paused ==> final(movement).path is None && final(movement).path_i == 0
            && final(movement).target is None,
        *state == WorkerState::Working ==> match next_point(job.path@) {
            None => final(movement).target == old(movement).target && final(movement).path_i
                == old(movement).path_i && path_view(final(movement).path) == path_view(old(movement).path),
            Some(pt) => if worker_tile matches Some(w) && spec_is_near_tile(w, pt, *map_size) {
                final(movement).target is None && final(movement).path_i == 0 && final(movement).path is None
            } else if old(movement).path matches Some(p) && p@.len() > 0 && old(movement).target == Some(pt)
                && spec_is_near_tile(pt, p@.last(), *map_size) {
                final(movement).target == old(movement).target && final(movement).path_i
                    == old(movement).path_i && path_view(final(movement).path) == path_view(old(movement).path)
            } else {
                final(movement).target == Some(pt) && final(movement).path_i == 0 && final(movement).path is None
            },
        },
{
    if *state == WorkerState::Paused {
        movement.path = None;
        movement.path_i = 0;
        movement.target = None;
        return;
    }
    let i = match find_status(&job.path, JobStatus::Active) {
        Some(i) => i,
        None => { return; },
    };
    let point = job.path[i].point;
    if let Some(w) = worker_tile {
        if is_near_tile(w, point, map_size) {
            movement.target = None;
            movement.path_i = 0;
            movement.path = None;
            return;
        }
    }
    let keep = match &movement.path {
        Some(path) => {
            if path.len() > 0 {
                let path_target = path[path.len() - 1];
                let same_target = match movement.target {
                    Some(t) => t.x == point.x && t.y == point.y,
                    None => false,
                };
                same_target && is_near_tile(point, path_target, map_size)
            } else {
                false
            }
        },
        None => false,
    };
    if keep {
        return;
    }
    movement.target = Some(point);
    movement.path_i = 0;
    movement.path = None;
}

/// The request that an active point's action makes of the game.
pub open spec fn action_command(action: JobAction, worker: EntityId, tile: TilePos) -> JobCommand {
    match action {
        JobAction::Work { assembly } => JobCommand::PowerAssembly { assembly, worker },
        JobAction::Pickup { item } => JobCommand::PickUpItem { item, worker, tile_pos: tile },
        JobAction::ContainerPickup { container, .. } => JobCommand::PickUpFromContainer { container, worker, tile_pos: tile },
        JobAction::Drop { worker: holder, input_container } => JobCommand::DropFrom { holder, worker, input_container },
        JobAction::Idle => JobCommand::Nothing,
    }
}

/// Whether the worker stands near the current point of its unlocked job:
/// the point whose clock ticks and whose action may be carried out.
pub open spec fn at_current_point(job: Job, worker_tile: Option<TilePos>, map_size: TilemapSize) -> bool {
    &&& !job.lock
    &&& worker_tile is Some
    &&& job.current_job matches Some(i) && i < job.path@.len()
    &&& spec_is_near_tile(worker_tile.unwrap(), job.path@[job.current_job.unwrap() as int].point, map_size)
}

/// Whether the current point's clock (ticked by the application this
/// frame) has run out, so that `worker_do_job` restarts it.
pub open spec fn timer_runs_out(job: Job, worker_tile: Option<TilePos>, map_size: TilemapSize) -> bool {
    &&& at_current_point(job, worker_tile, map_size)
    &&& job.path@[job.current_job.unwrap() as int].timer matches Some(t) && t.finished
}

/// The path after the current point's clock is restarted, when it ran out.
pub open spec fn timer_reset_path(job: Job, worker_tile: Option<TilePos>, map_size: TilemapSize) -> Seq<JobPoint> {
    if timer_runs_out(job, worker_tile, map_size) {
        let i = job.current_job.unwrap() as int;
        let p = job.path@[i];
        job.path@.update(i, JobPoint { timer: Some(reset_timer(p.timer.unwrap())), ..p })
    } else {
        job.path@
    }
}

/// Whether `worker_do_job` acts on the current point: the worker is at it
/// (see `at_current_point`), its clock (if any) has run out, and it is
/// still active.
pub open spec fn job_point_due(job: Job, worker_tile: Option<TilePos>, map_size: TilemapSize) -> bool {
    &&& at_current_point(job, worker_tile, map_size)
    &&& (job.path@[job.current_job.unwrap() as int].timer matches Some(t) ==> t.finished)
    &&& job.path@[job.current_job.unwrap() as int].job_status == JobStatus::Active
}

/// The index of the point whose clock the application ticks this frame:
/// the current point, when the worker is at it and it has a clock.
pub fn job_timer_to_tick(job: &Job, worker_tile: Option<TilePos>, map_size: &TilemapSize) -> (i: Option<usize>)
    ensures
        i == if at_current_point(*job, worker_tile, *map_size) && job.path@[job.current_job.unwrap() as int].timer is Some {
            job.current_job
        } else {
            None::<usize>
        },
{
    if job.lock {
        return None;
    }
    let (tile, i) = match (worker_tile, job.current_job) {
        (Some(t), Some(i)) => (t, i),
        _ => { return None; },
    };
    if i >= job.path.len() {
        return None;
    }
    let current = job.path[i];
    if !is_near_tile(tile, current.point, map_size) {
        return None;
    }
    match current.timer {
        Some(_) => Some(i),
        None => None,
    }
}

/// Carries out the current point of `worker`'s job when it is due (see
/// `job_point_due`): an idle point is completed at once, any other action
/// becomes a request to the game.  A point with a clock waits until the
/// clock, ticked by the application while the worker stands at the point,
/// has run out; the clock then restarts, whether or not the point is still
/// active.
pub fn worker_do_job(
    job: &mut Job,
    worker: EntityId,
    worker_tile: Option<TilePos>,
    map_size: &TilemapSize,
) -> (command: JobCommand)
    requires
        old(job).current_job != Some(usize::MAX),
    ensures
        final(job).lock == old(job).lock,
        final(job).current_job == old(job).current_job,
        job_point_due(*old(job), worker_tile, *map_size) ==> {
            let i = old(job).current_job.unwrap() as int;
            let p = old(job).path@[i];
            &&& command == action_command(p.action, worker, worker_tile.unwrap())
            &&& final(job).path@ == if p.action == JobAction::Idle {
                with_status(timer_reset_path(*old(job), worker_tile, *map_size), i, JobStatus::Completed)
            } else {
                timer_reset_path(*old(job), worker_tile, *map_size)
            }
        },
        !job_point_due(*old(job), worker_tile, *map_size) ==> command == JobCommand::Nothing
            && final(job).path@ == timer_reset_path(*old(job), worker_tile, *map_size),
{
    if job.lock {
        return JobCommand::Nothing;
    }
    let (tile, i) = match (worker_tile, job.current_job) {
        (Some(t), Some(i)) => (t, i),
        _ => { return JobCommand::Nothing; },
    };
    if job.path.len() < i + 1 {
        return JobCommand::Nothing;
    }
    let mut current = job.path[i];
    if !is_near_tile(tile, current.point, map_size) {
        return JobCommand::Nothing;
    }
    if let Some(t) = current.timer {
        if !t.finished {
            return JobCommand::Nothing;
        }
        current = JobPoint {
            timer: Some(PointTimer { elapsed_nanos: 0, finished: false, times_finished_this_tick: 0, ..t }),
            ..current
        };
        job.path.set(i, current);
    }
    if current.job_status != JobStatus::Active {
        return JobCommand::Nothing;
    }
    match current.action {
        JobAction::Work { assembly } => JobCommand::PowerAssembly { assembly, worker },
        JobAction::Idle => {
            job.path.set(i, JobPoint { job_status: JobStatus::Completed, ..current });
            JobCommand::Nothing
        },
        JobAction::Pickup { item } => JobCommand::PickUpItem { item, worker, tile_pos: tile },
        JobAction::ContainerPickup { container, pickup_amount: _ } => JobCommand::PickUpFromContainer {
            container,
            worker,
            tile_pos: tile,
        },
        JobAction::Drop { worker: holder, input_container } => JobCommand::DropFrom {
            holder,
            worker,
            input_container,
        },
    }
}

/// Flips a worker between working and paused.
pub fn toggle_worker_state(state: &mut WorkerState)
    ensures
        *final(state) == if *old(state) == WorkerState::Working { WorkerState::Paused } else { WorkerState::Working },
{
    if *state == WorkerState::Working {
        *state = WorkerState::Paused;
    } else {
        *state = WorkerState::Working;
    }
}

/// Marks point `i` of the job with `status`, when the job has such a point;
/// reports whether it had.
pub fn set_current_status(job: &mut Job, i: usize, status: JobStatus) -> (found: bool)
    ensures
        found == (i < old(job).path@.len()),
        final(job).current_job == old(job).current_job,
        final(job).lock == old(job).lock,
        found ==> final(job).path@ == with_status(old(job).path@, i as int, status),
        !found ==> final(job).path@ == old(job).path@,
{
    if i < job.path.len() {
        let p = job.path[i];
        job.path.set(i, JobPoint { job_status: status, ..p });
        true
    } else {
        false
    }
}

/// What the player clicked while editing a worker's job.
#[derive(Clone, Copy, PartialEq, Eq, Structural, Debug)]
pub enum ClickTarget {
    /// An assembly, with the tile of its corner when that lies on the map.
    Assembly { assembly: EntityId, corner_tile: Option<TilePos> },
    /// The input arrow of the container `parent`.
    InputSelector { parent: EntityId },
    /// The output arrow of the container `parent`.
    OutputSelector { parent: EntityId },
    /// An item.
    Item { item: EntityId },
    /// Anything else.
    Other,
}

/// The point that a click adds to the job of `worker`: nothing clicked
/// waits at the cursor's tile; an assembly is worked at its corner tile; an
/// input arrow drops what the worker holds into that container; an output
/// arrow picks one item up from that container; an item is picked up.
pub open spec fn clicked_point(click: Option<ClickTarget>, worker: EntityId, mouse_tile: TilePos) -> Option<JobPoint> {
    match click {
        None => Some(JobPoint {
            point: mouse_tile,
            job_status: JobStatus::Active,
            action: JobAction::Idle,
            timer: Some(fresh_timer(IDLE_WAIT_NANOS)),
        }),
        Some(ClickTarget::Assembly { assembly, corner_tile }) => match corner_tile {
            Some(t) => Some(JobPoint { point: t, job_status: JobStatus::Active, action: JobAction::Work { assembly }, timer: None }),
            None => None,
        },
        Some(ClickTarget::InputSelector { parent }) => Some(JobPoint {
            point: mouse_tile,
            job_status: JobStatus::Active,
            action: JobAction::Drop { worker, input_container: Some(parent) },
            timer: None,
        }),
        Some(ClickTarget::OutputSelector { parent }) => Some(JobPoint {
            point: mouse_tile,
            job_status: JobStatus::Active,
            action: JobAction::ContainerPickup { container: parent, pickup_amount: 1 },
            timer: None,
        }),
        Some(ClickTarget::Item { item }) => Some(JobPoint {
            point: mouse_tile,
            job_status: JobStatus::Active,
            action: JobAction::Pickup { item },
            timer: None,
        }),
        Some(ClickTarget::Other) => None,
    }
}

/// Adds to the job of `worker` the point that the player's click asks for
/// (see `clicked_point`); reports the point added.
pub fn job_mode_creation(job: &mut Job, worker: EntityId, click: Option<ClickTarget>, mouse_tile: TilePos) -> (added: Option<JobPoint>)
    ensures
        added == clicked_point(click, worker, mouse_tile),
        final(job).current_job == old(job).current_job,
        final(job).lock == old(job).lock,
        final(job).path@ == match added {
            Some(p) => old(job).path@.push(p),
            None => old(job).path@,
        },
{
    let point = match click {
        None => Some(JobPoint {
            point: mouse_tile,
            job_status: JobStatus::Active,
            action: JobAction::Idle,
            timer: Some(PointTimer { duration_nanos: IDLE_WAIT_NANOS, elapsed_nanos: 0, finished: false, times_finished_this_tick: 0 }),
        }),
        Some(ClickTarget::Assembly { assembly, corner_tile }) => match corner_tile {
            Some(t) => Some(JobPoint { point: t, job_status: JobStatus::Active, action: JobAction::Work { assembly }, timer: None }),
            None => None,
        },
        Some(ClickTarget::InputSelector { parent }) => Some(JobPoint {
            point: mouse_tile,
            job_status: JobStatus::Active,
            action: JobAction::Drop { worker, input_container: Some(parent) },
            timer: None,
        }),
        Some(ClickTarget::OutputSelector { parent }) => Some(JobPoint {
            point: mouse_tile,
            job_status: JobStatus::Active,
            action: JobAction::ContainerPickup { container: parent, pickup_amount: 1 },
            timer: None,
        }),
        Some(ClickTarget::Item { item }) => Some(JobPoint {
            point: mouse_tile,
            job_status: JobStatus::Active,
            action: JobAction::Pickup { item },
            timer: None,
        }),
        Some(ClickTarget::Other) => None,
    };
    if let Some(p) = point {
        job.path.push(p);
    }
    point
}

/// Clicking workers while no mode is active selects the last worker
/// clicked and opens the job editor (the result is `true`); without a
/// worker click nothing changes.
pub fn activate_job_mode_on_click(selection: &mut SelectedWorker, clicked_workers: &Vec<EntityId>) -> (open_jobs: bool)
    ensures
        open_jobs == (clicked_workers@.len() > 0),
        open_jobs ==> final(selection).selected == Some(clicked_workers@.last()),
        !open_jobs ==> final(selection).selected == old(selection).selected,
{
    let n = clicked_workers.len();
    if n == 0 {
        return false;
    }
    selection.selected = Some(clicked_workers[n - 1]);
    true
}

/// Deletes from the job every point equal to the one whose marker the
/// player right-clicked.  The current point index is left as it is.
pub fn remove_job_point_click(job: &mut Job, marker_point: &JobPoint)
    ensures
        final(job).path@ == old(job).path@.filter(|p: JobPoint| p != *marker_point),
        final(job).current_job == old(job).current_job,
        final(job).lock == old(job).lock,
{
    let mut kept: Vec<JobPoint> = Vec::new();
    let mut i: usize = 0;
    while i < job.path.len()
        invariant
            i <= job.path@.len(),
            job.path@ == old(job).path@,
            kept@ == old(job).path@.take(i as int).filter(|p: JobPoint| p != *marker_point),
        decreases job.path@.len() - i,
    {
        proof {
            reveal_with_fuel(Seq::filter, 1);
            assert(old(job).path@.take(i + 1).drop_last() =~= old(job).path@.take(i as int));
        }
        let p = job.path[i];
        if p != *marker_point {
            kept.push(p);
        }
        i += 1;
    }
    proof {
        assert(old(job).path@.take(i as int) =~= old(job).path@);
    }
    job.path = kept;
}

} // verus!
