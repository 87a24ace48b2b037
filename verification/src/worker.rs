use vstd::prelude::*;
use crate::container::{EntityId, ItemContainer, add_error};
use crate::items::Item;
use crate::tiles::{TilePos, TilemapSize, is_near_tile, spec_is_near_tile};
use crate::jobs::{Job, JobPoint, JobStatus, set_current_status, with_status};
use crate::job_error::JobError;

verus! {

broadcast use vstd::seq_lib::group_to_multiset_ensures, vstd::multiset::group_multiset_axioms;

/// The items that workers are on their way to pick up; an item may be
/// listed once per worker heading for it.
pub struct ItemJobLock {
    pub items: Vec<EntityId>,
}

/// A worker, standing on `tile_pos`, wants to pick up `item`, taking it out
/// of `container` when it lies in one.
pub struct WorkerPickUpItemEvent {
    pub worker: EntityId,
    pub item: EntityId,
    pub tile_pos: TilePos,
    pub container: Option<EntityId>,
}

/// A worker wants to put `item` into `container`.
pub struct WorkerDropItemEvent {
    pub worker: EntityId,
    pub item: EntityId,
    pub container: Option<EntityId>,
}

/// How a pick-up request ended.
#[derive(Clone, Copy, PartialEq, Eq, Structural, Debug)]
pub enum PickUpOutcome {
    /// The item no longer exists.
    ItemMissing,
    /// The worker already holds the item.
    AlreadyHeld,
    /// The worker stands off the map.
    WorkerOffMap,
    /// The worker is not near the item's tile.
    TooFar,
    /// The worker's container refused the item.
    Rejected,
    /// The item is now in the worker's container.
    PickedUp,
}

/// What kind of container a drop request names.
#[derive(Clone, Copy, PartialEq, Eq, Structural, Debug)]
pub enum DropTarget {
    /// The request names no container.
    NoContainer,
    /// A plain item container.
    Container,
    /// The input of an assembly.
    AssemblyInput,
    /// An entity that holds no container.
    Other,
}

/// How a drop request ended.
#[derive(Clone, Copy, PartialEq, Eq, Structural, Debug)]
pub enum DropOutcome {
    /// The request was refused; the error says why.
    Refused,
    /// The named entity holds no container; nothing happened.
    Ignored,
    /// The item moved from the worker into the container.
    Dropped,
    /// The container refused the item and the worker took it back.
    Returned,
    /// The container refused the item and so did the worker.
    Lost,
}

pub open spec fn count_of<A>(s: Seq<A>, x: A) -> nat {
    s.to_multiset().count(x)
}

/// The lock list after one entry of `item` is released: its first
/// occurrence is removed.
pub open spec fn released(items: Seq<EntityId>, item: EntityId) -> Seq<EntityId> {
    items.remove_value(item)
}

/// The lock list after duplicate locks on `item` are trimmed: when the
/// item is listed more than once, one entry goes.
pub open spec fn trimmed(items: Seq<EntityId>, item: EntityId) -> Seq<EntityId> {
    if count_of(items, item) > 1 { items.remove_value(item) } else { items }
}

pub(crate) proof fn lemma_remove_value_count<A>(s: Seq<A>, x: A)
    ensures
        s.contains(x) ==> count_of(s.remove_value(x), x) + 1 == count_of(s, x),
        !s.contains(x) ==> s.remove_value(x) == s,
        forall|y: A| y != x ==> #[trigger] count_of(s.remove_value(x), y) == count_of(s, y),
{
    s.index_of_first_ensures(x);
    if s.contains(x) {
        let i = s.index_of_first(x).unwrap();
        assert(s.remove(i).to_multiset() == s.to_multiset().remove(s[i]));
    }
}

impl ItemJobLock {
    /// How many locks `item` has.
    pub fn count(&self, item: EntityId) -> (n: usize)
        ensures
            n == count_of(self.items@, item),
    {
        let mut n: usize = 0;
        let mut i: usize = 0;
        while i < self.items.len()
            invariant
                i <= self.items@.len(),
                n <= i,
                n == count_of(self.items@.take(i as int), item),
            decreases self.items@.len() - i,
        {
            proof {
                assert(self.items@.take(i + 1) =~= self.items@.take(i as int).push(self.items@[i as int]));
            }
            if self.items[i] == item {
                n = n + 1;
            }
            i += 1;
        }
        proof {
            assert(self.items@.take(i as int) =~= self.items@);
        }
        n
    }

    /// Releases one lock on `item` (its first entry), if it has any.
    pub fn release(&mut self, item: EntityId)
        ensures
            final(self).items@ == released(old(self).items@, item),
    {
        let mut i: usize = 0;
        while i < self.items.len()
            invariant
                i <= self.items@.len(),
                self.items@ == old(self).items@,
                forall|j: int| 0 <= j < i ==> self.items@[j] != item,
            decreases self.items@.len() - i,
        {
            if self.items[i] == item {
                proof {
                    self.items@.index_of_first_ensures(item);
                    let k = self.items@.index_of_first(item).unwrap();
                    assert(k == i);
                }
                self.items.remove(i);
                return;
            }
            i += 1;
        }
        proof {
            self.items@.index_of_first_ensures(item);
        }
    }

    /// Drops a duplicate lock on `item`: when it is listed more than once,
    /// its first entry goes.
    pub fn trim(&mut self, item: EntityId)
        ensures
            final(self).items@ == trimmed(old(self).items@, item),
    {
        if self.count(item) > 1 {
            self.release(item);
        }
    }
}

/// `job` after the status of its current point is set to `status`; a
/// job whose current point is unknown or missing is unchanged.
pub open spec fn marked(job: Job, status: JobStatus) -> Seq<JobPoint> {
    match job.current_job {
        Some(i) => if i < job.path@.len() { with_status(job.path@, i as int, status) } else { job.path@ },
        None => job.path@,
    }
}

/// Whether the job's current point exists.
pub open spec fn has_current(job: Job) -> bool {
    job.current_job matches Some(i) && i < job.path@.len()
}

/// `b` is `a` with both flags lowered and the error message emptied.
pub open spec fn cleared(a: JobError, b: JobError) -> bool {
    &&& !b.error
    &&& !b.warning
    &&& b.message@ == Seq::<char>::empty()
    &&& b.warn_message@ == a.warn_message@
    &&& b.job_index == a.job_index
}

/// `b` is `a`.
pub open spec fn same_error(a: JobError, b: JobError) -> bool {
    &&& b.error == a.error
    &&& b.warning == a.warning
    &&& b.message@ == a.message@
    &&& b.warn_message@ == a.warn_message@
    &&& b.job_index == a.job_index
}

/// `b` is `a` with the warning raised with `msg`.
pub open spec fn warned(a: JobError, b: JobError, msg: Seq<char>) -> bool {
    &&& b.error == a.error
    &&& b.warning
    &&& b.message@ == a.message@
    &&& b.warn_message@ == msg
    &&& b.job_index == a.job_index
}

/// `b` is `a` with the error raised with `msg`.
pub open spec fn errored(a: JobError, b: JobError, msg: Seq<char>) -> bool {
    &&& b.error
    &&& b.warning == a.warning
    &&& b.message@ == msg
    &&& b.warn_message@ == a.warn_message@
    &&& b.job_index == a.job_index
}

/// `b` is the job after the current point was marked with `status`, and
/// the error record after it: cleared when `clear` and the point exists.
pub open spec fn job_marked(a: Job, b: Job, status: JobStatus) -> bool {
    &&& b.path@ == marked(a, status)
    &&& b.current_job == a.current_job
    &&& b.lock == a.lock
}

pub open spec fn same_job(a: Job, b: Job) -> bool {
    &&& b.path@ == a.path@
    &&& b.current_job == a.current_job
    &&& b.lock == a.lock
}

/// The outcome of a pick-up request once the worker was found: see
/// `worker_pick_up_item`.
pub open spec fn pick_up_outcome(
    held: Seq<Option<EntityId>>,
    max_items: nat,
    accepted: Option<Item>,
    item: EntityId,
    item_type: Option<Item>,
    worker_tile: Option<TilePos>,
    item_tile: TilePos,
    map_size: TilemapSize,
) -> PickUpOutcome {
    if item_type is None {
        PickUpOutcome::ItemMissing
    } else if held.contains(Some(item)) {
        PickUpOutcome::AlreadyHeld
    } else if worker_tile is None {
        PickUpOutcome::WorkerOffMap
    } else if !spec_is_near_tile(worker_tile.unwrap(), item_tile, map_size) {
        PickUpOutcome::TooFar
    } else if add_error(held.len(), max_items, accepted, item_type) is Some {
        PickUpOutcome::Rejected
    } else {
        PickUpOutcome::PickedUp
    }
}

/// A worker handles a request to pick up `ev.item`, whose type is
/// `item_type` (`None` once the item is gone), while standing on
/// `worker_tile`.
///
/// Duplicate locks on the item are trimmed first and one lock is released
/// at the end, whatever the outcome.  A missing item raises the warning
/// "Item not found".  An item already held, or one just picked up,
/// completes the worker's current point and clears its error; an item out
/// of reach makes the current point active again; an item the worker's
/// container refuses completes the current point (so that the worker moves
/// on).  The application, on `PickedUp`, attaches the item to the worker
/// and takes it out of `ev.container`.
pub fn worker_pick_up_item(
    locked: &mut ItemJobLock,
    ev: &WorkerPickUpItemEvent,
    worker_container: &mut ItemContainer,
    job: &mut Job,
    job_error: &mut JobError,
    item_type: Option<Item>,
    worker_tile: Option<TilePos>,
    map_size: &TilemapSize,
) -> (outcome: PickUpOutcome)
    ensures
        final(locked).items@ == released(trimmed(old(locked).items@, ev.item), ev.item),
        outcome == pick_up_outcome(old(worker_container).items@, old(worker_container).max_items as nat,
            old(worker_container).item_type, ev.item, item_type, worker_tile, ev.tile_pos, *map_size),
        final(worker_container).max_items == old(worker_container).max_items,
        final(worker_container).item_type == old(worker_container).item_type,
        final(worker_container).width == old(worker_container).width,
        outcome == PickUpOutcome::PickedUp ==> final(worker_container).items@ == old(worker_container).items@.push(Some(ev.item)),
        outcome != PickUpOutcome::PickedUp ==> final(worker_container).items@ == old(worker_container).items@,
        outcome == PickUpOutcome::ItemMissing ==> same_job(*old(job), *final(job))
            && warned(*old(job_error), *final(job_error), "Item not found"@),
        (outcome == PickUpOutcome::AlreadyHeld || outcome == PickUpOutcome::PickedUp) ==> job_marked(*old(job), *final(job), JobStatus::Completed)
            && (if has_current(*old(job)) { cleared(*old(job_error), *final(job_error)) } else { same_error(*old(job_error), *final(job_error)) }),
        outcome == PickUpOutcome::WorkerOffMap ==> same_job(*old(job), *final(job)) && same_error(*old(job_error), *final(job_error)),
        outcome == PickUpOutcome::TooFar ==> job_marked(*old(job), *final(job), JobStatus::Active)
            && same_error(*old(job_error), *final(job_error)),
        outcome == PickUpOutcome::Rejected ==> job_marked(*old(job), *final(job), JobStatus::Completed)
            && same_error(*old(job_error), *final(job_error)),
{
    locked.trim(ev.item);
    let item_type = match item_type {
        Some(t) => t,
        None => {
            job_error.set_warning("Item not found");
            locked.release(ev.item);
            return PickUpOutcome::ItemMissing;
        },
    };
    if contains_entity(&worker_container.items, Some(ev.item)) {
        if let Some(i) = job.current_job {
            if set_current_status(job, i, JobStatus::Completed) {
                job_error.clear_error();
            }
        }
        locked.release(ev.item);
        return PickUpOutcome::AlreadyHeld;
    }
    let tile = match worker_tile {
        Some(t) => t,
        None => {
            locked.release(ev.item);
            return PickUpOutcome::WorkerOffMap;
        },
    };
    if !is_near_tile(tile, ev.tile_pos, map_size) {
        if let Some(i) = job.current_job {
            set_current_status(job, i, JobStatus::Active);
        }
        locked.release(ev.item);
        return PickUpOutcome::TooFar;
    }
    if worker_container.add_item((Some(ev.item), Some(item_type))).is_err() {
        if let Some(i) = job.current_job {
            set_current_status(job, i, JobStatus::Completed);
        }
        locked.release(ev.item);
        return PickUpOutcome::Rejected;
    }
    if let Some(i) = job.current_job {
        if set_current_status(job, i, JobStatus::Completed) {
            job_error.clear_error();
        }
    }
    locked.release(ev.item);
    PickUpOutcome::PickedUp
}

/// Whether `items` holds `e`.
pub fn contains_entity(items: &Vec<Option<EntityId>>, e: Option<EntityId>) -> (found: bool)
    ensures
        found == items@.contains(e),
{
    let mut i: usize = 0;
    while i < items.len()
        invariant
            i <= items@.len(),
            forall|j: int| 0 <= j < i ==> items@[j] != e,
        decreases items@.len() - i,
    {
        let same = match (items[i], e) {
            (Some(a), Some(b)) => a == b,
            (None, None) => true,
            _ => false,
        };
        if same {
            return true;
        }
        i += 1;
    }
    false
}

/// A handled pick-up request takes two locks off its item when it had two
/// or more (the duplicate and its own) and leaves none when it had one;
/// the locks of other items are untouched.
pub proof fn lemma_pick_up_releases_locks(items: Seq<EntityId>, item: EntityId)
    ensures
        count_of(released(trimmed(items, item), item), item) == if count_of(items, item) >= 2 {
            (count_of(items, item) - 2) as nat
        } else {
            0
        },
        forall|other: EntityId| other != item ==> #[trigger] count_of(released(trimmed(items, item), item), other)
            == count_of(items, other),
{
    let t = trimmed(items, item);
    lemma_remove_value_count(items, item);
    lemma_remove_value_count(t, item);
    if count_of(items, item) > 0 {
        assert(items.to_multiset().count(item) > 0);
        assert(items.contains(item));
    }
    if count_of(t, item) > 0 {
        assert(t.contains(item));
    } else {
        if t.contains(item) {
            let k = choose|k: int| 0 <= k < t.len() && t[k] == item;
            assert(t.to_multiset().count(t[k]) > 0);
        }
    }
}

/// The message of the warning raised when a container refuses a dropped
/// item.
pub open spec fn add_warning(err: &'static str) -> Seq<char> {
    "Error adding item to container: "@ + err@
}

/// The message of the error raised when the worker cannot take back an
/// item the container refused.
pub open spec fn take_back_error(err: &'static str) -> Seq<char> {
    "Error picking item back up: "@ + err@
}

/// A worker handles a request to put `item` (of type `item_type`, `None`
/// once the item is gone) into the container the request names, of kind
/// `target_kind`; `target` is that container (or, for the other kinds, a
/// container that is left alone).
///
/// A request without container, or for an item that is gone, raises the
/// error "Item or Container not found"; an item the worker does not hold
/// raises "Item not found in worker"; an item the container already holds
/// raises "Item already in container" (or "... in assembly" for an
/// assembly input).  Otherwise the item leaves the worker for the
/// container; when the container refuses it the warning says why and the
/// worker takes it back (an error says why when that fails too).  A
/// successful drop completes the worker's current point and clears its
/// error.
pub fn worker_drop_item(
    worker_container: &mut ItemContainer,
    job: &mut Job,
    job_error: &mut JobError,
    item: EntityId,
    item_type: Option<Item>,
    target_kind: DropTarget,
    target: &mut ItemContainer,
) -> (outcome: DropOutcome)
    ensures
        final(worker_container).max_items == old(worker_container).max_items,
        final(worker_container).item_type == old(worker_container).item_type,
        final(worker_container).width == old(worker_container).width,
        final(target).max_items == old(target).max_items,
        final(target).item_type == old(target).item_type,
        final(target).width == old(target).width,
        final(job).current_job == old(job).current_job,
        final(job).lock == old(job).lock,
        (target_kind == DropTarget::NoContainer || item_type is None) ==> outcome == DropOutcome::Refused
            && errored(*old(job_error), *final(job_error), "Item or Container not found"@),
        !(target_kind == DropTarget::NoContainer || item_type is None) && !old(worker_container).items@.contains(Some(item))
            ==> outcome == DropOutcome::Refused && errored(*old(job_error), *final(job_error), "Item not found in worker"@),
        !(target_kind == DropTarget::NoContainer || item_type is None) && old(worker_container).items@.contains(Some(item)) ==> {
            if target_kind == DropTarget::Other {
                outcome == DropOutcome::Ignored && same_error(*old(job_error), *final(job_error))
            } else if old(target).items@.contains(Some(item)) {
                outcome == DropOutcome::Refused && errored(*old(job_error), *final(job_error),
                    if target_kind == DropTarget::Container { "Item already in container"@ } else { "Item already in assembly"@ })
            } else {
                let removed = old(worker_container).items@.remove_value(Some(item));
                match add_error(old(target).items@.len(), old(target).max_items as nat, old(target).item_type, item_type) {
                    None => outcome == DropOutcome::Dropped
                        && final(target).items@ == old(target).items@.push(Some(item))
                        && final(worker_container).items@ == removed
                        && final(job).path@ == marked(*old(job), JobStatus::Completed)
                        && (if has_current(*old(job)) { cleared(*old(job_error), *final(job_error)) } else { same_error(*old(job_error), *final(job_error)) }),
                    Some(e) => final(target).items@ == old(target).items@ && match add_error(removed.len(), old(worker_container).max_items as nat, old(worker_container).item_type, item_type) {
                        None => outcome == DropOutcome::Returned
                            && final(worker_container).items@ == removed.push(Some(item))
                            && warned(*old(job_error), *final(job_error), add_warning(e)),
                        Some(e2) => outcome == DropOutcome::Lost
                            && final(worker_container).items@ == removed
                            && final(job_error).error && final(job_error).message@ == take_back_error(e2)
                            && final(job_error).warning && final(job_error).warn_message@ == add_warning(e),
                    },
                }
            }
        },
        outcome != DropOutcome::Dropped ==> final(job).path@ == old(job).path@,
        (outcome == DropOutcome::Refused || outcome == DropOutcome::Ignored) ==> final(worker_container).items@
            == old(worker_container).items@ && final(target).items@ == old(target).items@,
        (target_kind == DropTarget::NoContainer || target_kind == DropTarget::Other) ==> final(target).items@ == old(target).items@,
{
    if target_kind == DropTarget::NoContainer || item_type.is_none() {
        job_error.set_error("Item or Container not found");
        return DropOutcome::Refused;
    }
    if !contains_entity(&worker_container.items, Some(item)) {
        job_error.set_error("Item not found in worker");
        return DropOutcome::Refused;
    }
    if target_kind == DropTarget::Other {
        return DropOutcome::Ignored;
    }
    if contains_entity(&target.items, Some(item)) {
        if target_kind == DropTarget::Container {
            job_error.set_error("Item already in container");
        } else {
            job_error.set_error("Item already in assembly");
        }
        return DropOutcome::Refused;
    }
    let removed = worker_container.remove_item(Some(item));
    if let Err(err) = removed {
        job_error.set_error(err);
        return DropOutcome::Refused;
    }
    match target.add_item((Some(item), item_type)) {
        Err(err) => {
            let mut warning = "Error adding item to container: ".to_owned();
            warning.append(err);
            job_error.set_warning(warning.as_str());
            match worker_container.add_item((Some(item), item_type)) {
                Err(err2) => {
                    let mut message = "Error picking item back up: ".to_owned();
                    message.append(err2);
                    job_error.set_error(message.as_str());
                    DropOutcome::Lost
                },
                Ok(()) => DropOutcome::Returned,
            }
        },
        Ok(()) => {
            if let Some(i) = job.current_job {
                if set_current_status(job, i, JobStatus::Completed) {
                    job_error.clear_error();
                }
            }
            DropOutcome::Dropped
        },
    }
}

/// A drop never creates a copy of the item: the occurrences of the item in
/// the worker's and the container's lists together never grow, and they
/// stay the same unless both refused it.
pub proof fn lemma_drop_conserves_item(
    held: Seq<Option<EntityId>>,
    stored: Seq<Option<EntityId>>,
    item: Option<EntityId>,
)
    requires
        held.contains(item),
        !stored.contains(item),
    ensures
        count_of(held.remove_value(item), item) + count_of(stored.push(item), item)
            == count_of(held, item) + count_of(stored, item),
        count_of(held.remove_value(item).push(item), item) + count_of(stored, item)
            == count_of(held, item) + count_of(stored, item),
        count_of(held.remove_value(item), item) + count_of(stored, item) + 1
            == count_of(held, item) + count_of(stored, item),
{
    lemma_remove_value_count(held, item);
    assert(stored.push(item).to_multiset() =~= stored.to_multiset().insert(item));
    assert(held.remove_value(item).push(item).to_multiset() =~= held.remove_value(item).to_multiset().insert(item));
}

} // verus!
