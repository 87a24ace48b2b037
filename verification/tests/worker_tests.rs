use industrial_evolution::container::ItemContainer;
use industrial_evolution::items::{GoodItem, Item, ResourceItem};
use industrial_evolution::job_error::JobError;
use industrial_evolution::jobs::{Job, JobAction, JobPoint, JobStatus};
use industrial_evolution::tiles::{TilePos, TilemapSize};
use industrial_evolution::worker::{
    contains_entity, worker_drop_item, worker_pick_up_item, DropOutcome, DropTarget, ItemJobLock, PickUpOutcome,
    WorkerPickUpItemEvent,
};

const MAP: TilemapSize = TilemapSize { x: 10, y: 10 };

fn t(x: u32, y: u32) -> TilePos {
    TilePos { x, y }
}

fn wood() -> Option<Item> {
    Some(Item::Resource(ResourceItem::Wood))
}

fn one_point_job(status: JobStatus) -> Job {
    Job {
        path: vec![JobPoint { point: t(2, 2), job_status: status, action: JobAction::Pickup { item: 5 }, timer: None }],
        current_job: Some(0),
        lock: false,
    }
}

fn event(item: u64) -> WorkerPickUpItemEvent {
    WorkerPickUpItemEvent { worker: 1, item, tile_pos: t(2, 2), container: None }
}

#[test]
fn lock_counts_release_and_trim() {
    let mut lock = ItemJobLock { items: vec![5, 6, 5, 5] };
    assert_eq!(lock.count(5), 3);
    assert_eq!(lock.count(7), 0);
    lock.trim(5);
    assert_eq!(lock.items, vec![6, 5, 5]);
    lock.release(5);
    assert_eq!(lock.items, vec![6, 5]);
    lock.trim(5);
    assert_eq!(lock.items, vec![6, 5]);
    lock.release(9);
    assert_eq!(lock.items, vec![6, 5]);
}

#[test]
fn pick_up_succeeds() {
    let mut lock = ItemJobLock { items: vec![5, 5, 8] };
    let mut held = ItemContainer::new(1);
    let mut job = one_point_job(JobStatus::Active);
    let mut err = JobError::new();
    err.set_error("old");
    let out = worker_pick_up_item(&mut lock, &event(5), &mut held, &mut job, &mut err, wood(), Some(t(3, 3)), &MAP);
    assert_eq!(out, PickUpOutcome::PickedUp);
    assert_eq!(held.items, vec![Some(5)]);
    assert_eq!(job.path[0].job_status, JobStatus::Completed);
    assert!(!err.error);
    assert_eq!(err.message, "");
    // two locks of the item went: the duplicate and its own
    assert_eq!(lock.items, vec![8]);
}

#[test]
fn pick_up_missing_item_warns() {
    let mut lock = ItemJobLock { items: vec![5] };
    let mut held = ItemContainer::new(1);
    let mut job = one_point_job(JobStatus::Active);
    let mut err = JobError::new();
    let out = worker_pick_up_item(&mut lock, &event(5), &mut held, &mut job, &mut err, None, Some(t(2, 2)), &MAP);
    assert_eq!(out, PickUpOutcome::ItemMissing);
    assert!(err.warning);
    assert_eq!(err.warn_message, "Item not found");
    assert_eq!(job.path[0].job_status, JobStatus::Active);
    assert!(lock.items.is_empty());
}

#[test]
fn pick_up_already_held() {
    let mut lock = ItemJobLock { items: vec![] };
    let mut held = ItemContainer::new(2);
    held.items.push(Some(5));
    let mut job = one_point_job(JobStatus::Active);
    let mut err = JobError::new();
    let out = worker_pick_up_item(&mut lock, &event(5), &mut held, &mut job, &mut err, wood(), Some(t(9, 9)), &MAP);
    assert_eq!(out, PickUpOutcome::AlreadyHeld);
    assert_eq!(held.items, vec![Some(5)]);
    assert_eq!(job.path[0].job_status, JobStatus::Completed);
}

#[test]
fn pick_up_off_map_or_too_far() {
    let mut lock = ItemJobLock { items: vec![5] };
    let mut held = ItemContainer::new(1);
    let mut job = one_point_job(JobStatus::Completed);
    let mut err = JobError::new();
    let out = worker_pick_up_item(&mut lock, &event(5), &mut held, &mut job, &mut err, wood(), None, &MAP);
    assert_eq!(out, PickUpOutcome::WorkerOffMap);
    assert_eq!(job.path[0].job_status, JobStatus::Completed);
    let out = worker_pick_up_item(&mut lock, &event(5), &mut held, &mut job, &mut err, wood(), Some(t(6, 6)), &MAP);
    assert_eq!(out, PickUpOutcome::TooFar);
    assert_eq!(job.path[0].job_status, JobStatus::Active);
    assert!(held.items.is_empty());
}

#[test]
fn pick_up_rejected_by_full_container() {
    let mut lock = ItemJobLock { items: vec![5] };
    let mut held = ItemContainer::new(1);
    held.items.push(Some(4));
    let mut job = one_point_job(JobStatus::Active);
    let mut err = JobError::new();
    let out = worker_pick_up_item(&mut lock, &event(5), &mut held, &mut job, &mut err, wood(), Some(t(2, 2)), &MAP);
    assert_eq!(out, PickUpOutcome::Rejected);
    assert_eq!(held.items, vec![Some(4)]);
    assert_eq!(job.path[0].job_status, JobStatus::Completed);
    assert!(!err.error && !err.warning);
}

#[test]
fn contains_entity_finds_items() {
    let items = vec![Some(1), None, Some(3)];
    assert!(contains_entity(&items, Some(3)));
    assert!(contains_entity(&items, None));
    assert!(!contains_entity(&items, Some(2)));
}

fn holding(item: u64) -> ItemContainer {
    let mut c = ItemContainer::new(1);
    c.items.push(Some(item));
    c
}

#[test]
fn drop_into_container() {
    let mut held = holding(5);
    let mut target = ItemContainer::new(3);
    let mut job = one_point_job(JobStatus::Active);
    let mut err = JobError::new();
    let out = worker_drop_item(&mut held, &mut job, &mut err, 5, wood(), DropTarget::Container, &mut target);
    assert_eq!(out, DropOutcome::Dropped);
    assert!(held.items.is_empty());
    assert_eq!(target.items, vec![Some(5)]);
    assert_eq!(job.path[0].job_status, JobStatus::Completed);
}

#[test]
fn drop_refusals() {
    let mut held = holding(5);
    let mut target = ItemContainer::new(3);
    let mut job = one_point_job(JobStatus::Active);
    let mut err = JobError::new();
    assert_eq!(worker_drop_item(&mut held, &mut job, &mut err, 5, wood(), DropTarget::NoContainer, &mut target), DropOutcome::Refused);
    assert_eq!(err.message, "Item or Container not found");
    assert_eq!(worker_drop_item(&mut held, &mut job, &mut err, 5, None, DropTarget::Container, &mut target), DropOutcome::Refused);
    assert_eq!(err.message, "Item or Container not found");
    assert_eq!(worker_drop_item(&mut held, &mut job, &mut err, 6, wood(), DropTarget::Container, &mut target), DropOutcome::Refused);
    assert_eq!(err.message, "Item not found in worker");
    target.items.push(Some(5));
    assert_eq!(worker_drop_item(&mut held, &mut job, &mut err, 5, wood(), DropTarget::Container, &mut target), DropOutcome::Refused);
    assert_eq!(err.message, "Item already in container");
    assert_eq!(worker_drop_item(&mut held, &mut job, &mut err, 5, wood(), DropTarget::AssemblyInput, &mut target), DropOutcome::Refused);
    assert_eq!(err.message, "Item already in assembly");
    assert_eq!(held.items, vec![Some(5)]);
    assert_eq!(job.path[0].job_status, JobStatus::Active);
}

#[test]
fn drop_on_other_entity_is_ignored() {
    let mut held = holding(5);
    let mut target = ItemContainer::new(3);
    let mut job = one_point_job(JobStatus::Active);
    let mut err = JobError::new();
    assert_eq!(worker_drop_item(&mut held, &mut job, &mut err, 5, wood(), DropTarget::Other, &mut target), DropOutcome::Ignored);
    assert_eq!(held.items, vec![Some(5)]);
    assert!(!err.error);
}

#[test]
fn drop_refused_by_container_is_taken_back() {
    let mut held = holding(5);
    let mut target = ItemContainer::new(3);
    target.item_type = Some(Item::Good(GoodItem::Paper));
    let mut job = one_point_job(JobStatus::Active);
    let mut err = JobError::new();
    let out = worker_drop_item(&mut held, &mut job, &mut err, 5, wood(), DropTarget::Container, &mut target);
    assert_eq!(out, DropOutcome::Returned);
    assert_eq!(held.items, vec![Some(5)]);
    assert!(target.items.is_empty());
    assert!(err.warning);
    assert_eq!(err.warn_message, "Error adding item to container: Invalid item type");
    assert_eq!(job.path[0].job_status, JobStatus::Active);
}

#[test]
fn drop_refused_by_both_is_lost() {
    let mut held = holding(5);
    held.item_type = Some(Item::Resource(ResourceItem::Lumber));
    let mut target = ItemContainer::new(0);
    let mut job = one_point_job(JobStatus::Active);
    let mut err = JobError::new();
    let out = worker_drop_item(&mut held, &mut job, &mut err, 5, wood(), DropTarget::AssemblyInput, &mut target);
    assert_eq!(out, DropOutcome::Lost);
    assert!(held.items.is_empty());
    assert!(target.items.is_empty());
    assert_eq!(err.warn_message, "Error adding item to container: Maximum number of items reached");
    assert!(err.error);
    assert_eq!(err.message, "Error picking item back up: Invalid item type");
}
