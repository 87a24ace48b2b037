use vstd::prelude::*;
use crate::jobs::JobPoint;
use crate::tiles::TilePos;

verus! {

/// Whether `points` holds `p`.
pub fn contains_point(points: &Vec<JobPoint>, p: &JobPoint) -> (found: bool)
    ensures
        found == points@.contains(*p),
{
    let mut i: usize = 0;
    while i < points.len()
        invariant
            i <= points@.len(),
            forall|j: int| 0 <= j < i ==> points@[j] != *p,
        decreases points@.len() - i,
    {
        if points[i] == *p {
            return true;
        }
        i += 1;
    }
    false
}

/// The job points that have no marker yet, in the job's order.
pub open spec fn unmarked_points(path: Seq<JobPoint>, markers: Seq<JobPoint>) -> Seq<JobPoint> {
    path.filter(|p: JobPoint| !markers.contains(p))
}

/// The points to mark are exactly the job's points that no marker stands
/// on, whatever their status or action, each with its place in the job
/// kept; with no markers at all, every point of the job gets one.
pub proof fn law_unmarked_points_get_markers(path: Seq<JobPoint>, markers: Seq<JobPoint>, p: JobPoint)
    ensures
        unmarked_points(path, markers).contains(p) == (path.contains(p) && !markers.contains(p)),
        unmarked_points(path, markers).len() <= path.len(),
        markers.len() == 0 ==> unmarked_points(path, markers) == path,
    decreases path.len(),
{
    broadcast use vstd::seq_lib::group_filter_ensures;
    reveal_with_fuel(Seq::filter, 1);
    if path.len() > 0 {
        law_unmarked_points_get_markers(path.drop_last(), markers, p);
        if path.last() == p {
            assert(path[path.len() - 1] == p);
        } else if path.contains(p) {
            let w = choose|w: int| 0 <= w < path.len() && path[w] == p;
            assert(path.drop_last()[w] == p);
        }
        if unmarked_points(path.drop_last(), markers).contains(p) {
            let w = choose|w: int| 0 <= w < path.drop_last().len() && path.drop_last()[w] == p;
            assert(path[w] == p);
        }
    }
}

/// Whether the `i`-th marker stands on a point that left the job.
pub open spec fn stale_marker(path: Seq<JobPoint>, markers: Seq<JobPoint>, i: int) -> bool {
    !path.contains(markers[i])
}

/// Keeps one marker on each point of the selected worker's job: `markers`
/// lists the point of each existing marker.  The result holds the indices,
/// in increasing order, of the markers whose point left the job (to be
/// despawned), and the job's points that have no marker (to be spawned).
pub fn spawn_job_path_markers(path: &Vec<JobPoint>, markers: &Vec<JobPoint>) -> (r: (Vec<usize>, Vec<JobPoint>))
    ensures
        forall|k: int| 0 <= k < r.0@.len() ==> #[trigger] r.0@[k] < markers@.len() && stale_marker(path@, markers@, r.0@[k] as int),
        forall|k: int, l: int| 0 <= k < l < r.0@.len() ==> r.0@[k] < r.0@[l],
        forall|i: int| 0 <= i < markers@.len() && #[trigger] stale_marker(path@, markers@, i) ==> r.0@.contains(i as usize),
        r.1@ == unmarked_points(path@, markers@),
{
    let mut despawn: Vec<usize> = Vec::new();
    let mut i: usize = 0;
    while i < markers.len()
        invariant
            i <= markers@.len(),
            forall|k: int| 0 <= k < despawn@.len() ==> #[trigger] despawn@[k] < i && stale_marker(path@, markers@, despawn@[k] as int),
            forall|k: int, l: int| 0 <= k < l < despawn@.len() ==> despawn@[k] < despawn@[l],
            forall|j: int| 0 <= j < i && #[trigger] stale_marker(path@, markers@, j) ==> despawn@.contains(j as usize),
        decreases markers@.len() - i,
    {
        let ghost before = despawn@;
        if !contains_point(path, &markers[i]) {
            despawn.push(i);
        }
        proof {
            assert forall|j: int| 0 <= j < i + 1 && #[trigger] stale_marker(path@, markers@, j) implies despawn@.contains(j as usize) by {
                if j == i {
                    assert(despawn@[despawn@.len() - 1] == i);
                } else {
                    let w = choose|w: int| 0 <= w < before.len() && before[w] == j as usize;
                    assert(despawn@[w] == j as usize);
                }
            }
        }
        i += 1;
    }
    let mut spawn: Vec<JobPoint> = Vec::new();
    let mut k: usize = 0;
    while k < path.len()
        invariant
            k <= path@.len(),
            spawn@ == path@.take(k as int).filter(|p: JobPoint| !markers@.contains(p)),
        decreases path@.len() - k,
    {
        proof {
            reveal_with_fuel(Seq::filter, 1);
            assert(path@.take(k + 1).drop_last() =~= path@.take(k as int));
        }
        if !contains_point(markers, &path[k]) {
            spawn.push(path[k]);
        }
        k += 1;
    }
    proof {
        assert(path@.take(k as int) =~= path@);
    }
    (despawn, spawn)
}

/// The lines drawn along the selected worker's job: one from each point to
/// the next, none for a job of fewer than two points.
pub fn job_path_lines(path: &Vec<JobPoint>) -> (lines: Vec<(TilePos, TilePos)>)
    ensures
        lines@.len() == if path@.len() < 2 { 0 } else { path@.len() - 1 },
        forall|i: int| 0 <= i < lines@.len() ==> #[trigger] lines@[i] == (path@[i].point, path@[i + 1].point),
{
    let mut lines: Vec<(TilePos, TilePos)> = Vec::new();
    if path.len() < 2 {
        return lines;
    }
    let mut i: usize = 0;
    while i < path.len() - 1
        invariant
            path@.len() >= 2,
            i <= path@.len() - 1,
            lines@.len() == i,
            forall|j: int| 0 <= j < i ==> #[trigger] lines@[j] == (path@[j].point, path@[j + 1].point),
        decreases path@.len() - 1 - i,
    {
        lines.push((path[i].point, path[i + 1].point));
        i += 1;
    }
    lines
}

} // verus!
