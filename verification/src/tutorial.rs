use vstd::prelude::*;
use crate::day_cycle::DayCycleState;
use crate::jobs::JobAction;
use crate::modes::PlayerState;

verus! {

/// One step of the tutorial: what it tells the player.  (The check that
/// completes the step is `tutorial_step_check`.)
pub struct TutorialStep {
    pub dialogue: String,
}

/// The tutorial's steps and the step the player is on.
pub struct TutorialSteps {
    pub step: u8,
    pub steps: Vec<TutorialStep>,
}

/// What the tutorial's checks look at in the game.
pub struct TutorialObservation {
    /// The player has been walking for long enough.
    pub moved_long_enough: bool,
    pub player_state: PlayerState,
    /// A saw mill has been built.
    pub has_saw_mill: bool,
    /// The player carries an item.
    pub player_holding: bool,
    /// Some saw mill has an item in its input.
    pub saw_mill_input_filled: bool,
    /// Some saw mill has an item in its output.
    pub saw_mill_output_filled: bool,
    /// The export area holds an item.
    pub exports_holding: bool,
    /// How many workers have been hired.
    pub workers: usize,
    /// Whether a worker is selected.
    pub worker_selected: bool,
    /// The actions of the selected worker's job (`None` when the selected
    /// worker has no job).
    pub selected_job: Option<Vec<JobAction>>,
    pub day: DayCycleState,
}

/// What a step's check decides.
#[derive(Clone, Copy, PartialEq, Eq, Structural, Debug)]
pub enum StepCheck {
    Stay,
    Advance,
    GoBack,
}

pub open spec fn tutorial_texts() -> Seq<Seq<char>> {
    seq![
        "Move your character with WASD.\nYou can adjust the camera level with the scroll wheel"@,
        "Lets start with building a saw mill.\nFirst click on \"Assemblies\""@,
        "Next click on \"Saw Mill\".\nYou can then click on the ground to place one"@,
        "Press \"Tab\" to exit building mode."@,
        "Now grab some wood and get working!
                    \nYou can find the wood in your imports section
                    \nPress \"F\" to pickup items. You will pick up items that are closest to the mouse cursor.
                    \nYou can also drop items by pressing \"Q\""@,
        "Now approach the saw mill and press \"F\" to place the wood inside."@,
        "Now click on the saw mill to start manually cutting."@,
        "Keep using the saw mill until it is finished.
                    \nTry pressing the space bar quickly.
                    \nThe faster you press the space bar, the faster you will produce!"@,
        "The saw mill has finished cutting all the wood!
                    \nPress \"Tab\" to leave the saw mill"@,
        "Now that you have some lumber, pick it up from the saw mill.
                    \nPress \"F\" while standing near the saw mill to pickup the lumber."@,
        "Place the lumber in the exports area to be sold at the end of the day.
                    \nPress \"F\" while standing near the exports area to place the lumber."@,
        "You wont be able to produce much on your own.
                    \nYou should hire somebody to do it for you!
                    \nClick on \"Workers\""@,
        "Now click on the ground to place a worker.
                    \nEach worker costs $5 to hire, and will cost you 60¢ each day in salary."@,
        "Press \"Tab\" to exit hiring mode."@,
        "Now click on the worker so you can tell them what to do."@,
        "Click anywhere on the screen to tell the worker what to do.
                    \nClicking on red arrows will instruct the worker to pick up items.
                    \nClick on the red arrow under the export area to instruct the worker to pickup wood.
                    \nRight clicking on a green box will delete the instruction."@,
        "Clicking on green arrows will instruct the worker to drop items.
                    \nClick on the green arrow above the saw mill to instruct the worker to drop the wood.
                    \nRight clicking on a green box will delete the instruction."@,
        "Clicking on an assembly will instruct the worker to power it.
                    \nClick on the saw mill to instruct the worker to power it.
                    \nRight clicking on a green box will delete the instruction."@,
        "Great work! Your worker should now be producing the lumber for you.
                    \nPress \"Tab\" to exit"@,
        "You seem to be getting the hang of this!
                    \nOnce you are ready, click on \"End Day\" to end your day.
                    \nKeep in mind you will be charged a storage fee for any items left in your factory!"@,
        "Purchase some wood for tomorrow. Click on the \"+\" next to wood."@
    ]
}

pub open spec fn is_container_pickup(a: JobAction) -> bool {
    a matches JobAction::ContainerPickup { .. }
}

pub open spec fn is_drop(a: JobAction) -> bool {
    a matches JobAction::Drop { .. }
}

/// The checks of the job-editing steps: with a worker selected, a missing
/// job sends the first of them back a step; otherwise each waits for the
/// job to hold one, two, three points starting with a pick-up from a
/// container and then a drop.
pub open spec fn job_step_check(step: int, obs: TutorialObservation) -> StepCheck {
    if !obs.worker_selected {
        StepCheck::Stay
    } else {
        match obs.selected_job {
            None => if step == 15 { StepCheck::GoBack } else { StepCheck::Stay },
            Some(job) => {
                let a = job@;
                if step == 15 {
                    if a.len() == 1 && is_container_pickup(a[0]) { StepCheck::Advance } else { StepCheck::Stay }
                } else if step == 16 {
                    if a.len() == 2 && is_container_pickup(a[0]) && is_drop(a[1]) { StepCheck::Advance } else { StepCheck::Stay }
                } else {
                    if a.len() == 3 && is_container_pickup(a[0]) && is_drop(a[1]) { StepCheck::Advance } else { StepCheck::Stay }
                }
            },
        }
    }
}

/// What the check of tutorial step `step` decides about `obs`.
pub open spec fn spec_step_check(step: int, obs: TutorialObservation) -> StepCheck {
    if 15 <= step <= 17 { job_step_check(step, obs) }
        else if step == 0 { if obs.moved_long_enough { StepCheck::Advance } else { StepCheck::Stay } }
        else if step == 1 { if obs.player_state == PlayerState::Assemblies { StepCheck::Advance } else { StepCheck::Stay } }
        else if step == 2 { if obs.has_saw_mill { StepCheck::Advance } else { StepCheck::Stay } }
        else if step == 3 { if obs.player_state == PlayerState::NoMode { StepCheck::Advance } else { StepCheck::Stay } }
        else if step == 4 { if obs.player_holding { StepCheck::Advance } else { StepCheck::Stay } }
        else if step == 5 { if obs.saw_mill_input_filled { StepCheck::Advance } else { StepCheck::Stay } }
        else if step == 6 { if obs.player_state == PlayerState::Power { StepCheck::Advance } else { StepCheck::Stay } }
        else if step == 7 { if obs.saw_mill_output_filled { StepCheck::Advance } else { StepCheck::Stay } }
        else if step == 8 { if obs.player_state != PlayerState::Power { StepCheck::Advance } else { StepCheck::Stay } }
        else if step == 9 { if obs.player_holding { StepCheck::Advance } else { StepCheck::Stay } }
        else if step == 10 { if obs.exports_holding { StepCheck::Advance } else { StepCheck::Stay } }
        else if step == 11 { if obs.player_state == PlayerState::Workers { StepCheck::Advance } else { StepCheck::Stay } }
        else if step == 12 { if obs.workers > 0 { StepCheck::Advance } else { StepCheck::Stay } }
        else if step == 13 { if obs.player_state == PlayerState::NoMode { StepCheck::Advance } else { StepCheck::Stay } }
        else if step == 14 { if obs.player_state == PlayerState::Jobs { StepCheck::Advance } else { StepCheck::Stay } }
        else if step == 18 { if obs.player_state == PlayerState::NoMode { StepCheck::Advance } else { StepCheck::Stay } }
        else if step == 19 { if obs.day == DayCycleState::Night { StepCheck::Advance } else { StepCheck::Stay } }
        else if step == 20 { if obs.day == DayCycleState::Day { StepCheck::Advance } else { StepCheck::Stay } }
        else { StepCheck::Stay }
}

/// Each step that waits on the game advances exactly when the event its
/// text asks for has happened, never goes back, and looks at nothing
/// else: placing wood in the saw mill (step 5) is seen in the saw mill's
/// input, finishing the cutting (step 7) in its output.
pub proof fn law_steps_wait_for_their_event(a: TutorialObservation, b: TutorialObservation)
    ensures
        (spec_step_check(0, a) == StepCheck::Advance) == a.moved_long_enough,
        (spec_step_check(1, a) == StepCheck::Advance) == (a.player_state == PlayerState::Assemblies),
        (spec_step_check(2, a) == StepCheck::Advance) == a.has_saw_mill,
        (spec_step_check(3, a) == StepCheck::Advance) == (a.player_state == PlayerState::NoMode),
        (spec_step_check(4, a) == StepCheck::Advance) == a.player_holding,
        (spec_step_check(5, a) == StepCheck::Advance) == a.saw_mill_input_filled,
        (spec_step_check(6, a) == StepCheck::Advance) == (a.player_state == PlayerState::Power),
        (spec_step_check(7, a) == StepCheck::Advance) == a.saw_mill_output_filled,
        (spec_step_check(8, a) == StepCheck::Advance) == (a.player_state != PlayerState::Power),
        (spec_step_check(9, a) == StepCheck::Advance) == a.player_holding,
        (spec_step_check(10, a) == StepCheck::Advance) == a.exports_holding,
        (spec_step_check(11, a) == StepCheck::Advance) == (a.player_state == PlayerState::Workers),
        (spec_step_check(12, a) == StepCheck::Advance) == (a.workers > 0),
        (spec_step_check(13, a) == StepCheck::Advance) == (a.player_state == PlayerState::NoMode),
        (spec_step_check(14, a) == StepCheck::Advance) == (a.player_state == PlayerState::Jobs),
        (spec_step_check(18, a) == StepCheck::Advance) == (a.player_state == PlayerState::NoMode),
        (spec_step_check(19, a) == StepCheck::Advance) == (a.day == DayCycleState::Night),
        (spec_step_check(20, a) == StepCheck::Advance) == (a.day == DayCycleState::Day),
        forall|k: int| !(15 <= k <= 17) ==> spec_step_check(k, a) != StepCheck::GoBack,
        !a.worker_selected ==> forall|k: int| 15 <= k <= 17 ==> spec_step_check(k, a) == StepCheck::Stay,
        a.worker_selected && a.selected_job is None ==> spec_step_check(15, a) == StepCheck::GoBack
            && spec_step_check(16, a) == StepCheck::Stay && spec_step_check(17, a) == StepCheck::Stay,
        a.worker_selected ==> (a.selected_job matches Some(j) ==> {
            &&& (spec_step_check(15, a) == StepCheck::Advance) == (j@.len() == 1 && is_container_pickup(j@[0]))
            &&& (spec_step_check(16, a) == StepCheck::Advance) == (j@.len() == 2 && is_container_pickup(j@[0]) && is_drop(j@[1]))
            &&& (spec_step_check(17, a) == StepCheck::Advance) == (j@.len() == 3 && is_container_pickup(j@[0]) && is_drop(j@[1]))
            &&& forall|k: int| 15 <= k <= 17 ==> spec_step_check(k, a) != StepCheck::GoBack
        }),
        a.saw_mill_input_filled == b.saw_mill_input_filled ==> spec_step_check(5, a) == spec_step_check(5, b),
        a.saw_mill_output_filled == b.saw_mill_output_filled ==> spec_step_check(7, a) == spec_step_check(7, b),
{
}

impl TutorialSteps {
    /// The tutorial from its first step.
    pub fn new() -> (t: Self)
        ensures
            t.step == 0,
            t.steps@.len() == tutorial_texts().len(),
            forall|i: int| 0 <= i < t.steps@.len() ==> #[trigger] t.steps@[i].dialogue@ == tutorial_texts()[i],
    {
        let mut steps: Vec<TutorialStep> = Vec::new();
        steps.push(TutorialStep { dialogue: "Move your character with WASD.\nYou can adjust the camera level with the scroll wheel".to_owned() });
        steps.push(TutorialStep { dialogue: "Lets start with building a saw mill.\nFirst click on \"Assemblies\"".to_owned() });
        steps.push(TutorialStep { dialogue: "Next click on \"Saw Mill\".\nYou can then click on the ground to place one".to_owned() });
        steps.push(TutorialStep { dialogue: "Press \"Tab\" to exit building mode.".to_owned() });
        steps.push(TutorialStep { dialogue: "Now grab some wood and get working!
                    \nYou can find the wood in your imports section
                    \nPress \"F\" to pickup items. You will pick up items that are closest to the mouse cursor.
                    \nYou can also drop items by pressing \"Q\"".to_owned() });
        steps.push(TutorialStep { dialogue: "Now approach the saw mill and press \"F\" to place the wood inside.".to_owned() });
        steps.push(TutorialStep { dialogue: "Now click on the saw mill to start manually cutting.".to_owned() });
        steps.push(TutorialStep { dialogue: "Keep using the saw mill until it is finished.
                    \nTry pressing the space bar quickly.
                    \nThe faster you press the space bar, the faster you will produce!".to_owned() });
        steps.push(TutorialStep { dialogue: "The saw mill has finished cutting all the wood!
                    \nPress \"Tab\" to leave the saw mill".to_owned() });
        steps.push(TutorialStep { dialogue: "Now that you have some lumber, pick it up from the saw mill.
                    \nPress \"F\" while standing near the saw mill to pickup the lumber.".to_owned() });
        steps.push(TutorialStep { dialogue: "Place the lumber in the exports area to be sold at the end of the day.
                    \nPress \"F\" while standing near the exports area to place the lumber.".to_owned() });
        steps.push(TutorialStep { dialogue: "You wont be able to produce much on your own.
                    \nYou should hire somebody to do it for you!
                    \nClick on \"Workers\"".to_owned() });
        steps.push(TutorialStep { dialogue: "Now click on the ground to place a worker.
                    \nEach worker costs $5 to hire, and will cost you 60¢ each day in salary.".to_owned() });
        steps.push(TutorialStep { dialogue: "Press \"Tab\" to exit hiring mode.".to_owned() });
        steps.push(TutorialStep { dialogue: "Now click on the worker so you can tell them what to do.".to_owned() });
        steps.push(TutorialStep { dialogue: "Click anywhere on the screen to tell the worker what to do.
                    \nClicking on red arrows will instruct the worker to pick up items.
                    \nClick on the red arrow under the export area to instruct the worker to pickup wood.
                    \nRight clicking on a green box will delete the instruction.".to_owned() });
        steps.push(TutorialStep { dialogue: "Clicking on green arrows will instruct the worker to drop items.
                    \nClick on the green arrow above the saw mill to instruct the worker to drop the wood.
                    \nRight clicking on a green box will delete the instruction.".to_owned() });
        steps.push(TutorialStep { dialogue: "Clicking on an assembly will instruct the worker to power it.
                    \nClick on the saw mill to instruct the worker to power it.
                    \nRight clicking on a green box will delete the instruction.".to_owned() });
        steps.push(TutorialStep { dialogue: "Great work! Your worker should now be producing the lumber for you.
                    \nPress \"Tab\" to exit".to_owned() });
        steps.push(TutorialStep { dialogue: "You seem to be getting the hang of this!
                    \nOnce you are ready, click on \"End Day\" to end your day.
                    \nKeep in mind you will be charged a storage fee for any items left in your factory!".to_owned() });
        steps.push(TutorialStep { dialogue: "Purchase some wood for tomorrow. Click on the \"+\" next to wood.".to_owned() });
        TutorialSteps { step: 0, steps }
    }
}

fn starts_pickup_drop(job: &Vec<JobAction>, len: usize) -> (ok: bool)
    ensures
        ok == (job@.len() == len && len >= 1 && is_container_pickup(job@[0]) && (len >= 2 ==> is_drop(job@[1]))),
{
    if job.len() != len || len == 0 {
        return false;
    }
    let first = match job[0] {
        JobAction::ContainerPickup { .. } => true,
        _ => false,
    };
    if !first {
        return false;
    }
    if len >= 2 {
        match job[1] {
            JobAction::Drop { .. } => true,
            _ => false,
        }
    } else {
        true
    }
}

/// The check of tutorial step `step`: whether what the player has done
/// (`obs`) completes it, keeps it, or (for the first job-editing step,
/// when the selected worker has no job) sends the tutorial back a step.
pub fn tutorial_step_check(step: u8, obs: &TutorialObservation) -> (check: StepCheck)
    ensures
        check == spec_step_check(step as int, *obs),
{
    let advance = |b: bool| -> (c: StepCheck)
        ensures c == if b { StepCheck::Advance } else { StepCheck::Stay }
    {
        if b { StepCheck::Advance } else { StepCheck::Stay }
    };
    if 15 <= step && step <= 17 {
        if !obs.worker_selected {
            return StepCheck::Stay;
        }
        return match &obs.selected_job {
            None => if step == 15 { StepCheck::GoBack } else { StepCheck::Stay },
            Some(job) => {
                let len: usize = if step == 15 { 1 } else if step == 16 { 2 } else { 3 };
                advance(starts_pickup_drop(job, len))
            },
        };
    }
    match step {
        0 => advance(obs.moved_long_enough),
        1 => advance(obs.player_state == PlayerState::Assemblies),
        2 => advance(obs.has_saw_mill),
        3 => advance(obs.player_state == PlayerState::NoMode),
        4 => advance(obs.player_holding),
        5 => advance(obs.saw_mill_input_filled),
        6 => advance(obs.player_state == PlayerState::Power),
        7 => advance(obs.saw_mill_output_filled),
        8 => advance(obs.player_state != PlayerState::Power),
        9 => advance(obs.player_holding),
        10 => advance(obs.exports_holding),
        11 => advance(obs.player_state == PlayerState::Workers),
        12 => advance(obs.workers > 0),
        13 => advance(obs.player_state == PlayerState::NoMode),
        14 => advance(obs.player_state == PlayerState::Jobs),
        18 => advance(obs.player_state == PlayerState::NoMode),
        19 => advance(obs.day == DayCycleState::Night),
        20 => advance(obs.day == DayCycleState::Day),
        _ => StepCheck::Stay,
    }
}

/// The index of the last step as the step counter (a byte) sees it: the
/// number of steps taken modulo 256, less one.
pub open spec fn last_step(n_steps: nat) -> int {
    (n_steps % 256) as int - 1
}

/// Moves the tutorial to its next step, or turns it off (the result is
/// `true`) after the last one.  The step counter is a byte: the last step
/// is counted modulo 256, and a number of steps that is a multiple of 256
/// has no last step.
pub fn increment_step_system(tut_steps: &mut TutorialSteps) -> (disable: bool)
    requires
        old(tut_steps).steps@.len() % 256 != 0,
    ensures
        final(tut_steps).steps@ == old(tut_steps).steps@,
        disable == (old(tut_steps).step >= last_step(old(tut_steps).steps@.len())),
        final(tut_steps).step == if disable { old(tut_steps).step as int } else { old(tut_steps).step + 1 },
        // the step stays on an existing step
        old(tut_steps).step < old(tut_steps).steps@.len() ==> final(tut_steps).step < final(tut_steps).steps@.len(),
{
    let last: u8 = (tut_steps.steps.len() % 256) as u8 - 1;
    if tut_steps.step < last {
        tut_steps.step = tut_steps.step + 1;
        false
    } else {
        true
    }
}

/// Applies a step's check: an advance moves on (or turns the tutorial off,
/// the result being `true`); going back returns to the previous step.
pub fn apply_step_check(tut_steps: &mut TutorialSteps, check: StepCheck) -> (disable: bool)
    requires
        check == StepCheck::Advance ==> old(tut_steps).steps@.len() % 256 != 0,
        check == StepCheck::GoBack ==> old(tut_steps).step > 0,
    ensures
        final(tut_steps).steps@ == old(tut_steps).steps@,
        check == StepCheck::Stay ==> !disable && final(tut_steps).step == old(tut_steps).step,
        check == StepCheck::GoBack ==> !disable && final(tut_steps).step == old(tut_steps).step - 1,
        check == StepCheck::Advance ==> disable == (old(tut_steps).step >= last_step(old(tut_steps).steps@.len()))
            && final(tut_steps).step == if disable { old(tut_steps).step as int } else { old(tut_steps).step + 1 },
        old(tut_steps).step < old(tut_steps).steps@.len() ==> final(tut_steps).step < final(tut_steps).steps@.len(),
{
    match check {
        StepCheck::Stay => false,
        StepCheck::GoBack => {
            tut_steps.step = tut_steps.step - 1;
            false
        },
        StepCheck::Advance => increment_step_system(tut_steps),
    }
}

} // verus!
