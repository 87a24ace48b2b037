use vstd::prelude::*;
use crate::container::{EntityId, ItemContainer, add_error};
use crate::items::Item;
use crate::modes::PlayerState;

verus! {

/// Frames in one walking animation.
pub const MOVE_ANIMATION_FRAMES: usize = 6;

/// The sign of one component of a movement input.
#[derive(Clone, Copy, PartialEq, Eq, Structural, Debug)]
pub enum Sign {
    Negative,
    Zero,
    Positive,
}

/// The sprite-sheet frame a walking character shows, and the step of its
/// walking animation.  The sheet has three rows of 24 frames: the second
/// row stands, the third walks; each row holds six frames for each of the
/// four facings (east, north, west, south).
pub struct SpriteDirection {
    pub direction: usize,
    pub movement_frame: usize,
}

/// The facing (0 east, 1 north, 2 west, 3 south) that a frame of the
/// standing or walking row shows.
pub open spec fn facing(direction: int) -> int {
    ((direction - 24) % 24) / 6
}

/// The facing that a movement input asks for, if it moves.
pub open spec fn input_facing(x: Sign, y: Sign) -> Option<int> {
    if x == Sign::Positive { Some(0) }
    else if x == Sign::Negative { Some(2) }
    else if y == Sign::Positive { Some(1) }
    else if y == Sign::Negative { Some(3) }
    else { None }
}

/// The facing kept when the character stands still.
pub open spec fn idle_facing(direction: int) -> int {
    if direction > 3 {
        let t = direction - 24;
        (if t >= 24 { t - 24 } else { t }) / 6
    } else {
        0
    }
}

/// The frame shown after an input with components of signs `x` and `y`.
pub open spec fn next_direction(direction: int, frame: int, x: Sign, y: Sign) -> int {
    match input_facing(x, y) {
        Some(f) => f * 6 + frame + 48,
        None => idle_facing(direction) * 6 + frame + 24,
    }
}

impl SpriteDirection {
    /// Picks the frame for a movement input whose components have signs `x`
    /// and `y`: a moving character faces the way it moves (a horizontal
    /// component wins over a vertical one) and shows the walking row; a
    /// character at rest keeps its facing and shows the standing row.
    pub fn set_from_vec(&mut self, x: Sign, y: Sign)
        requires
            old(self).direction <= 3 || old(self).direction >= 24,
            old(self).direction + old(self).movement_frame + 66 <= usize::MAX,
        ensures
            final(self).movement_frame == old(self).movement_frame,
            final(self).direction == next_direction(old(self).direction as int, old(self).movement_frame as int, x, y),
            // the frame always lies on the standing or walking row, facing the
            // way asked for, or the way it faced before when at rest
            old(self).movement_frame < MOVE_ANIMATION_FRAMES && old(self).direction < 72 ==> {
                &&& 24 <= final(self).direction < 72
                &&& (input_facing(x, y) is Some <==> final(self).direction >= 48)
                &&& facing(final(self).direction as int) == match input_facing(x, y) {
                    Some(f) => f,
                    None => if old(self).direction >= 24 { facing(old(self).direction as int) } else { 0 },
                }
            },
    {
        let mut direction: usize = 0;
        let mut moving = false;
        if x == Sign::Positive {
            direction = 0;
            moving = true;
        } else if x == Sign::Negative {
            direction = 2;
            moving = true;
        } else if y == Sign::Positive {
            direction = 1;
            moving = true;
        } else if y == Sign::Negative {
            direction = 3;
            moving = true;
        } else {
            if self.direction > 3 {
                direction = self.direction - 24;
                if direction >= 24 {
                    direction -= 24;
                }
                direction /= MOVE_ANIMATION_FRAMES;
            }
        }
        assert(direction * 6 <= self.direction + 18) by (nonlinear_arith)
            requires
                !moving ==> direction == idle_facing(self.direction as int),
                moving ==> direction <= 3,
                self.direction <= 3 || self.direction >= 24,
        {
            if !moving && self.direction > 3 {
                let t = self.direction - 24;
                let t2 = if t >= 24 { t - 24 } else { t };
                assert(direction == t2 / 6);
                assert(t2 / 6 * 6 <= t2);
            }
        }
        assert(moving ==> input_facing(x, y) == Some(direction as int));
        assert(!moving ==> input_facing(x, y) is None && direction == idle_facing(self.direction as int));
        direction *= MOVE_ANIMATION_FRAMES;
        direction += self.movement_frame;
        direction += 24;
        if moving {
            direction += 24;
        }
        self.direction = direction;
    }
}

/// The frame of the sprite sheet that a sprite shows: its direction index.
pub fn sprite_direction_system(direction: &SpriteDirection) -> (index: usize)
    ensures
        index == direction.direction,
{
    direction.direction
}

/// Steps the walking animation when its timer has just run out: the frame
/// counter cycles through the six frames.
pub fn movement_animation_system(direction: &mut SpriteDirection, timer_just_finished: bool)
    requires
        old(direction).movement_frame < usize::MAX,
    ensures
        final(direction).direction == old(direction).direction,
        final(direction).movement_frame == if timer_just_finished {
            ((old(direction).movement_frame + 1) % 6) as usize
        } else {
            old(direction).movement_frame
        },
        timer_just_finished ==> final(direction).movement_frame < MOVE_ANIMATION_FRAMES,
        old(direction).movement_frame < MOVE_ANIMATION_FRAMES ==> final(direction).movement_frame < MOVE_ANIMATION_FRAMES,
{
    if timer_just_finished {
        direction.movement_frame = (direction.movement_frame + 1) % MOVE_ANIMATION_FRAMES;
    }
}

/// The assembly the player powers by hand.
pub struct AssemblyPowerSelection {
    pub selected: Option<EntityId>,
}

/// The last assembly among `clicked` that lies within the player's reach.
pub open spec fn last_in_reach(clicked: Seq<(EntityId, bool)>) -> Option<EntityId>
    decreases clicked.len(),
{
    if clicked.len() == 0 {
        None
    } else if clicked.last().1 {
        Some(clicked.last().0)
    } else {
        last_in_reach(clicked.drop_last())
    }
}

/// A left click on powered assemblies, while no mode is active and the
/// player exists, selects the last one clicked within the player's reach
/// (`clicked` pairs each with whether it is in reach) and enters the power
/// mode (the result); otherwise nothing changes.
pub fn activate_power_mode_on_click(
    state: PlayerState,
    pressed: bool,
    has_player: bool,
    clicked: &Vec<(EntityId, bool)>,
    selection: &mut AssemblyPowerSelection,
) -> (next: Option<PlayerState>)
    ensures
        next == if state == PlayerState::NoMode && pressed && has_player && last_in_reach(clicked@) is Some {
            Some(PlayerState::Power)
        } else {
            None::<PlayerState>
        },
        final(selection).selected == if next is Some { last_in_reach(clicked@) } else { old(selection).selected },
{
    if state != PlayerState::NoMode || !pressed || !has_player {
        return None;
    }
    let mut found: Option<EntityId> = None;
    let mut i: usize = 0;
    while i < clicked.len()
        invariant
            i <= clicked@.len(),
            found == last_in_reach(clicked@.take(i as int)),
        decreases clicked@.len() - i,
    {
        proof {
            assert(clicked@.take(i + 1).drop_last() =~= clicked@.take(i as int));
        }
        let (entity, in_reach) = clicked[i];
        if in_reach {
            found = Some(entity);
        }
        i += 1;
    }
    proof {
        assert(clicked@.take(i as int) =~= clicked@);
    }
    match found {
        Some(e) => {
            selection.selected = Some(e);
            Some(PlayerState::Power)
        },
        None => None,
    }
}

/// The player, near `container`, puts the item `item` (of type
/// `item_type`) it carries into it.  The item first enters the container;
/// when the player turns out not to hold it, the container gives it back
/// (its first occurrence).  The result tells whether the item moved.
pub fn player_put_item(
    container: &mut ItemContainer,
    player_container: &mut ItemContainer,
    item: EntityId,
    item_type: Item,
) -> (moved: bool)
    ensures
        final(container).max_items == old(container).max_items,
        final(container).item_type == old(container).item_type,
        final(container).width == old(container).width,
        final(player_container).max_items == old(player_container).max_items,
        final(player_container).item_type == old(player_container).item_type,
        final(player_container).width == old(player_container).width,
        moved == (add_error(old(container).items@.len(), old(container).max_items as nat, old(container).item_type,
            Some(item_type)) is None && old(player_container).items@.contains(Some(item))),
        moved ==> final(container).items@ == old(container).items@.push(Some(item))
            && final(player_container).items@ == old(player_container).items@.remove_value(Some(item)),
        !moved ==> final(player_container).items@ == old(player_container).items@,
        !moved && add_error(old(container).items@.len(), old(container).max_items as nat, old(container).item_type,
            Some(item_type)) is None ==> final(container).items@ == old(container).items@.push(Some(item)).remove_value(Some(item)),
        !moved && add_error(old(container).items@.len(), old(container).max_items as nat, old(container).item_type,
            Some(item_type)) is Some ==> final(container).items@ == old(container).items@,
{
    if container.add_item((Some(item), Some(item_type))).is_err() {
        return false;
    }
    match player_container.remove_item(Some(item)) {
        Ok(_) => true,
        Err(_) => {
            assert(container.items@[container.items@.len() - 1] == Some(item));
            let _ = container.remove_item(Some(item));
            false
        },
    }
}

/// The player picks up the item `item` (of type `item_type`).  An item in
/// an assembly's input stays where it is.  Otherwise the item leaves the
/// container `source` holding it (when `from_container`; `source` is left
/// alone otherwise) and enters the player's container if that has room.
/// The result tells whether the player now carries it.
pub fn player_pickup_item(
    player_container: &mut ItemContainer,
    source: &mut ItemContainer,
    from_container: bool,
    item: EntityId,
    item_type: Item,
    in_assembly_input: bool,
) -> (picked: bool)
    ensures
        final(player_container).max_items == old(player_container).max_items,
        final(player_container).item_type == old(player_container).item_type,
        final(player_container).width == old(player_container).width,
        final(source).max_items == old(source).max_items,
        final(source).item_type == old(source).item_type,
        final(source).width == old(source).width,
        in_assembly_input ==> !picked && final(player_container).items@ == old(player_container).items@
            && final(source).items@ == old(source).items@,
        !in_assembly_input ==> {
            &&& final(source).items@ == if from_container {
                old(source).items@.remove_value(Some(item))
            } else {
                old(source).items@
            }
            &&& picked == (add_error(old(player_container).items@.len(), old(player_container).max_items as nat,
                old(player_container).item_type, Some(item_type)) is None)
            &&& final(player_container).items@ == if picked {
                old(player_container).items@.push(Some(item))
            } else {
                old(player_container).items@
            }
        },
{
    if in_assembly_input {
        return false;
    }
    if from_container {
        let _ = source.remove_item(Some(item));
        proof {
            if !old(source).items@.contains(Some(item)) {
                old(source).items@.index_of_first_ensures(Some(item));
            }
        }
    }
    player_container.add_item((Some(item), Some(item_type))).is_ok()
}

/// The player drops the item it carries first (`first_child`): it leaves
/// the player's container, and the result names it.  Nothing happens when
/// the player carries nothing or does not hold that item.
pub fn player_drop_item(player_container: &mut ItemContainer, first_child: Option<EntityId>) -> (dropped: Option<EntityId>)
    ensures
        final(player_container).max_items == old(player_container).max_items,
        final(player_container).item_type == old(player_container).item_type,
        final(player_container).width == old(player_container).width,
        dropped == if old(player_container).items@.len() > 0 && first_child is Some
            && old(player_container).items@.contains(first_child) {
            first_child
        } else {
            None::<EntityId>
        },
        dropped is Some ==> final(player_container).items@ == old(player_container).items@.remove_value(first_child),
        dropped is None ==> final(player_container).items@ == old(player_container).items@,
{
    if player_container.items.len() == 0 {
        return None;
    }
    let child = match first_child {
        Some(c) => c,
        None => { return None; },
    };
    match player_container.remove_item(Some(child)) {
        Ok(_) => Some(child),
        Err(_) => None,
    }
}

} // verus!
