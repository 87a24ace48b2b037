use vstd::prelude::*;
use crate::container::{EntityId, ItemContainer, ItemIOContainer, add_error, MAX_ITEMS_REACHED};
use crate::items::{Item, GoodItem, ResourceItem, MaterialItem, spec_purchasable};
use crate::tiles::{TilePos, EntityTileSize};
use crate::tile_pathfinding::contains_tile;
use crate::worker::{contains_entity, count_of};

verus! {

broadcast use vstd::seq_lib::group_to_multiset_ensures, vstd::multiset::group_multiset_axioms;

/// The kinds of assembly the player can build.
#[derive(Clone, Copy, PartialEq, Eq, Structural, Debug, Hash)]
pub enum AssemblyType {
    WoodChipper,
    PulpMachine,
    PaperMachine,
    SawMill,
}

impl AssemblyType {
    /// Every assembly covers four by four tiles.
    pub fn get_tile_size(self) -> (size: EntityTileSize)
        ensures
            size == (EntityTileSize { x: 4, y: 4 }),
    {
        match self {
            AssemblyType::WoodChipper => EntityTileSize { x: 4, y: 4 },
            AssemblyType::PulpMachine => EntityTileSize { x: 4, y: 4 },
            AssemblyType::PaperMachine => EntityTileSize { x: 4, y: 4 },
            AssemblyType::SawMill => EntityTileSize { x: 4, y: 4 },
        }
    }
}

/// The assembly the player is about to build.
pub struct SelectedAssembly {
    pub selected: AssemblyType,
}

/// The item type an assembly consumes.
pub struct AssemblyInput(pub Option<Item>);

/// The item type an assembly produces (`None`: it only consumes).
pub struct AssemblyOutput(pub Option<Item>);

/// The input item an assembly's production timer is working on (the
/// timer itself is kept by the application).
pub struct AssemblyTimer {
    pub item: Option<EntityId>,
}

/// The item that the timer keeps working on: its item while that is still
/// in the input, else nothing.
pub open spec fn kept_item(input: Seq<Option<EntityId>>, timer_item: Option<EntityId>) -> Option<EntityId> {
    if input.contains(timer_item) { timer_item } else { None }
}

/// Keeps an assembly's timer on an item of its input.  While the timer's
/// item is still in the input it stays; otherwise the timer restarts
/// (`reset` is `true`, the application resets its clock) and takes the
/// first input entry, if there is one.  The result is the item being worked
/// on.
pub fn prepare_assembly_timer(input: &ItemContainer, timer: &mut AssemblyTimer) -> (r: (Option<EntityId>, bool))
    ensures
        kept_item(input.items@, old(timer).item) is Some ==> r == (old(timer).item, false)
            && final(timer).item == old(timer).item,
        kept_item(input.items@, old(timer).item) is None ==> r.1 && if input.items@.len() > 0 {
            final(timer).item == input.items@[0] && r.0 == input.items@[0]
        } else {
            final(timer).item == old(timer).item && r.0 is None
        },
{
    let keep = contains_entity(&input.items, timer.item);
    if keep && timer.item.is_some() {
        return (timer.item, false);
    }
    if input.items.len() > 0 {
        let next = input.items[0];
        timer.item = next;
        (next, true)
    } else {
        (None, true)
    }
}

/// Whether the assembly can work on its last input item, and which item
/// that is: the input must end in an item, the assembly must consume a
/// type, that item (of type `last_input_type`, `None` when it is not an
/// item) must be of that type, and the output must have room.
pub open spec fn spec_ready_input(io: ItemIOContainer, input_type: Option<Item>, last_input_type: Option<Item>) -> Option<EntityId> {
    let input = io.input.items@;
    if input.len() > 0 && input.last() is Some && input_type is Some && last_input_type is Some
        && input_type == last_input_type && io.output.max_items != io.output.items@.len() {
        input.last()
    } else {
        None
    }
}

/// An assembly whose input ends in an item of the type it consumes works on
/// that item whenever its output has room; only a full output, an input
/// not ending in an item, or an item of another type holds it back.
pub proof fn law_ready_while_output_has_room(io: ItemIOContainer, input_type: Option<Item>, last_input_type: Option<Item>)
    ensures
        io.input.items@.len() > 0 && io.input.items@.last() is Some && input_type is Some
            && input_type == last_input_type && io.output.items@.len() < io.output.max_items
            ==> spec_ready_input(io, input_type, last_input_type) == io.input.items@.last(),
        spec_ready_input(io, input_type, last_input_type) matches Some(e) ==> {
            &&& io.input.items@.len() > 0
            &&& io.input.items@.last() == Some(e)
            &&& input_type is Some
            &&& input_type == last_input_type
            &&& io.output.items@.len() != io.output.max_items
        },
{
}

/// The input item the assembly works on next, if it can work now (see
/// `spec_ready_input`).
pub fn ready_input_item(io: &ItemIOContainer, input_type: Option<Item>, last_input_type: Option<Item>) -> (r: Option<EntityId>)
    ensures
        r == spec_ready_input(*io, input_type, last_input_type),
{
    let n = io.input.items.len();
    if n == 0 {
        return None;
    }
    let last = match io.input.items[n - 1] {
        Some(e) => e,
        None => { return None; },
    };
    let same = match (input_type, last_input_type) {
        (Some(a), Some(b)) => a == b,
        _ => false,
    };
    if !same {
        return None;
    }
    if io.output.max_items == io.output.items.len() {
        return None;
    }
    Some(last)
}

/// Finishes one production step once the timer has run out: the new
/// `output` item (entity and type; `None` when the assembly produces
/// nothing) enters the output, and `input_entity` leaves the input.  When
/// either move fails, neither container changes and the result is
/// `false` (the application then despawns the new item).
pub fn produce_goods(io: &mut ItemIOContainer, input_entity: EntityId, output: Option<(EntityId, Item)>) -> (finished: bool)
    requires
        output matches Some(o) ==> !old(io).output.items@.contains(Some(o.0)),
    ensures
        final(io).input.max_items == old(io).input.max_items,
        final(io).input.item_type == old(io).input.item_type,
        final(io).input.width == old(io).input.width,
        final(io).output.max_items == old(io).output.max_items,
        final(io).output.item_type == old(io).output.item_type,
        final(io).output.width == old(io).output.width,
        finished == (old(io).input.items@.contains(Some(input_entity)) && match output {
            Some(o) => add_error(old(io).output.items@.len(), old(io).output.max_items as nat,
                old(io).output.item_type, Some(o.1)) is None,
            None => true,
        }),
        finished ==> final(io).input.items@ == old(io).input.items@.remove_value(Some(input_entity))
            && final(io).output.items@ == match output {
                Some(o) => old(io).output.items@.push(Some(o.0)),
                None => old(io).output.items@,
            },
        !finished ==> final(io).input.items@ == old(io).input.items@ && final(io).output.items@ == old(io).output.items@,
        // production never overfills the output
        old(io).output.items@.len() <= old(io).output.max_items ==> final(io).output.items@.len() <= final(io).output.max_items,
{
    match output {
        Some((out, out_type)) => {
            match io.output.add_item((Some(out), Some(out_type))) {
                Ok(()) => {
                    match io.input.remove_item(Some(input_entity)) {
                        Ok(_) => true,
                        Err(_) => {
                            assert(io.output.items@ == old(io).output.items@.push(Some(out)));
                            assert(io.output.items@[old(io).output.items@.len() as int] == Some(out));
                            assert(io.output.items@.contains(Some(out)));
                            let _ = io.output.remove_item(Some(out));
                            proof {
                                crate::container::lemma_add_then_remove(old(io).output.items@, Some(out));
                            }
                            false
                        },
                    }
                },
                Err(_) => {
                    let _ = io.output.remove_item(Some(out));
                    false
                },
            }
        },
        None => {
            match io.input.remove_item(Some(input_entity)) {
                Ok(_) => true,
                Err(_) => false,
            }
        },
    }
}

/// A finished production step consumes exactly one occurrence of the input
/// item and adds exactly one new item to the output.
pub proof fn lemma_production_step_counts(input: Seq<Option<EntityId>>, output: Seq<Option<EntityId>>, consumed: Option<EntityId>, produced: Option<EntityId>)
    requires
        input.contains(consumed),
    ensures
        count_of(input.remove_value(consumed), consumed) + 1 == count_of(input, consumed),
        count_of(output.push(produced), produced) == count_of(output, produced) + 1,
        input.remove_value(consumed).len() + 1 == input.len(),
{
    input.index_of_first_ensures(consumed);
    let i = input.index_of_first(consumed).unwrap();
    assert(input.remove(i).to_multiset() == input.to_multiset().remove(input[i]));
    assert(output.push(produced).to_multiset() =~= output.to_multiset().insert(produced));
}

/// What to do with an assembly's progress bar.
#[derive(Clone, Copy, PartialEq, Eq, Structural, Debug)]
pub enum ProgressBarAction {
    Keep,
    Spawn,
    Remove,
}

/// An assembly shows a progress bar while its timer works on an item and
/// has made some progress: spawn the bar when it is missing, remove it when
/// it should not be shown.
pub fn show_assembly_progress_bars(timer_has_item: bool, progress_started: bool, bar_exists: bool) -> (action: ProgressBarAction)
    ensures
        action == if !timer_has_item || !progress_started {
            if bar_exists { ProgressBarAction::Remove } else { ProgressBarAction::Keep }
        } else {
            if bar_exists { ProgressBarAction::Keep } else { ProgressBarAction::Spawn }
        },
{
    if !timer_has_item || !progress_started {
        if bar_exists { ProgressBarAction::Remove } else { ProgressBarAction::Keep }
    } else if bar_exists {
        ProgressBarAction::Keep
    } else {
        ProgressBarAction::Spawn
    }
}

/// Whether an assembly may be placed on the clicked tile: there must be a
/// tile under the cursor and no collision on it.
pub fn place_assembly(tile_pos: Option<TilePos>, collision_tiles: &Vec<TilePos>) -> (allowed: bool)
    ensures
        allowed == (tile_pos matches Some(t) && !collision_tiles@.contains(t)),
{
    match tile_pos {
        Some(t) => !contains_tile(collision_tiles, &t),
        None => false,
    }
}

/// What an assembly consumes and what it produces.
pub open spec fn spec_recipe(t: AssemblyType) -> (Item, Item) {
    match t {
        AssemblyType::WoodChipper => (Item::Resource(ResourceItem::Wood), Item::Resource(ResourceItem::WoodChips)),
        AssemblyType::PulpMachine => (Item::Resource(ResourceItem::WoodChips), Item::Material(MaterialItem::WoodPulp)),
        AssemblyType::PaperMachine => (Item::Material(MaterialItem::WoodPulp), Item::Good(GoodItem::Paper)),
        AssemblyType::SawMill => (Item::Resource(ResourceItem::Wood), Item::Resource(ResourceItem::Lumber)),
    }
}

/// How many items an assembly's input holds, and how many a row of it
/// shows.
pub open spec fn input_capacity(t: AssemblyType) -> (nat, int) {
    match t {
        AssemblyType::PaperMachine => (25, 2),
        _ => (4, 4),
    }
}

impl AssemblyType {
    /// The item type the assembly consumes and the one it produces.
    pub fn recipe(self) -> (r: (AssemblyInput, AssemblyOutput))
        ensures
            r.0.0 == Some(spec_recipe(self).0),
            r.1.0 == Some(spec_recipe(self).1),
    {
        match self {
            AssemblyType::WoodChipper => (
                AssemblyInput(Some(Item::Resource(ResourceItem::Wood))),
                AssemblyOutput(Some(Item::Resource(ResourceItem::WoodChips))),
            ),
            AssemblyType::PulpMachine => (
                AssemblyInput(Some(Item::Resource(ResourceItem::WoodChips))),
                AssemblyOutput(Some(Item::Material(MaterialItem::WoodPulp))),
            ),
            AssemblyType::PaperMachine => (
                AssemblyInput(Some(Item::Material(MaterialItem::WoodPulp))),
                AssemblyOutput(Some(Item::Good(GoodItem::Paper))),
            ),
            AssemblyType::SawMill => (
                AssemblyInput(Some(Item::Resource(ResourceItem::Wood))),
                AssemblyOutput(Some(Item::Resource(ResourceItem::Lumber))),
            ),
        }
    }

    /// A newly built assembly's empty containers: an input that accepts
    /// only what the assembly consumes (twenty-five items, two per row, for
    /// the paper machine; four in one row otherwise) and an output of four
    /// items of any kind in one row.
    pub fn containers(self) -> (io: ItemIOContainer)
        ensures
            io.input.items@.len() == 0,
            io.input.item_type == Some(spec_recipe(self).0),
            io.input.max_items == input_capacity(self).0,
            io.input.width == input_capacity(self).1,
            io.output.items@.len() == 0,
            io.output.item_type is None,
            io.output.max_items == 4,
            io.output.width == 4,
    {
        let (input, _) = self.recipe();
        let (max_items, width): (usize, i32) = match self {
            AssemblyType::PaperMachine => (25, 2),
            _ => (4, 4),
        };
        ItemIOContainer {
            input: ItemContainer { items: Vec::new(), max_items, item_type: input.0, width },
            output: ItemContainer { items: Vec::new(), max_items: 4, item_type: None, width: 4 },
        }
    }
}

/// A newly built assembly's input takes what the assembly consumes until it
/// is full: four items for the wood chipper, pulp machine and saw mill
/// (shown in one row of four), twenty-five for the paper machine (two per
/// row); one more is refused for lack of room.
pub proof fn law_fresh_input_takes_recipe(t: AssemblyType, n: nat)
    ensures
        n < (if t == AssemblyType::PaperMachine { 25nat } else { 4nat })
            ==> add_error(n, input_capacity(t).0, Some(spec_recipe(t).0), Some(spec_recipe(t).0)) is None,
        add_error(
            if t == AssemblyType::PaperMachine { 25nat } else { 4nat },
            input_capacity(t).0,
            Some(spec_recipe(t).0),
            Some(spec_recipe(t).0),
        ) == Some(MAX_ITEMS_REACHED),
        input_capacity(t).1 == if t == AssemblyType::PaperMachine { 2int } else { 4int },
{
}

/// Nothing an assembly makes is a dead end: every product is traded on the
/// market or consumed by some assembly.
pub proof fn lemma_products_are_used(t: AssemblyType)
    ensures
        spec_purchasable(spec_recipe(t).1) is Some || exists|u: AssemblyType| spec_recipe(u).0 == spec_recipe(t).1,
{
    if t == AssemblyType::PulpMachine {
        assert(spec_recipe(AssemblyType::PaperMachine).0 == spec_recipe(t).1);
    }
}

/// An assembly's input container only admits what the assembly consumes.
pub proof fn lemma_input_admits_only_recipe(t: AssemblyType, io: ItemIOContainer, it: Option<Item>)
    requires
        io.input.item_type == Some(spec_recipe(t).0),
        add_error(io.input.items@.len(), io.input.max_items as nat, io.input.item_type, it) is None,
    ensures
        it == Some(spec_recipe(t).0),
{
}

} // verus!
