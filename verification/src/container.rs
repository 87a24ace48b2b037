use vstd::prelude::*;
use crate::items::Item;
use vstd::arithmetic::div_mod::{
    lemma_div_is_ordered,
    lemma_fundamental_div_mod,
    lemma_fundamental_div_mod_converse,
    lemma_mod_pos_bound,
};

verus! {

/// The engine's identifier of an entity (an item, a worker, a container).
pub type EntityId = u64;

/// The grid cell, counted in columns (`x`) and rows (`y`) from the first
/// cell, at which an item of a container is drawn.
#[derive(Clone, Copy, PartialEq, Eq, Structural, Debug)]
pub struct ItemSlot {
    pub x: i32,
    pub y: i32,
}

/// A bounded list of items, optionally restricted to one item type, laid out
/// on a grid `width` cells wide.
pub struct ItemContainer {
    pub items: Vec<Option<EntityId>>,
    pub max_items: usize,
    pub item_type: Option<Item>,
    pub width: i32,
}

/// An assembly's pair of containers: what goes in and what comes out.
pub struct ItemIOContainer {
    pub input: ItemContainer,
    pub output: ItemContainer,
}

/// An assembly's containers.
pub type AssemblyItemContainer = ItemIOContainer;

pub const MAX_ITEMS_REACHED: &'static str = "Maximum number of items reached";
pub const INVALID_ITEM_TYPE: &'static str = "Invalid item type";
pub const INVALID_INDEX: &'static str = "Invalid index";
pub const ITEM_NOT_FOUND: &'static str = "Item not found";

/// The cell of the `index`-th item on a grid `w` cells wide: items fill a
/// row left to right, then start the next row.
pub open spec fn spec_slot(index: nat, w: nat) -> ItemSlot {
    if w == 0 {
        ItemSlot { x: 0, y: 0 }
    } else {
        ItemSlot { x: (index % w) as i32, y: (index / w) as i32 }
    }
}

/// The largest column that the cell walk up to `index` passes through on a
/// grid `w` cells wide.
pub open spec fn widest_column(index: nat, w: nat) -> nat {
    if index >= w { (w - 1) as nat } else { index }
}

/// Whether the cells up to `index` on a grid `w` cells wide can be counted
/// in 32-bit signed columns and rows: the width is not zero once a second
/// cell is needed, and neither the row of `index` nor any column passed on
/// the way exceeds `i32::MAX`.
pub open spec fn slot_fits(index: nat, w: nat) -> bool {
    index == 0 || (w != 0 && index / w <= i32::MAX && widest_column(index, w) <= i32::MAX)
}

/// The index of the last item of a list of `len` items (0 when empty).
pub open spec fn last_index(len: nat) -> nat {
    if len == 0 { 0 } else { (len - 1) as nat }
}

proof fn lemma_slot_fits_smaller(m: nat, n: nat, w: nat)
    requires
        slot_fits(n, w),
        m <= n,
    ensures
        slot_fits(m, w),
{
    if m > 0 {
        lemma_div_is_ordered(m as int, n as int, w as int);
    }
}

/// Whether an item of type `t` may enter a container that accepts
/// `accepted` (no restriction when `None`).
pub open spec fn accepts(accepted: Option<Item>, t: Option<Item>) -> bool {
    match accepted {
        Some(a) => t == Some(a),
        None => true,
    }
}

/// The error `add_item` reports for a container holding `len` items, with
/// room for `max_items`, restricted to `accepted`, given an item of type `t`.
pub open spec fn add_error(len: nat, max_items: nat, accepted: Option<Item>, t: Option<Item>) -> Option<&'static str> {
    if len >= max_items {
        Some(MAX_ITEMS_REACHED)
    } else if !accepts(accepted, t) {
        Some(INVALID_ITEM_TYPE)
    } else {
        None
    }
}

/// The placements that `move_container_items` computes for the first
/// `items.len()` slots: each present item with its cell, in order.
pub open spec fn placements(items: Seq<Option<EntityId>>, w: nat) -> Seq<(EntityId, ItemSlot)>
    decreases items.len(),
{
    if items.len() == 0 {
        Seq::empty()
    } else {
        let rest = placements(items.drop_last(), w);
        match items.last() {
            Some(e) => rest.push((e, spec_slot((items.len() - 1) as nat, w))),
            None => rest,
        }
    }
}

proof fn lemma_slot_step(j: int, w: int)
    requires
        w > 0,
        j >= 0,
    ensures
        (j + 1) % w == 0 ==> (j + 1) / w == j / w + 1,
        (j + 1) % w != 0 ==> (j + 1) % w == j % w + 1 && (j + 1) / w == j / w,
        0 <= j % w <= j,
        0 <= j / w <= j,
{
    lemma_fundamental_div_mod(j, w);
    lemma_mod_pos_bound(j, w);
    let q = j / w;
    let r = j % w;
    assert(q >= 0) by (nonlinear_arith)
        requires
            j == w * q + r,
            0 <= r < w,
            j >= 0,
    ;
    assert(q <= j) by (nonlinear_arith)
        requires
            j == w * q + r,
            0 <= r,
            w >= 1,
            q >= 0,
    ;
    if r + 1 < w {
        assert(j + 1 == q * w + (r + 1)) by (nonlinear_arith)
            requires
                j == w * q + r,
        ;
        lemma_fundamental_div_mod_converse(j + 1, w, q, r + 1);
    } else {
        assert(j + 1 == (q + 1) * w + 0) by (nonlinear_arith)
            requires
                j == w * q + r,
                r + 1 == w,
        ;
        lemma_fundamental_div_mod_converse(j + 1, w, q + 1, 0);
    }
}

impl Default for ItemContainer {
    fn default() -> (c: Self)
        ensures
            c.items@ == Seq::<Option<EntityId>>::empty(),
            c.max_items == 1,
            c.item_type is None,
            c.width == 1,
    {
        ItemContainer { items: Vec::new(), max_items: 1, item_type: None, width: 1 }
    }
}

impl ItemContainer {
    /// An empty container with room for `max_items` items of any type, laid
    /// out in a single column.
    pub fn new(max_items: usize) -> (c: Self)
        ensures
            c.items@ == Seq::<Option<EntityId>>::empty(),
            c.max_items == max_items,
            c.item_type is None,
            c.width == 1,
    {
        ItemContainer { items: Vec::new(), max_items, item_type: None, width: 1 }
    }

    /// Appends `item.0` when there is room and its type `item.1` is one the
    /// container accepts; otherwise reports why not and changes nothing.
    pub fn add_item(&mut self, item: (Option<EntityId>, Option<Item>)) -> (r: Result<(), &'static str>)
        ensures
            final(self).max_items == old(self).max_items,
            final(self).item_type == old(self).item_type,
            final(self).width == old(self).width,
            match add_error(old(self).items@.len(), old(self).max_items as nat, old(self).item_type, item.1) {
                Some(e) => r == Err::<(), &'static str>(e) && final(self).items@ == old(self).items@,
                None => r is Ok && final(self).items@ == old(self).items@.push(item.0),
            },
            old(self).items@.len() <= old(self).max_items ==> final(self).items@.len() <= final(self).max_items,
    {
        if self.items.len() >= self.max_items {
            return Err(MAX_ITEMS_REACHED);
        }
        if let Some(item_type) = self.item_type {
            let matches = match item.1 {
                Some(t) => t == item_type,
                None => false,
            };
            if !matches {
                return Err(INVALID_ITEM_TYPE);
            }
        }
        self.items.push(item.0);
        Ok(())
    }

    /// Removes the first occurrence of `item` and hands it back; reports
    /// `"Item not found"` when the container does not hold it.
    pub fn remove_item(&mut self, item: Option<EntityId>) -> (r: Result<Option<EntityId>, &'static str>)
        ensures
            final(self).max_items == old(self).max_items,
            final(self).item_type == old(self).item_type,
            final(self).width == old(self).width,
            old(self).items@.contains(item) ==> r == Ok::<Option<EntityId>, &'static str>(item)
                && final(self).items@ == old(self).items@.remove_value(item),
            !old(self).items@.contains(item) ==> r == Err::<Option<EntityId>, &'static str>(ITEM_NOT_FOUND)
                && final(self).items@ == old(self).items@,
    {
        let mut i: usize = 0;
        while i < self.items.len()
            invariant
                i <= self.items@.len(),
                self.items@ == old(self).items@,
                self.max_items == old(self).max_items,
                self.item_type == old(self).item_type,
                self.width == old(self).width,
                forall|j: int| 0 <= j < i ==> self.items@[j] != item,
            decreases self.items@.len() - i,
        {
            let found = match (self.items[i], item) {
                (Some(a), Some(b)) => a == b,
                (None, None) => true,
                _ => false,
            };
            if found {
                proof {
                    self.items@.index_of_first_ensures(item);
                    let k = self.items@.index_of_first(item).unwrap();
                    assert(k == i);
                }
                let removed = self.items.remove(i);
                return Ok(removed);
            }
            i += 1;
        }
        proof {
            self.items@.index_of_first_ensures(item);
        }
        Err(ITEM_NOT_FOUND)
    }

    /// Removes and hands back the item at `index`; reports
    /// `"Invalid index"` when there is none.
    pub fn remove_index(&mut self, index: usize) -> (r: Result<Option<EntityId>, &'static str>)
        ensures
            final(self).max_items == old(self).max_items,
            final(self).item_type == old(self).item_type,
            final(self).width == old(self).width,
            index < old(self).items@.len() ==> r == Ok::<Option<EntityId>, &'static str>(old(self).items@[index as int])
                && final(self).items@ == old(self).items@.remove(index as int),
            index >= old(self).items@.len() ==> r == Err::<Option<EntityId>, &'static str>(INVALID_INDEX)
                && final(self).items@ == old(self).items@,
    {
        if index >= self.items.len() {
            return Err(INVALID_INDEX);
        }
        Ok(self.items.remove(index))
    }

    /// The items, in the order they were added.
    pub fn get_items(&self) -> (items: &[Option<EntityId>])
        ensures
            items@ == self.items@,
    {
        self.items.as_slice()
    }

    /// The cell of the `index`-th item: column `index % width`, row
    /// `index / width` (the width read as unsigned).  The application draws
    /// the item 16 pixels per column to the right of, and 16 pixels per row
    /// below, the container's first cell.
    pub fn get_transform_at_index(&self, index: usize) -> (slot: ItemSlot)
        requires
            index < usize::MAX,
            slot_fits(index as nat, (self.width as usize) as nat),
        ensures
            slot == spec_slot(index as nat, (self.width as usize) as nat),
    {
        let width: i32 = self.width;
        let w: usize = width as usize;
        assert(width != 0 ==> w != 0) by (bit_vector)
            requires
                w == width as usize,
        ;
        let mut x: i32 = 0;
        let mut y: i32 = 0;
        let mut i: usize = 1;
        while i < index + 1
            invariant
                1 <= i <= index + 1,
                index < usize::MAX,
                slot_fits(index as nat, w as nat),
                (ItemSlot { x, y }) == spec_slot((i - 1) as nat, w as nat),
            decreases index + 1 - i,
        {
            proof {
                lemma_slot_step((i - 1) as int, w as int);
                lemma_slot_step(i as int, w as int);
                lemma_mod_pos_bound(i as int, w as int);
                lemma_div_is_ordered(i as int, index as int, w as int);
            }
            if i % w == 0 {
                y = y + 1;
                x = 0;
            } else {
                x = x + 1;
            }
            i = i + 1;
        }
        ItemSlot { x, y }
    }

    /// The cell of the last item (the first cell when the container is
    /// empty).
    pub fn get_transform(&self) -> (slot: ItemSlot)
        requires
            slot_fits(last_index(self.items@.len()), (self.width as usize) as nat),
        ensures
            slot == spec_slot(
                if self.items@.len() == 0 { 0 } else { (self.items@.len() - 1) as nat },
                (self.width as usize) as nat,
            ),
    {
        let len = self.items.len();
        if len == 0 {
            ItemSlot { x: 0, y: 0 }
        } else {
            self.get_transform_at_index(len - 1)
        }
    }
}

/// Every present item of the container with the cell it is drawn at, in
/// the container's order; empty entries are skipped.
pub fn move_container_items(container: &ItemContainer) -> (moves: Vec<(EntityId, ItemSlot)>)
    requires
        slot_fits(last_index(container.items@.len()), (container.width as usize) as nat),
    ensures
        moves@ == placements(container.items@, (container.width as usize) as nat),
{
    let mut moves: Vec<(EntityId, ItemSlot)> = Vec::new();
    let mut i: usize = 0;
    while i < container.items.len()
        invariant
            i <= container.items@.len(),
            slot_fits(last_index(container.items@.len()), (container.width as usize) as nat),
            moves@ == placements(container.items@.take(i as int), (container.width as usize) as nat),
        decreases container.items@.len() - i,
    {
        let ghost w = (container.width as usize) as nat;
        proof {
            assert(container.items@.take(i + 1).drop_last() =~= container.items@.take(i as int));
        }
        proof {
            lemma_slot_fits_smaller(i as nat, last_index(container.items@.len()), w);
        }
        if let Some(entity) = container.items[i] {
            let slot = container.get_transform_at_index(i);
            moves.push((entity, slot));
        }
        i += 1;
    }
    proof {
        assert(container.items@.take(container.items@.len() as int) =~= container.items@);
    }
    moves
}

} // verus!

verus! {

/// Adding an item the container did not hold and then removing that item
/// gives back the original contents.
pub proof fn lemma_add_then_remove(items: Seq<Option<EntityId>>, e: Option<EntityId>)
    requires
        !items.contains(e),
    ensures
        items.push(e).remove_value(e) == items,
{
    let s = items.push(e);
    s.index_of_first_ensures(e);
    assert(s[items.len() as int] == e);
    assert(s.contains(e));
    let k = s.index_of_first(e).unwrap();
    if k < items.len() {
        assert(items[k] == e);
        assert(items.contains(e));
    }
    assert(k == items.len());
    assert(s.remove(k) =~= items);
}

} // verus!
