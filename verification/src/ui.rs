use vstd::prelude::*;
use crate::items::{PurchasableItem, ResourceItem, GoodItem};
use crate::tiles::TilePos;

verus! {

broadcast use vstd::seq_lib::group_to_multiset_ensures, vstd::multiset::group_multiset_axioms;

/// Whether a sprite is drawn: inherited from its parent, hidden or visible.
#[derive(Clone, Copy, PartialEq, Eq, Structural, Debug)]
pub enum Visibility {
    Inherited,
    Hidden,
    Visible,
}

/// Shows a hidden container selector and hides any other.
pub fn toggle_container_selectors(selector: &mut Visibility)
    ensures
        *final(selector) == if *old(selector) == Visibility::Hidden { Visibility::Visible } else { Visibility::Hidden },
{
    if *selector == Visibility::Hidden {
        *selector = Visibility::Visible;
    } else {
        *selector = Visibility::Hidden;
    }
}

/// Whether the pointer hovers over a button.
#[derive(Clone, Copy, PartialEq, Eq, Structural, Debug)]
pub struct ImageButtonState {
    pub hover: bool,
}

/// Which of its three images a button shows.
#[derive(Clone, Copy, PartialEq, Eq, Structural, Debug)]
pub enum ButtonImage {
    Normal,
    Selected,
    Hover,
}

/// A button shows its hover image while hovered, else its selected image
/// while selected, else its normal image; before its state exists it shows
/// the normal image.
pub fn image_button_render(selected: bool, state: Option<ImageButtonState>) -> (image: ButtonImage)
    ensures
        image == match state {
            Some(s) => if s.hover {
                ButtonImage::Hover
            } else if selected {
                ButtonImage::Selected
            } else {
                ButtonImage::Normal
            },
            None => ButtonImage::Normal,
        },
{
    let mut image = ButtonImage::Normal;
    if let Some(s) = state {
        if selected {
            image = ButtonImage::Selected;
        }
        if s.hover {
            image = ButtonImage::Hover;
        }
    }
    image
}

/// The tile under the mouse cursor.
pub struct MouseTile(pub TilePos);

/// Follows the cursor: a cursor over the map moves the tile, a cursor off
/// the map leaves the last tile.
pub fn set_mouse_tile_res(mouse_tile: &mut MouseTile, tile_pos: Option<TilePos>)
    ensures
        final(mouse_tile).0 == match tile_pos {
            Some(t) => t,
            None => old(mouse_tile).0,
        },
{
    if let Some(t) = tile_pos {
        mouse_tile.0 = t;
    }
}

/// The items the player has chosen to import overnight, one entry per unit.
pub struct ImportSelections {
    pub selected: Vec<PurchasableItem>,
}

/// How many times `item` occurs in `s`.
pub open spec fn count_item(s: Seq<PurchasableItem>, item: PurchasableItem) -> nat {
    s.to_multiset().count(item)
}

impl ImportSelections {
    /// How many units of `item` are chosen.
    pub fn selected_count(&self, item: PurchasableItem) -> (n: usize)
        ensures
            n == count_item(self.selected@, item),
    {
        let mut n: usize = 0;
        let mut i: usize = 0;
        while i < self.selected.len()
            invariant
                i <= self.selected@.len(),
                n <= i,
                n == count_item(self.selected@.take(i as int), item),
            decreases self.selected@.len() - i,
        {
            proof {
                assert(self.selected@.take(i + 1) =~= self.selected@.take(i as int).push(self.selected@[i as int]));
            }
            if self.selected[i] == item {
                n = n + 1;
            }
            i += 1;
        }
        proof {
            assert(self.selected@.take(i as int) =~= self.selected@);
        }
        n
    }

    /// Chooses one more unit of `item`.
    pub fn select(&mut self, item: PurchasableItem)
        ensures
            final(self).selected@ == old(self).selected@.push(item),
    {
        self.selected.push(item);
    }

    /// Takes back one chosen unit of `item` (the first one chosen), if any.
    pub fn deselect(&mut self, item: PurchasableItem)
        ensures
            final(self).selected@ == old(self).selected@.remove_value(item),
    {
        let mut i: usize = 0;
        while i < self.selected.len()
            invariant
                i <= self.selected@.len(),
                self.selected@ == old(self).selected@,
                forall|j: int| 0 <= j < i ==> self.selected@[j] != item,
            decreases self.selected@.len() - i,
        {
            if self.selected[i] == item {
                proof {
                    self.selected@.index_of_first_ensures(item);
                    let k = self.selected@.index_of_first(item).unwrap();
                    assert(k == i);
                }
                self.selected.remove(i);
                return;
            }
            i += 1;
        }
        proof {
            self.selected@.index_of_first_ensures(item);
        }
    }
}

/// Choosing a unit of an item adds one to its count and leaves the other
/// items' counts alone; taking one back removes one from its count (when
/// there is one) and leaves the others alone.
pub proof fn lemma_select_deselect_counts(s: Seq<PurchasableItem>, x: PurchasableItem, y: PurchasableItem)
    ensures
        count_item(s.push(x), x) == count_item(s, x) + 1,
        y != x ==> count_item(s.push(x), y) == count_item(s, y),
        count_item(s.remove_value(x), x) == if count_item(s, x) > 0 { count_item(s, x) - 1 } else { 0 },
        y != x ==> count_item(s.remove_value(x), y) == count_item(s, y),
{
    broadcast use vstd::seq_lib::group_to_multiset_ensures, vstd::multiset::group_multiset_axioms;
    vstd::seq_lib::to_multiset_build(s, x);
    crate::worker::lemma_remove_value_count(s, x);
    assert(crate::worker::count_of(s.remove_value(x), y) == count_item(s.remove_value(x), y));
}

/// Whether a widget that follows the import choices is drawn again: when
/// its own properties or the choices changed.
pub fn widget_update_with_import_selection(widget_changed: bool, selections_changed: bool) -> (update: bool)
    ensures
        update == (widget_changed || selections_changed),
{
    widget_changed || selections_changed
}

/// Whether a widget that follows the player's money is drawn again: when
/// its own properties or the money changed.
pub fn widget_update_with_money(widget_changed: bool, money_changed: bool) -> (update: bool)
    ensures
        update == (widget_changed || money_changed),
{
    widget_changed || money_changed
}

/// Whether a widget that follows the player's mode is drawn again: when
/// its own properties or the mode changed.
pub fn widget_update_with_player_state(widget_changed: bool, player_state_changed: bool) -> (update: bool)
    ensures
        update == (widget_changed || player_state_changed),
{
    widget_changed || player_state_changed
}

/// Where an item stands in the list of imports: resources first, then
/// goods, each group in the alphabetical order of the items' names
/// (Lumber, Wood, WoodChips; Paper).
pub open spec fn import_rank(p: PurchasableItem) -> int {
    match p {
        PurchasableItem::Resource(ResourceItem::Lumber) => 0,
        PurchasableItem::Resource(ResourceItem::Wood) => 1,
        PurchasableItem::Resource(ResourceItem::WoodChips) => 2,
        PurchasableItem::Good(GoodItem::Paper) => 3,
    }
}

/// The entries of `items` of rank `r`, in their order.
pub open spec fn of_rank(items: Seq<PurchasableItem>, r: int) -> Seq<PurchasableItem> {
    items.filter(|p: PurchasableItem| import_rank(p) == r)
}

/// The entries of `items` of the ranks below `r`, rank by rank, each rank
/// in the order of `items`.
pub open spec fn ranked_upto(items: Seq<PurchasableItem>, r: int) -> Seq<PurchasableItem>
    decreases r,
{
    if r <= 0 { Seq::empty() } else { ranked_upto(items, r - 1) + of_rank(items, r - 1) }
}

fn rank_of(p: PurchasableItem) -> (r: u8)
    ensures
        r == import_rank(p),
{
    match p {
        PurchasableItem::Resource(ResourceItem::Lumber) => 0,
        PurchasableItem::Resource(ResourceItem::Wood) => 1,
        PurchasableItem::Resource(ResourceItem::WoodChips) => 2,
        PurchasableItem::Good(GoodItem::Paper) => 3,
    }
}

/// The order in which the night screen lists the market's items: sorted
/// by `import_rank`, keeping the given order among equal ranks.
pub fn sorted_imports(items: &Vec<PurchasableItem>) -> (sorted: Vec<PurchasableItem>)
    ensures
        sorted@ == ranked_upto(items@, 4),
{
    let mut sorted: Vec<PurchasableItem> = Vec::new();
    let mut r: u8 = 0;
    while r < 4
        invariant
            r <= 4,
            sorted@ == ranked_upto(items@, r as int),
        decreases 4 - r,
    {
        let mut i: usize = 0;
        while i < items.len()
            invariant
                i <= items@.len(),
                r < 4,
                sorted@ == ranked_upto(items@, r as int) + of_rank(items@.take(i as int), r as int),
            decreases items@.len() - i,
        {
            proof {
                reveal_with_fuel(Seq::filter, 1);
                assert(items@.take(i + 1).drop_last() =~= items@.take(i as int));
            }
            if rank_of(items[i]) == r {
                sorted.push(items[i]);
            }
            proof {
                assert(sorted@ =~= ranked_upto(items@, r as int) + of_rank(items@.take(i + 1), r as int));
            }
            i += 1;
        }
        proof {
            assert(items@.take(i as int) =~= items@);
        }
        r += 1;
    }
    sorted
}

proof fn lemma_of_rank_count(items: Seq<PurchasableItem>, k: int, y: PurchasableItem)
    ensures
        of_rank(items, k).to_multiset().count(y) == if import_rank(y) == k { items.to_multiset().count(y) } else { 0 },
    decreases items.len(),
{
    broadcast use vstd::seq_lib::group_to_multiset_ensures, vstd::multiset::group_multiset_axioms;
    if items.len() == 0 {
        assert(of_rank(items, k) =~= Seq::<PurchasableItem>::empty());
    } else {
        let s = items.drop_last();
        let x = items.last();
        assert(items =~= s.push(x));
        lemma_of_rank_count(s, k, y);
        s.lemma_filter_push(x, |p: PurchasableItem| import_rank(p) == k);
        vstd::seq_lib::to_multiset_build(s, x);
        vstd::seq_lib::to_multiset_build(of_rank(s, k), x);
    }
}

proof fn lemma_ranked_count(items: Seq<PurchasableItem>, r: int, y: PurchasableItem)
    requires
        0 <= r,
    ensures
        ranked_upto(items, r).to_multiset().count(y) == if import_rank(y) < r { items.to_multiset().count(y) } else { 0 },
    decreases r,
{
    broadcast use vstd::seq_lib::group_to_multiset_ensures, vstd::multiset::group_multiset_axioms;
    if r == 0 {
        assert(ranked_upto(items, r) =~= Seq::<PurchasableItem>::empty());
    } else {
        lemma_ranked_count(items, r - 1, y);
        lemma_of_rank_count(items, r - 1, y);
        vstd::seq_lib::lemma_multiset_commutative(ranked_upto(items, r - 1), of_rank(items, r - 1));
    }
}

/// The imports list is sorted by rank and holds each of the market's items
/// as often as the market lists it.
pub proof fn lemma_sorted_imports(items: Seq<PurchasableItem>, r: int)
    requires
        0 <= r <= 4,
    ensures
        forall|i: int, j: int| 0 <= i < j < ranked_upto(items, r).len() ==> import_rank(#[trigger] ranked_upto(items, r)[i])
            <= import_rank(#[trigger] ranked_upto(items, r)[j]),
        forall|i: int| 0 <= i < ranked_upto(items, r).len() ==> import_rank(#[trigger] ranked_upto(items, r)[i]) < r,
        r == 4 ==> ranked_upto(items, r).to_multiset() =~= items.to_multiset(),
    decreases r,
{
    if r > 0 {
        lemma_sorted_imports(items, r - 1);
        let prev = ranked_upto(items, r - 1);
        let cur = of_rank(items, r - 1);
        let all = ranked_upto(items, r);
        assert(all == prev + cur);
        broadcast use vstd::seq_lib::group_filter_ensures;
        assert forall|i: int| 0 <= i < all.len() implies import_rank(#[trigger] all[i]) < r by {
            if i >= prev.len() {
                assert(all[i] == cur[i - prev.len()]);
            }
        }
        assert forall|i: int, j: int| 0 <= i < j < all.len() implies import_rank(#[trigger] all[i]) <= import_rank(#[trigger] all[j]) by {
            if j >= prev.len() {
                assert(all[j] == cur[j - prev.len()]);
                if i >= prev.len() {
                    assert(all[i] == cur[i - prev.len()]);
                }
            }
        }
    }
    if r == 4 {
        assert forall|y: PurchasableItem| ranked_upto(items, r).to_multiset().count(y) == items.to_multiset().count(y) by {
            lemma_ranked_count(items, r, y);
        }
    }
}

/// Whether the tutorial is running.
#[derive(Clone, Copy, PartialEq, Eq, Structural, Debug, Hash)]
pub enum TutorialState {
    Enabled,
    Disabled,
}

/// What the tutorial does this frame.
#[derive(Clone, Copy, PartialEq, Eq, Structural, Debug)]
pub enum TutorialAction {
    /// Nothing: the tutorial is off.
    Idle,
    /// Run the check of the given step.
    RunStep(usize),
    /// The steps are over: turn the tutorial off.
    Finish,
}

/// A running tutorial runs the check of its current step, and turns itself
/// off once the step is past the last one.
pub fn tutorial_system(state: TutorialState, step: u8, n_steps: usize) -> (action: TutorialAction)
    ensures
        action == if state == TutorialState::Disabled {
            TutorialAction::Idle
        } else if (step as usize) < n_steps {
            TutorialAction::RunStep(step as usize)
        } else {
            TutorialAction::Finish
        },
{
    if state == TutorialState::Disabled {
        return TutorialAction::Idle;
    }
    if (step as usize) < n_steps {
        TutorialAction::RunStep(step as usize)
    } else {
        TutorialAction::Finish
    }
}

} // verus!
