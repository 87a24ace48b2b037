use vstd::prelude::*;
use crate::container::{EntityId, ItemContainer, add_error};
use crate::items::{Item, PurchasableItem, spec_item_of};

verus! {

/// The container contents, and which purchases it took, after the first
/// `k` purchased items (of kinds `bought`, spawned as `spawned`) were
/// offered to it in order.
pub open spec fn receive_upto(
    items: Seq<Option<EntityId>>,
    max_items: nat,
    accepted: Option<Item>,
    bought: Seq<PurchasableItem>,
    spawned: Seq<EntityId>,
    k: int,
) -> (Seq<Option<EntityId>>, Seq<bool>)
    decreases k,
{
    if k <= 0 {
        (items, Seq::empty())
    } else {
        let prev = receive_upto(items, max_items, accepted, bought, spawned, k - 1);
        let ok = add_error(prev.0.len(), max_items, accepted, Some(spec_item_of(bought[k - 1]))) is None;
        (if ok { prev.0.push(Some(spawned[k - 1])) } else { prev.0 }, prev.1.push(ok))
    }
}

proof fn lemma_receive_grows(
    items: Seq<Option<EntityId>>,
    max_items: nat,
    accepted: Option<Item>,
    bought: Seq<PurchasableItem>,
    spawned: Seq<EntityId>,
    j: int,
    k: int,
)
    requires
        0 <= j < k,
    ensures
        receive_upto(items, max_items, accepted, bought, spawned, k).1.len() == k,
        receive_upto(items, max_items, accepted, bought, spawned, k).1[j]
            == receive_upto(items, max_items, accepted, bought, spawned, j + 1).1[j],
        receive_upto(items, max_items, accepted, bought, spawned, k).0.len() >= items.len(),
        receive_upto(items, max_items, accepted, bought, spawned, k).0.subrange(0, items.len() as int) == items,
    decreases k,
{
    if k - 1 > j {
        lemma_receive_grows(items, max_items, accepted, bought, spawned, j, k - 1);
    } else if k - 1 > 0 {
        lemma_receive_grows(items, max_items, accepted, bought, spawned, k - 2, k - 1);
    }
    let prev = receive_upto(items, max_items, accepted, bought, spawned, k - 1);
    if k - 1 > 0 {
        assert(prev.0.subrange(0, items.len() as int) == items);
        assert(prev.0.push(Some(spawned[k - 1])).subrange(0, items.len() as int) =~= prev.0.subrange(0, items.len() as int));
    }
}

/// A delivery offers the purchases in order and keeps each one exactly when
/// the area still has room for it and takes its type (an untyped area takes
/// every type, goods as well as resources); a kept purchase's entity is
/// appended to the area, a refused one leaves it as it was, and the items
/// already there stay in front.
pub proof fn law_purchase_kept_when_it_fits(
    items: Seq<Option<EntityId>>,
    max_items: nat,
    accepted: Option<Item>,
    bought: Seq<PurchasableItem>,
    spawned: Seq<EntityId>,
    j: int,
)
    requires
        0 <= j < bought.len(),
    ensures
        ({
            let before = receive_upto(items, max_items, accepted, bought, spawned, j);
            let after = receive_upto(items, max_items, accepted, bought, spawned, j + 1);
            let all = receive_upto(items, max_items, accepted, bought, spawned, bought.len() as int);
            let fits = before.0.len() < max_items
                && (accepted is None || accepted == Some(spec_item_of(bought[j])));
            &&& all.1.len() == bought.len()
            &&& all.1[j] == fits
            &&& fits ==> after.0 == before.0.push(Some(spawned[j]))
            &&& !fits ==> after.0 == before.0
            &&& all.0.len() >= items.len()
            &&& all.0.subrange(0, items.len() as int) == items
        }),
{
    lemma_receive_grows(items, max_items, accepted, bought, spawned, j, bought.len() as int);
    lemma_receive_grows(items, max_items, accepted, bought, spawned, j, j + 1);
}

/// Delivers the night's purchases to a delivery area.  A full area takes
/// nothing (and nothing is spawned for it: the result is empty).
/// Otherwise each purchased item, in order, is offered to the container,
/// which keeps it while it has room and the item's type suits it; the
/// result tells which were kept (the application despawns the others and
/// charges for the kept ones).
pub fn purchase_receivables(container: &mut ItemContainer, bought: &Vec<PurchasableItem>, spawned: &Vec<EntityId>) -> (kept: Vec<bool>)
    requires
        spawned@.len() == bought@.len(),
    ensures
        final(container).max_items == old(container).max_items,
        final(container).item_type == old(container).item_type,
        final(container).width == old(container).width,
        old(container).items@.len() >= old(container).max_items ==> kept@.len() == 0
            && final(container).items@ == old(container).items@,
        // a delivery never overfills the area
        final(container).items@.len() <= final(container).max_items || final(container).items@ == old(container).items@,
        old(container).items@.len() < old(container).max_items ==> (final(container).items@, kept@) == receive_upto(
            old(container).items@, old(container).max_items as nat, old(container).item_type, bought@, spawned@,
            bought@.len() as int),
{
    let mut kept: Vec<bool> = Vec::new();
    if container.items.len() >= container.max_items {
        return kept;
    }
    let mut i: usize = 0;
    while i < bought.len()
        invariant
            i <= bought@.len(),
            spawned@.len() == bought@.len(),
            container.max_items == old(container).max_items,
            container.item_type == old(container).item_type,
            container.width == old(container).width,
            (container.items@, kept@) == receive_upto(old(container).items@, old(container).max_items as nat,
                old(container).item_type, bought@, spawned@, i as int),
            container.items@.len() <= container.max_items,
        decreases bought@.len() - i,
    {
        let item = bought[i].to_item();
        let ok = container.add_item((Some(spawned[i]), Some(item))).is_ok();
        kept.push(ok);
        i += 1;
    }
    kept
}

} // verus!
