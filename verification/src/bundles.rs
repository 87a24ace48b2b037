use vstd::prelude::*;
use crate::container::{ItemContainer, EntityId};
use crate::items::{Item, GoodItem, ResourceItem, MaterialItem};
use crate::tiles::EntityTileSize;

verus! {

// The game's entities are spawned from bundles of components.  Here stand
// the parts of those bundles that the game rules read (what item an entity
// is, what a container holds and how much); the application adds the
// sprites.

/// Tags a wood entity.
pub struct Wood;

/// Tags a wood-chips entity.
pub struct WoodChips;

/// Tags a lumber entity.
pub struct Lumber;

/// Tags a paper entity.
pub struct Paper;

/// An item entity.
pub struct ItemBundle {
    pub item: Item,
}

/// A resource entity.
pub struct ResourceBundle {
    pub item: Item,
    pub resource: ResourceItem,
}

/// A good entity.
pub struct GoodBundle {
    pub item: Item,
    pub good: GoodItem,
}

/// A wood entity.
pub struct WoodBundle {
    pub item: Item,
    pub resource: ResourceItem,
    pub marker: Wood,
}

/// A wood-chips entity.
pub struct WoodChipsBundle {
    pub item: Item,
    pub resource: ResourceItem,
    pub marker: WoodChips,
}

/// A lumber entity.
pub struct LumberBundle {
    pub item: Item,
    pub resource: ResourceItem,
    pub marker: Lumber,
}

/// A paper entity.
pub struct PaperBundle {
    pub item: Item,
    pub good: GoodItem,
    pub marker: Paper,
}

/// A wood-pulp entity.
pub struct WoodPulpBundle {
    pub item: Item,
    pub material: MaterialItem,
}

/// A stack of items of one kind.
pub struct ItemStackBundle {
    pub item: Item,
    pub items: ItemContainer,
}

impl Default for WoodBundle {
    fn default() -> (b: Self)
        ensures
            b.item == Item::Resource(ResourceItem::Wood),
            b.resource == ResourceItem::Wood,
    {
        WoodBundle { item: Item::Resource(ResourceItem::Wood), resource: ResourceItem::Wood, marker: Wood }
    }
}

impl Default for WoodChipsBundle {
    fn default() -> (b: Self)
        ensures
            b.item == Item::Resource(ResourceItem::WoodChips),
            b.resource == ResourceItem::WoodChips,
    {
        WoodChipsBundle {
            item: Item::Resource(ResourceItem::WoodChips),
            resource: ResourceItem::WoodChips,
            marker: WoodChips,
        }
    }
}

impl Default for LumberBundle {
    fn default() -> (b: Self)
        ensures
            b.item == Item::Resource(ResourceItem::Lumber),
            b.resource == ResourceItem::Lumber,
    {
        LumberBundle { item: Item::Resource(ResourceItem::Lumber), resource: ResourceItem::Lumber, marker: Lumber }
    }
}

impl Default for PaperBundle {
    fn default() -> (b: Self)
        ensures
            b.item == Item::Good(GoodItem::Paper),
            b.good == GoodItem::Paper,
    {
        PaperBundle { item: Item::Good(GoodItem::Paper), good: GoodItem::Paper, marker: Paper }
    }
}

impl Default for WoodPulpBundle {
    fn default() -> (b: Self)
        ensures
            b.item == Item::Material(MaterialItem::WoodPulp),
            b.material == MaterialItem::WoodPulp,
    {
        WoodPulpBundle { item: Item::Material(MaterialItem::WoodPulp), material: MaterialItem::WoodPulp }
    }
}

/// Tags the area whose items are sold at night.
pub struct ItemExport;

/// The export area: holds up to a hundred items of any kind.
pub struct ItemExportBundle {
    pub depot: ItemExport,
    pub items: ItemContainer,
}

/// Tags the area where bought items are delivered.
pub struct ItemReceivable;

/// The delivery area: holds up to a hundred items of any kind and covers
/// two by four tiles.
pub struct ItemReceivableBundle {
    pub marker: ItemReceivable,
    pub container: ItemContainer,
    pub tile_size: EntityTileSize,
}

/// Tags a trade depot.
pub struct TradeDepot;

/// A trade depot: holds up to twenty-five items of any kind.
pub struct TradeDepotBundle {
    pub depot: TradeDepot,
    pub items: ItemContainer,
}

pub open spec fn empty_container(c: ItemContainer, max_items: nat) -> bool {
    &&& c.items@ == Seq::<Option<EntityId>>::empty()
    &&& c.max_items == max_items
    &&& c.item_type is None
    &&& c.width == 1
}

impl Default for ItemExportBundle {
    fn default() -> (b: Self)
        ensures
            empty_container(b.items, 100),
    {
        ItemExportBundle { depot: ItemExport, items: ItemContainer::new(100) }
    }
}

impl Default for ItemReceivableBundle {
    fn default() -> (b: Self)
        ensures
            empty_container(b.container, 100),
            b.tile_size == (EntityTileSize { x: 2, y: 4 }),
    {
        ItemReceivableBundle {
            marker: ItemReceivable,
            container: ItemContainer::new(100),
            tile_size: EntityTileSize { x: 2, y: 4 },
        }
    }
}

impl Default for TradeDepotBundle {
    fn default() -> (b: Self)
        ensures
            empty_container(b.items, 25),
    {
        TradeDepotBundle { depot: TradeDepot, items: ItemContainer::new(25) }
    }
}

/// Tags the arrow that selects a container's input.
pub struct ContainerInputSelector;

/// Tags the arrow that selects a container's output.
pub struct ContainerOutputSelector;

/// The arrow that selects a container's input.
pub struct ContainerInputSelectorBundle {
    pub marker: ContainerInputSelector,
}

/// The arrow that selects a container's output.
pub struct ContainerOutputSelectorBundle {
    pub marker: ContainerOutputSelector,
}

/// Tags the arrow that selects an assembly's input.
pub struct AssemblyInputSelector;

/// Tags the arrow that selects an assembly's output.
pub struct AssemblyOutputSelector;

/// The arrow that selects an assembly's input.
pub struct AssemblyInputSelectorBundle {
    pub marker: AssemblyInputSelector,
}

/// The arrow that selects an assembly's output.
pub struct AssemblyOutputSelectorBundle {
    pub marker: AssemblyOutputSelector,
}

/// Tags the background of an assembly's progress bar.
pub struct AssemblyProgressBarBase;

/// The background of an assembly's progress bar.
pub struct AssemblyProgressBarBaseBundle {
    pub base: AssemblyProgressBarBase,
}

/// Tags the marker that flags a worker's job error.
pub struct JobErrorMarker;

/// The marker that flags a worker's job error.
pub struct JobErrorMarkerBundle {
    pub marker: JobErrorMarker,
}

/// Tags the marker that flags a worker's job warning.
pub struct JobWarningMarker;

/// The marker that flags a worker's job warning.
pub struct JobWarningMarkerBundle {
    pub marker: JobWarningMarker,
}

} // verus!
