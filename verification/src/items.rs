use vstd::prelude::*;

verus! {

/// Goods can be sold but not bought.
#[derive(Clone, Copy, PartialEq, Eq, Structural, Debug, Hash)]
pub enum GoodItem {
    Paper,
}

/// Resources can be bought and sold.
#[derive(Clone, Copy, PartialEq, Eq, Structural, Debug, Hash)]
pub enum ResourceItem {
    Wood,
    WoodChips,
    Lumber,
}

/// Materials can be neither bought nor sold.
#[derive(Clone, Copy, PartialEq, Eq, Structural, Debug, Hash)]
pub enum MaterialItem {
    WoodPulp,
}

/// Every kind of item that can lie in a container.
#[derive(Clone, Copy, PartialEq, Eq, Structural, Debug, Hash)]
pub enum Item {
    Good(GoodItem),
    Resource(ResourceItem),
    Material(MaterialItem),
}

/// The items that the market trades.
#[derive(Clone, Copy, PartialEq, Eq, Structural, Debug, Hash)]
pub enum PurchasableItem {
    Good(GoodItem),
    Resource(ResourceItem),
}

pub open spec fn good_name(g: GoodItem) -> Seq<char> {
    match g {
        GoodItem::Paper => "Paper"@,
    }
}

pub open spec fn resource_name(r: ResourceItem) -> Seq<char> {
    match r {
        ResourceItem::Wood => "Wood"@,
        ResourceItem::WoodChips => "WoodChips"@,
        ResourceItem::Lumber => "Lumber"@,
    }
}

pub open spec fn material_name(m: MaterialItem) -> Seq<char> {
    match m {
        MaterialItem::WoodPulp => "WoodPulp"@,
    }
}

pub open spec fn item_name(i: Item) -> Seq<char> {
    match i {
        Item::Good(g) => good_name(g),
        Item::Resource(r) => resource_name(r),
        Item::Material(m) => material_name(m),
    }
}

pub open spec fn purchasable_name(p: PurchasableItem) -> Seq<char> {
    match p {
        PurchasableItem::Good(g) => good_name(g),
        PurchasableItem::Resource(r) => resource_name(r),
    }
}

/// The market's view of an item: goods and resources are traded,
/// materials are not.
pub open spec fn spec_purchasable(i: Item) -> Option<PurchasableItem> {
    match i {
        Item::Good(g) => Some(PurchasableItem::Good(g)),
        Item::Resource(r) => Some(PurchasableItem::Resource(r)),
        Item::Material(_) => None,
    }
}

/// The item a market entry stands for.
pub open spec fn spec_item_of(p: PurchasableItem) -> Item {
    match p {
        PurchasableItem::Good(g) => Item::Good(g),
        PurchasableItem::Resource(r) => Item::Resource(r),
    }
}

impl GoodItem {
    /// The display name of the good (its variant name).
    pub fn get_name(&self) -> (name: &'static str)
        ensures
            name@ == good_name(*self),
    {
        match self {
            GoodItem::Paper => "Paper",
        }
    }
}

impl ResourceItem {
    /// The display name of the resource (its variant name).
    pub fn get_name(&self) -> (name: &'static str)
        ensures
            name@ == resource_name(*self),
    {
        match self {
            ResourceItem::Wood => "Wood",
            ResourceItem::WoodChips => "WoodChips",
            ResourceItem::Lumber => "Lumber",
        }
    }
}

impl MaterialItem {
    /// The display name of the material (its variant name).
    pub fn get_name(&self) -> (name: &'static str)
        ensures
            name@ == material_name(*self),
    {
        match self {
            MaterialItem::WoodPulp => "WoodPulp",
        }
    }
}

impl Item {
    /// The display name of the item: the name of the good, resource or
    /// material it holds.
    pub fn get_name(&self) -> (name: &'static str)
        ensures
            name@ == item_name(*self),
    {
        match self {
            Item::Good(g) => g.get_name(),
            Item::Resource(r) => r.get_name(),
            Item::Material(m) => m.get_name(),
        }
    }
}

impl PurchasableItem {
    /// The display name of the traded item.
    pub fn get_name(&self) -> (name: &'static str)
        ensures
            name@ == purchasable_name(*self),
    {
        match self {
            PurchasableItem::Good(g) => g.get_name(),
            PurchasableItem::Resource(r) => r.get_name(),
        }
    }

    /// The market entry that prices an item, if the market trades it.
    pub fn from_item(item: Item) -> (p: Option<PurchasableItem>)
        ensures
            p == spec_purchasable(item),
    {
        match item {
            Item::Good(g) => Some(PurchasableItem::Good(g)),
            Item::Resource(r) => Some(PurchasableItem::Resource(r)),
            Item::Material(_) => None,
        }
    }

    /// The item that a purchase of this entry produces.
    pub fn to_item(&self) -> (item: Item)
        ensures
            item == spec_item_of(*self),
            spec_purchasable(item) == Some(*self),
    {
        match self {
            PurchasableItem::Good(g) => Item::Good(*g),
            PurchasableItem::Resource(r) => Item::Resource(*r),
        }
    }
}

} // verus!
