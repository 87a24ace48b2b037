use industrial_evolution::assembly::{
    place_assembly, prepare_assembly_timer, produce_goods, ready_input_item, show_assembly_progress_bars, AssemblyTimer,
    AssemblyType, ProgressBarAction,
};
use industrial_evolution::container::{ItemContainer, ItemIOContainer};
use industrial_evolution::items::{GoodItem, Item, MaterialItem, ResourceItem};
use industrial_evolution::tiles::{EntityTileSize, TilePos};

fn wood() -> Item {
    Item::Resource(ResourceItem::Wood)
}

#[test]
fn recipes() {
    let (i, o) = AssemblyType::WoodChipper.recipe();
    assert_eq!((i.0, o.0), (Some(wood()), Some(Item::Resource(ResourceItem::WoodChips))));
    let (i, o) = AssemblyType::PulpMachine.recipe();
    assert_eq!((i.0, o.0), (Some(Item::Resource(ResourceItem::WoodChips)), Some(Item::Material(MaterialItem::WoodPulp))));
    let (i, o) = AssemblyType::PaperMachine.recipe();
    assert_eq!((i.0, o.0), (Some(Item::Material(MaterialItem::WoodPulp)), Some(Item::Good(GoodItem::Paper))));
    let (i, o) = AssemblyType::SawMill.recipe();
    assert_eq!((i.0, o.0), (Some(wood()), Some(Item::Resource(ResourceItem::Lumber))));
    assert_eq!(AssemblyType::SawMill.get_tile_size(), EntityTileSize { x: 4, y: 4 });
}

#[test]
fn assembly_containers() {
    let io = AssemblyType::PaperMachine.containers();
    assert_eq!(io.input.max_items, 25);
    assert_eq!(io.input.width, 2);
    assert_eq!(io.input.item_type, Some(Item::Material(MaterialItem::WoodPulp)));
    assert_eq!(io.output.max_items, 4);
    assert_eq!(io.output.item_type, None);
    let saw = AssemblyType::SawMill.containers();
    assert_eq!((saw.input.max_items, saw.input.width), (4, 4));
    assert_eq!(saw.input.item_type, Some(wood()));
    assert!(saw.input.items.is_empty() && saw.output.items.is_empty());
}

fn io_with(input: Vec<Option<u64>>, output: Vec<Option<u64>>) -> ItemIOContainer {
    let mut io = AssemblyType::SawMill.containers();
    io.input.items = input;
    io.output.items = output;
    io
}

#[test]
fn timer_keeps_or_restarts() {
    let input = ItemContainer { items: vec![Some(3), Some(4)], max_items: 4, item_type: None, width: 4 };
    let mut timer = AssemblyTimer { item: Some(4) };
    assert_eq!(prepare_assembly_timer(&input, &mut timer), (Some(4), false));
    let mut gone = AssemblyTimer { item: Some(9) };
    assert_eq!(prepare_assembly_timer(&input, &mut gone), (Some(3), true));
    assert_eq!(gone.item, Some(3));
    let empty = ItemContainer::new(4);
    let mut idle = AssemblyTimer { item: None };
    assert_eq!(prepare_assembly_timer(&empty, &mut idle), (None, true));
    assert_eq!(idle.item, None);
}

#[test]
fn ready_input() {
    let io = io_with(vec![Some(1), Some(2)], vec![]);
    assert_eq!(ready_input_item(&io, Some(wood()), Some(wood())), Some(2));
    assert_eq!(ready_input_item(&io, Some(wood()), Some(Item::Good(GoodItem::Paper))), None);
    assert_eq!(ready_input_item(&io, None, None), None);
    let full = io_with(vec![Some(1)], vec![Some(5), Some(6), Some(7), Some(8)]);
    assert_eq!(ready_input_item(&full, Some(wood()), Some(wood())), None);
    let empty = io_with(vec![], vec![]);
    assert_eq!(ready_input_item(&empty, Some(wood()), Some(wood())), None);
}

#[test]
fn produce_moves_items() {
    let mut io = io_with(vec![Some(1), Some(2)], vec![]);
    assert!(produce_goods(&mut io, 2, Some((10, Item::Resource(ResourceItem::Lumber)))));
    assert_eq!(io.input.items, vec![Some(1)]);
    assert_eq!(io.output.items, vec![Some(10)]);
    // an assembly that produces nothing only consumes
    assert!(produce_goods(&mut io, 1, None));
    assert!(io.input.items.is_empty());
}

#[test]
fn produce_fails_without_changes() {
    let mut full = io_with(vec![Some(1)], vec![Some(5), Some(6), Some(7), Some(8)]);
    assert!(!produce_goods(&mut full, 1, Some((10, wood()))));
    assert_eq!(full.input.items, vec![Some(1)]);
    assert_eq!(full.output.items.len(), 4);
    let mut missing = io_with(vec![Some(1)], vec![]);
    assert!(!produce_goods(&mut missing, 2, Some((10, wood()))));
    assert_eq!(missing.input.items, vec![Some(1)]);
    assert!(missing.output.items.is_empty());
    assert!(!produce_goods(&mut missing, 2, None));
}

#[test]
fn progress_bars() {
    assert_eq!(show_assembly_progress_bars(true, true, false), ProgressBarAction::Spawn);
    assert_eq!(show_assembly_progress_bars(true, true, true), ProgressBarAction::Keep);
    assert_eq!(show_assembly_progress_bars(true, false, true), ProgressBarAction::Remove);
    assert_eq!(show_assembly_progress_bars(false, true, true), ProgressBarAction::Remove);
    assert_eq!(show_assembly_progress_bars(false, false, false), ProgressBarAction::Keep);
}

#[test]
fn placement_checks_collisions() {
    let blocked = vec![TilePos { x: 1, y: 1 }];
    assert!(place_assembly(Some(TilePos { x: 2, y: 1 }), &blocked));
    assert!(!place_assembly(Some(TilePos { x: 1, y: 1 }), &blocked));
    assert!(!place_assembly(None, &blocked));
}
