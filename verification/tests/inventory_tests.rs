use voxel_world::inventory::Inventory;
use voxel_world::item::{Item, ItemKind, Material, ToolPart};

fn pickaxe(handle: Material, binding: Material, head: Material) -> Item {
    Item::new(
        ItemKind::Pickaxe {
            handle: ToolPart::new(handle),
            binding: ToolPart::new(binding),
            head: ToolPart::new(head),
        },
        1,
    )
}

#[test]
fn starting_inventory_holds_84_stacks() {
    let inventory = Inventory::default();
    let items = inventory.items();
    assert_eq!(items.len(), 84);
    assert_eq!(items[0], Item::new(ItemKind::Twig, 1));
    assert_eq!(items[3], Item::new(ItemKind::Soil, 1));
    assert_eq!(items[7], Item::new(ItemKind::LargeBottle, 1));
    assert_eq!(items[8], Item::new(ItemKind::Handle(ToolPart::new(Material::Twig)), 1));
    assert_eq!(items[9], Item::new(ItemKind::Binding(ToolPart::new(Material::Twig)), 1));
    assert_eq!(items[10], Item::new(ItemKind::PickaxeHead(ToolPart::new(Material::Twig)), 1));
    assert_eq!(items[11], pickaxe(Material::Twig, Material::Twig, Material::Twig));
    assert_eq!(items[12], pickaxe(Material::Twig, Material::Twig, Material::PlantFiber));
    assert_eq!(items[15], pickaxe(Material::Twig, Material::PlantFiber, Material::Twig));
    assert_eq!(items[26], pickaxe(Material::Twig, Material::Glass, Material::Glass));
    assert_eq!(items[27], Item::new(ItemKind::Handle(ToolPart::new(Material::PlantFiber)), 1));
    assert_eq!(items[46], Item::new(ItemKind::Handle(ToolPart::new(Material::Flint)), 1));
    assert_eq!(items[48], Item::new(ItemKind::PickaxeHead(ToolPart { material: Material::Flint, durability: 200 }), 1));
    assert_eq!(items[83], pickaxe(Material::Glass, Material::Glass, Material::Glass));
    assert_eq!(inventory.slot(), 0);
    assert_eq!(inventory.hand(), None);
    assert!(inventory.hotbar().iter().all(|slot| slot.is_none()));
}

#[test]
fn stackable_items_pile_up() {
    let mut inventory = Inventory::default();
    inventory.add(Item::new(ItemKind::Flint, 4));
    assert_eq!(inventory.items().len(), 84);
    assert_eq!(inventory.items()[2], Item::new(ItemKind::Flint, 5));
    assert!(inventory.hotbar().iter().all(|slot| slot.is_none()));
    inventory.add(Item::new(ItemKind::Flint, 1));
    assert_eq!(inventory.items()[2], Item::new(ItemKind::Flint, 6));
    assert_eq!(inventory.items()[1], Item::new(ItemKind::PlantFiber, 1));
}

#[test]
fn tools_become_new_stacks_in_free_slots() {
    let mut inventory = Inventory::default();
    let shovel = Item::new(ItemKind::ShovelHead(ToolPart::new(Material::Flint)), 1);
    inventory.add(shovel);
    assert_eq!(inventory.items().len(), 85);
    assert_eq!(inventory.items()[84], shovel);
    assert_eq!(inventory.hotbar()[0], Some(&shovel));
    assert_eq!(inventory.hand(), Some(shovel));
    // the same tool again is a stack of its own, in the next slot
    inventory.add(shovel);
    assert_eq!(inventory.items().len(), 86);
    assert_eq!(inventory.hotbar()[1], Some(&shovel));
    assert_eq!(inventory.hotbar()[2], None);
    for _ in 0..10 {
        inventory.add(shovel);
    }
    // the hotbar is full after nine: the rest is only listed
    assert_eq!(inventory.items().len(), 96);
    assert!(inventory.hotbar().iter().all(|slot| *slot == Some(&shovel)));
}

#[test]
fn counts_must_fit() {
    let mut inventory = Inventory::default();
    assert!(inventory.has_room_for(Item::new(ItemKind::Soil, u32::MAX - 1)));
    assert!(!inventory.has_room_for(Item::new(ItemKind::Soil, u32::MAX)));
    assert!(inventory.has_room_for(Item::new(ItemKind::ShovelHead(ToolPart::new(Material::Twig)), u32::MAX)));
    inventory.add(Item::new(ItemKind::Soil, u32::MAX - 1));
    assert_eq!(inventory.items()[3].count, u32::MAX);
    assert!(inventory.has_room_for(Item::new(ItemKind::Soil, 0)));
    assert!(!inventory.has_room_for(Item::new(ItemKind::Soil, 1)));
}

#[test]
fn hotbar_slots_point_at_stacks() {
    let mut inventory = Inventory::default();
    inventory.set_hotbar(0, Some(2));
    inventory.set_hotbar(8, Some(83));
    assert_eq!(inventory.hotbar()[0], Some(&Item::new(ItemKind::Flint, 1)));
    assert_eq!(inventory.hand(), Some(Item::new(ItemKind::Flint, 1)));
    // no such slot, no such stack: nothing changes
    inventory.set_hotbar(9, Some(1));
    inventory.set_hotbar(3, Some(84));
    assert_eq!(inventory.hotbar()[3], None);
    inventory.select(8);
    assert_eq!(inventory.slot(), 8);
    assert_eq!(
        inventory.hand(),
        Some(pickaxe(Material::Glass, Material::Glass, Material::Glass))
    );
    inventory.select(9);
    assert_eq!(inventory.slot(), 8);
    inventory.select(4);
    assert_eq!(inventory.hand(), None);
    inventory.set_hotbar(8, None);
    inventory.select(8);
    assert_eq!(inventory.hand(), None);
    // a new stack goes to the first free slot, which is slot 1
    inventory.add(Item::new(ItemKind::Handle(ToolPart::new(Material::Glass)), 1));
    assert_eq!(
        inventory.hotbar()[1],
        Some(&Item::new(ItemKind::Handle(ToolPart::new(Material::Glass)), 1))
    );
}
