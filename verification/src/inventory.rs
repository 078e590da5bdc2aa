//! What the player carries: a list of item stacks, nine hotbar slots that
//! point into the list, and the slot in hand.

use crate::item::{Item, ItemKind, Material, ToolPart};
use vstd::prelude::*;

verus! {

/// Number of hotbar slots.
pub const HOTBAR_SLOTS: usize = 9;

/// What an inventory holds.
pub struct InventoryView {
    /// The item stacks, in the order they were first picked up.
    pub items: Seq<Item>,
    /// For each hotbar slot, the place in `items` of the stack it shows.
    pub hotbar: Seq<Option<usize>>,
    /// The hotbar slot in hand.
    pub selected: usize,
}

impl InventoryView {
    /// There are nine hotbar slots, each empty or pointing at a stack, and
    /// one of them is in hand.
    pub open spec fn wf(self) -> bool {
        &&& self.hotbar.len() == HOTBAR_SLOTS
        &&& self.selected < HOTBAR_SLOTS
        &&& forall|slot: int|
            0 <= slot < HOTBAR_SLOTS && self.hotbar[slot] is Some ==> (#[trigger] self.hotbar[slot])->0
                < self.items.len()
    }

    /// The place of the first stack of kind `kind` among the first `n`
    /// stacks, or `n` if there is none.
    pub open spec fn first_of_kind(self, kind: ItemKind, n: int) -> int
        decreases n,
    {
        if n <= 0 {
            0
        } else {
            let before = self.first_of_kind(kind, n - 1);
            if before < n - 1 {
                before
            } else if self.items[n - 1].kind == kind {
                n - 1
            } else {
                n
            }
        }
    }

    /// The first empty hotbar slot among the first `n`, or `n` if all of
    /// them are taken.
    pub open spec fn first_free_slot(self, n: int) -> int
        decreases n,
    {
        if n <= 0 {
            0
        } else {
            let before = self.first_free_slot(n - 1);
            if before < n - 1 {
                before
            } else if self.hotbar[n - 1] is None {
                n - 1
            } else {
                n
            }
        }
    }

    /// Whether picking up `item` adds to a stack that is already there:
    /// the item's kind piles up and a stack of it exists.
    pub open spec fn stacks_onto(self, item: Item) -> bool {
        item.kind.spec_is_stackable() && self.first_of_kind(item.kind, self.items.len() as int)
            < self.items.len()
    }

    /// Whether picking up `item` keeps every count in range.
    pub open spec fn has_room_for(self, item: Item) -> bool {
        self.stacks_onto(item) ==> self.items[self.first_of_kind(
            item.kind,
            self.items.len() as int,
        )].count + item.count <= u32::MAX
    }

    /// The inventory after picking up `item`: the first stack of its kind
    /// grows if the kind piles up and such a stack exists; otherwise the
    /// item becomes a new stack, shown in the first empty hotbar slot if
    /// there is one.
    pub open spec fn with_item(self, item: Item) -> InventoryView {
        let place = self.first_of_kind(item.kind, self.items.len() as int);
        let slot = self.first_free_slot(HOTBAR_SLOTS as int);
        if self.stacks_onto(item) {
            InventoryView {
                items: self.items.update(
                    place,
                    Item { kind: item.kind, count: (self.items[place].count + item.count) as u32 },
                ),
                ..self
            }
        } else {
            InventoryView {
                items: self.items.push(item),
                hotbar: if slot < HOTBAR_SLOTS {
                    self.hotbar.update(slot, Some(self.items.len() as usize))
                } else {
                    self.hotbar
                },
                ..self
            }
        }
    }

    /// The inventory after hotbar slot `slot` was pointed at `item`:
    /// unchanged if there is no such slot or no such stack.
    pub open spec fn with_hotbar(self, slot: usize, item: Option<usize>) -> InventoryView {
        if slot < HOTBAR_SLOTS && (item is Some ==> item->0 < self.items.len()) {
            InventoryView { hotbar: self.hotbar.update(slot as int, item), ..self }
        } else {
            self
        }
    }

    /// The stack in hand, if the slot in hand shows one.
    pub open spec fn hand(self) -> Option<Item> {
        match self.hotbar[self.selected as int] {
            Some(index) => Some(self.items[index as int]),
            None => None,
        }
    }
}

/// The materials in the order the starting inventory walks them.
pub open spec fn material_order() -> Seq<Material> {
    seq![Material::Twig, Material::PlantFiber, Material::Flint, Material::Glass]
}

/// The stack at place `i` of the starting inventory: one of each raw
/// material and bottle, then for each material a handle, a binding and a
/// pickaxe head of it and the sixteen pickaxes with a handle of it.
pub open spec fn starting_item(i: int) -> Item {
    let one = |kind: ItemKind| Item { kind, count: 1 };
    let part = |k: int| ToolPart::fresh(material_order()[k]);
    if i == 0 {
        one(ItemKind::Twig)
    } else if i == 1 {
        one(ItemKind::PlantFiber)
    } else if i == 2 {
        one(ItemKind::Flint)
    } else if i == 3 {
        one(ItemKind::Soil)
    } else if i == 4 {
        one(ItemKind::Glass)
    } else if i == 5 {
        one(ItemKind::SmallBottle)
    } else if i == 6 {
        one(ItemKind::MediumBottle)
    } else if i == 7 {
        one(ItemKind::LargeBottle)
    } else {
        let first = (i - 8) / 19;
        let rest = (i - 8) % 19;
        if rest == 0 {
            one(ItemKind::Handle(part(first)))
        } else if rest == 1 {
            one(ItemKind::Binding(part(first)))
        } else if rest == 2 {
            one(ItemKind::PickaxeHead(part(first)))
        } else {
            one(
                ItemKind::Pickaxe {
                    handle: part(first),
                    binding: part((rest - 3) / 4),
                    head: part((rest - 3) % 4),
                },
            )
        }
    }
}

/// The starting inventory: 84 stacks, an empty hotbar, the first slot in
/// hand.
pub open spec fn starting_inventory() -> InventoryView {
    InventoryView {
        items: Seq::new(84, |i: int| starting_item(i)),
        hotbar: Seq::new(HOTBAR_SLOTS as nat, |slot: int| None),
        selected: 0,
    }
}

/// The player's inventory.
#[derive(Debug)]
pub struct Inventory {
    items: Vec<Item>,
    hotbar: [Option<usize>; 9],
    selected: usize,
}

impl View for Inventory {
    type V = InventoryView;

    closed spec fn view(&self) -> InventoryView {
        InventoryView { items: self.items@, hotbar: self.hotbar@, selected: self.selected }
    }
}

impl Default for Inventory {
    fn default() -> (inventory: Self)
        ensures
            inventory@ == starting_inventory(),
            inventory@.wf(),
    {
        let mut items: Vec<Item> = Vec::new();
        items.push(Item::new(ItemKind::Twig, 1));
        items.push(Item::new(ItemKind::PlantFiber, 1));
        items.push(Item::new(ItemKind::Flint, 1));
        items.push(Item::new(ItemKind::Soil, 1));
        items.push(Item::new(ItemKind::Glass, 1));
        items.push(Item::new(ItemKind::SmallBottle, 1));
        items.push(Item::new(ItemKind::MediumBottle, 1));
        items.push(Item::new(ItemKind::LargeBottle, 1));
        let materials = [Material::Twig, Material::PlantFiber, Material::Flint, Material::Glass];
        assert(materials@ =~= material_order());
        let mut first: usize = 0;
        while first < 4
            invariant
                first <= 4,
                materials@ == material_order(),
                items@.len() == 8 + 19 * first,
                forall|i: int| 0 <= i < items@.len() ==> #[trigger] items@[i] == starting_item(i),
            decreases 4 - first,
        {
            let material = materials[first];
            items.push(Item::new(ItemKind::Handle(ToolPart::new(material)), 1));
            items.push(Item::new(ItemKind::Binding(ToolPart::new(material)), 1));
            items.push(Item::new(ItemKind::PickaxeHead(ToolPart::new(material)), 1));
            let mut second: usize = 0;
            while second < 4
                invariant
                    first < 4,
                    second <= 4,
                    materials@ == material_order(),
                    material == materials@[first as int],
                    items@.len() == 8 + 19 * first + 3 + 4 * second,
                    forall|i: int|
                        0 <= i < items@.len() ==> #[trigger] items@[i] == starting_item(i),
                decreases 4 - second,
            {
                let mut third: usize = 0;
                while third < 4
                    invariant
                        first < 4,
                        second < 4,
                        third <= 4,
                        materials@ == material_order(),
                        material == materials@[first as int],
                        items@.len() == 8 + 19 * first + 3 + 4 * second + third,
                        forall|i: int|
                            0 <= i < items@.len() ==> #[trigger] items@[i] == starting_item(i),
                    decreases 4 - third,
                {
                    items.push(
                        Item::new(
                            ItemKind::Pickaxe {
                                handle: ToolPart::new(material),
                                binding: ToolPart::new(materials[second]),
                                head: ToolPart::new(materials[third]),
                            },
                            1,
                        ),
                    );
                    third += 1;
                }
                second += 1;
            }
            first += 1;
        }
        let inventory = Self { items, hotbar: [None; 9], selected: 0 };
        assert(inventory@.items =~= starting_inventory().items);
        assert(inventory@.hotbar =~= starting_inventory().hotbar);
        inventory
    }
}

impl Inventory {
    #[verifier::type_invariant]
    spec fn inv(self) -> bool {
        self@.wf()
    }

    /// The item stacks.
    pub fn items(&self) -> (items: &[Item])
        ensures
            items@ == self@.items,
            self@.wf(),
    {
        proof {
            use_type_invariant(self);
        }
        self.items.as_slice()
    }

    /// Takes hotbar slot `slot` in hand; changes nothing if there is no
    /// such slot.
    pub fn select(&mut self, slot: usize)
        ensures
            final(self)@.wf(),
            final(self)@ == if slot < HOTBAR_SLOTS {
                InventoryView { selected: slot, ..old(self)@ }
            } else {
                old(self)@
            },
    {
        proof {
            use_type_invariant(&*self);
        }
        if slot < 9 {
            self.selected = slot;
        }
    }

    /// The hotbar slot in hand.
    pub fn slot(&self) -> (slot: usize)
        ensures
            slot == self@.selected,
            slot < HOTBAR_SLOTS,
    {
        proof {
            use_type_invariant(self);
        }
        self.selected
    }

    /// The stack in hand, if the slot in hand shows one.
    pub fn hand(&self) -> (item: Option<Item>)
        ensures
            item == self@.hand(),
    {
        proof {
            use_type_invariant(self);
        }
        match self.hotbar[self.selected] {
            Some(index) => Some(self.items[index]),
            None => None,
        }
    }

    /// The stack that each hotbar slot shows.
    pub fn hotbar(&self) -> (shown: [Option<&Item>; 9])
        ensures
            forall|slot: int|
                0 <= slot < HOTBAR_SLOTS ==> #[trigger] shown@[slot] == match self@.hotbar[slot] {
                    Some(index) => Some(&self@.items[index as int]),
                    None => None,
                },
    {
        proof {
            use_type_invariant(self);
        }
        let mut shown: [Option<&Item>; 9] = [None; 9];
        let mut slot: usize = 0;
        while slot < 9
            invariant
                slot <= 9,
                self@.wf(),
                forall|k: int|
                    0 <= k < slot ==> #[trigger] shown@[k] == match self@.hotbar[k] {
                        Some(index) => Some(&self@.items[index as int]),
                        None => None,
                    },
            decreases 9 - slot,
        {
            shown[slot] = match self.hotbar[slot] {
                Some(index) => Some(&self.items[index]),
                None => None,
            };
            slot += 1;
        }
        shown
    }

    /// Tells whether picking up `item` keeps every count in range.
    pub fn has_room_for(&self, item: Item) -> (room: bool)
        ensures
            room == self@.has_room_for(item),
    {
        if !item.kind.is_stackable() {
            return true;
        }
        let place = self.find_kind(item.kind);
        if place < self.items.len() {
            self.items[place].count <= u32::MAX - item.count
        } else {
            true
        }
    }

    fn find_kind(&self, kind: ItemKind) -> (place: usize)
        ensures
            place == self@.first_of_kind(kind, self@.items.len() as int),
            place <= self@.items.len(),
    {
        let mut place: usize = 0;
        while place < self.items.len()
            invariant
                place <= self.items@.len(),
                self@.first_of_kind(kind, place as int) == place,
            decreases self.items@.len() - place,
        {
            if self.items[place].kind == kind {
                proof {
                    lemma_first_of_kind_stays(self@, kind, place as int, self@.items.len() as int);
                }
                return place;
            }
            place += 1;
        }
        place
    }

    /// Picks up `item`; see [`InventoryView::with_item`].
    pub fn add(&mut self, item: Item)
        requires
            old(self)@.has_room_for(item),
        ensures
            final(self)@.wf(),
            final(self)@ == old(self)@.with_item(item),
    {
        proof {
            use_type_invariant(&*self);
        }
        if item.kind.is_stackable() {
            let place = self.find_kind(item.kind);
            if place < self.items.len() {
                let grown = Item::new(item.kind, self.items[place].count + item.count);
                self.items[place] = grown;
                return ;
            }
        }
        let mut taken = Self { items: Vec::new(), hotbar: [None; 9], selected: 0 };
        core::mem::swap(self, &mut taken);
        let mut items = taken.items;
        let mut hotbar = taken.hotbar;
        let selected = taken.selected;
        items.push(item);
        let mut slot: usize = 0;
        while slot < 9
            invariant
                slot <= 9,
                hotbar@ == old(self)@.hotbar,
                old(self)@.wf(),
                old(self)@.first_free_slot(slot as int) == slot,
            ensures
                slot < 9 ==> hotbar@[slot as int] is None,
            decreases 9 - slot,
        {
            if hotbar[slot].is_none() {
                break ;
            }
            slot += 1;
        }
        if slot < 9 {
            proof {
                lemma_first_free_slot_stays(old(self)@, slot as int, 9);
            }
            hotbar[slot] = Some(items.len() - 1);
        }
        assert(hotbar@ =~= old(self)@.with_item(item).hotbar);
        *self = Self { items, hotbar, selected };
    }

    /// Points hotbar slot `slot` at the stack at place `item`, or empties
    /// it; changes nothing if there is no such slot or no such stack.
    pub fn set_hotbar(&mut self, slot: usize, item: Option<usize>)
        ensures
            final(self)@.wf(),
            final(self)@ == old(self)@.with_hotbar(slot, item),
    {
        proof {
            use_type_invariant(&*self);
        }
        if slot < 9 {
            if let Some(index) = item {
                if index >= self.items.len() {
                    return ;
                }
            }
            self.hotbar[slot] = item;
            assert(self@.hotbar =~= old(self)@.with_hotbar(slot, item).hotbar);
        }
    }
}

/// Once a stack of the kind is found at `place`, looking further finds
/// the same place.
proof fn lemma_first_of_kind_stays(view: InventoryView, kind: ItemKind, place: int, n: int)
    requires
        0 <= place < n,
        view.first_of_kind(kind, place) == place,
        view.items[place].kind == kind,
    ensures
        view.first_of_kind(kind, n) == place,
    decreases n - place,
{
    if n > place + 1 {
        lemma_first_of_kind_stays(view, kind, place, n - 1);
    }
}

/// Once an empty slot is found at `slot`, looking further finds the same
/// slot.
proof fn lemma_first_free_slot_stays(view: InventoryView, slot: int, n: int)
    requires
        0 <= slot < n,
        view.first_free_slot(slot) == slot,
        view.hotbar[slot] is None,
    ensures
        view.first_free_slot(n) == slot,
    decreases n - slot,
{
    if n > slot + 1 {
        lemma_first_free_slot_stays(view, slot, n - 1);
    }
}

} // verus!
