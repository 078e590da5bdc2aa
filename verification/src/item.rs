//! Items, the materials tools are made of, and the parts of a tool.

use vstd::prelude::*;
use vstd::string::StringExecFns;

verus! {

/// What a tool part is made of.
#[derive(Debug, Clone, Copy, PartialEq, Eq, PartialOrd, Ord, Hash, Structural)]
pub enum Material {
    Twig,
    PlantFiber,
    Flint,
    Glass,
}

/// One part of a tool: its material and how much use it has left.
#[derive(Debug, Clone, Copy, PartialEq, Eq, PartialOrd, Ord, Hash, Structural)]
pub struct ToolPart {
    pub material: Material,
    pub durability: u32,
}

/// The kinds of item a player can hold.
#[derive(Debug, Clone, Copy, PartialEq, Eq, PartialOrd, Ord, Hash, Structural)]
pub enum ItemKind {
    Twig,
    PlantFiber,
    Flint,
    Soil,
    Glass,
    Handle(ToolPart),
    Binding(ToolPart),
    PickaxeHead(ToolPart),
    ShovelHead(ToolPart),
    Pickaxe { handle: ToolPart, binding: ToolPart, head: ToolPart },
    Shovel { handle: ToolPart, binding: ToolPart, head: ToolPart },
    SmallBottle,
    MediumBottle,
    LargeBottle,
}

/// A stack of items of one kind.
#[derive(Debug, Clone, Copy, PartialEq, Eq, PartialOrd, Ord, Hash, Structural)]
pub struct Item {
    pub kind: ItemKind,
    pub count: u32,
}

impl Material {
    /// Uses a fresh part of this material lasts.
    pub open spec fn spec_durability(&self) -> u32 {
        match self {
            Material::Flint => 200,
            _ => 100,
        }
    }

    /// The material's name.
    pub open spec fn spec_label(self) -> Seq<char> {
        match self {
            Material::Twig => "Twig"@,
            Material::PlantFiber => "Plant Fiber"@,
            Material::Flint => "Flint"@,
            Material::Glass => "Glass"@,
        }
    }

    #[verifier::when_used_as_spec(spec_durability)]
    pub fn durability(&self) -> (d: u32)
        ensures
            d == self.spec_durability(),
    {
        match self {
            Self::Twig => 100,
            Self::PlantFiber => 100,
            Self::Flint => 200,
            Self::Glass => 100,
        }
    }

    /// The material's name as shown to the player.
    pub fn label(&self) -> (s: String)
        ensures
            s@ == self.spec_label(),
    {
        match self {
            Self::Twig => String::from_str("Twig"),
            Self::PlantFiber => String::from_str("Plant Fiber"),
            Self::Flint => String::from_str("Flint"),
            Self::Glass => String::from_str("Glass"),
        }
    }
}

impl ToolPart {
    /// A part of `material` that has not been used yet.
    pub open spec fn fresh(material: Material) -> ToolPart {
        ToolPart { material, durability: material.spec_durability() }
    }

    /// The part's name: its material, marked as broken once no use is left.
    pub open spec fn spec_label(self) -> Seq<char> {
        if self.durability == 0 {
            "Broken "@ + self.material.spec_label()
        } else {
            self.material.spec_label()
        }
    }

    pub fn new(material: Material) -> (part: Self)
        ensures
            part == Self::fresh(material),
    {
        Self { material, durability: material.durability() }
    }

    /// The part's name as shown to the player.
    pub fn label(&self) -> (s: String)
        ensures
            s@ == self.spec_label(),
    {
        if self.durability == 0 {
            let name = self.material.label();
            String::from_str("Broken ").concat(name.as_str())
        } else {
            self.material.label()
        }
    }
}

impl ItemKind {
    /// Whether items of this kind pile up in one inventory entry: raw
    /// materials and bottles do, tool parts and tools do not.
    pub open spec fn spec_is_stackable(&self) -> bool {
        match self {
            ItemKind::Twig
            | ItemKind::PlantFiber
            | ItemKind::Flint
            | ItemKind::Soil
            | ItemKind::Glass
            | ItemKind::SmallBottle
            | ItemKind::MediumBottle
            | ItemKind::LargeBottle => true,
            _ => false,
        }
    }

    /// Whether this kind is a pickaxe.
    pub open spec fn is_pickaxe(self) -> bool {
        self is Pickaxe
    }

    /// The kind's name; a part or tool is named after the part that does
    /// the work.
    pub open spec fn spec_label(self) -> Seq<char> {
        match self {
            ItemKind::Twig => "Twig"@,
            ItemKind::PlantFiber => "Plant Fiber"@,
            ItemKind::Flint => "Flint"@,
            ItemKind::Soil => "Soil"@,
            ItemKind::Glass => "Glass"@,
            ItemKind::Handle(part) => part.spec_label() + " Handle"@,
            ItemKind::Binding(part) => part.spec_label() + " Binding"@,
            ItemKind::PickaxeHead(part) => part.spec_label() + " Pickaxe Head"@,
            ItemKind::ShovelHead(part) => part.spec_label() + " Shovel Head"@,
            ItemKind::Shovel { head, .. } => head.spec_label() + " Shovel"@,
            ItemKind::Pickaxe { head, .. } => head.spec_label() + " Pickaxe"@,
            ItemKind::SmallBottle => "Small Bottle"@,
            ItemKind::MediumBottle => "Medium Bottle"@,
            ItemKind::LargeBottle => "Large Bottle"@,
        }
    }

    #[verifier::when_used_as_spec(spec_is_stackable)]
    pub fn is_stackable(&self) -> (stackable: bool)
        ensures
            stackable == self.spec_is_stackable(),
    {
        match self {
            Self::Twig
            | Self::PlantFiber
            | Self::Flint
            | Self::Soil
            | Self::Glass
            | Self::SmallBottle
            | Self::MediumBottle
            | Self::LargeBottle => true,
            Self::Handle(..)
            | Self::Binding(..)
            | Self::PickaxeHead(..)
            | Self::ShovelHead(..)
            | Self::Pickaxe { .. }
            | Self::Shovel { .. } => false,
        }
    }

    /// The kind's name as shown to the player.
    pub fn label(&self) -> (s: String)
        ensures
            s@ == self.spec_label(),
    {
        match self {
            Self::Twig => String::from_str("Twig"),
            Self::PlantFiber => String::from_str("Plant Fiber"),
            Self::Flint => String::from_str("Flint"),
            Self::Soil => String::from_str("Soil"),
            Self::Glass => String::from_str("Glass"),
            Self::Handle(part) => part.label().concat(" Handle"),
            Self::Binding(part) => part.label().concat(" Binding"),
            Self::PickaxeHead(part) => part.label().concat(" Pickaxe Head"),
            Self::ShovelHead(part) => part.label().concat(" Shovel Head"),
            Self::Shovel { head, .. } => head.label().concat(" Shovel"),
            Self::Pickaxe { head, .. } => head.label().concat(" Pickaxe"),
            Self::SmallBottle => String::from_str("Small Bottle"),
            Self::MediumBottle => String::from_str("Medium Bottle"),
            Self::LargeBottle => String::from_str("Large Bottle"),
        }
    }
}

impl Item {
    pub fn new(kind: ItemKind, count: u32) -> (item: Self)
        ensures
            item == (Item { kind, count }),
    {
        Self { kind, count }
    }
}

} // verus!
