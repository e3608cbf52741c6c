use vstd::prelude::*;
use crate::sprite::sheet_index;

verus! {

/// A harvested resource.
#[derive(Clone, Copy, Debug, PartialEq, Eq, Hash, Structural)]
pub enum ItemType {
    Cabbage,
    Carrot,
    CedarLog,
    PineLog,
    OakLog,
}

impl ItemType {
    /// The sprite sheet cell of each item type.
    pub open spec fn spec_sprite_row_and_col(&self) -> (usize, usize) {
        match self {
            ItemType::Cabbage => (94, 33),
            ItemType::Carrot => (94, 24),
            ItemType::CedarLog => (94, 30),
            ItemType::PineLog => (94, 30),
            ItemType::OakLog => (94, 30),
        }
    }

    /// Whether the item can be eaten.
    pub open spec fn is_food(&self) -> bool {
        *self is Cabbage || *self is Carrot
    }

    /// Nutrition in thousandths: food gives 10.0, anything else nothing.
    pub open spec fn spec_nutrition(&self) -> u32 {
        if self.is_food() {
            10_000
        } else {
            0
        }
    }

    /// Freshness lost per tick, in thousandths: 0.1 for food, 0.01 otherwise.
    pub open spec fn spec_spoilage_rate(&self) -> u32 {
        if self.is_food() {
            100
        } else {
            10
        }
    }

    pub fn sprite_index(&self) -> (index: usize)
        ensures
            index == sheet_index(
                self.spec_sprite_row_and_col().0 as int,
                self.spec_sprite_row_and_col().1 as int,
            ),
            index / 64 == self.spec_sprite_row_and_col().0,
            index % 64 == self.spec_sprite_row_and_col().1,
    {
        match self {
            ItemType::Cabbage => 94 * 64 + 33,
            ItemType::Carrot => 94 * 64 + 24,
            ItemType::CedarLog => 94 * 64 + 30,
            ItemType::PineLog => 94 * 64 + 30,
            ItemType::OakLog => 94 * 64 + 30,
        }
    }

    #[verifier::when_used_as_spec(spec_nutrition)]
    pub fn nutrition(&self) -> (thousandths: u32)
        ensures
            thousandths == self.spec_nutrition(),
    {
        match self {
            ItemType::Cabbage => 10_000,
            ItemType::Carrot => 10_000,
            _ => 0,
        }
    }

    #[verifier::when_used_as_spec(spec_spoilage_rate)]
    pub fn spoilage_rate(&self) -> (thousandths: u32)
        ensures
            thousandths == self.spec_spoilage_rate(),
    {
        match self {
            ItemType::Cabbage => 100,
            ItemType::Carrot => 100,
            _ => 10,
        }
    }
}

} // verus!
