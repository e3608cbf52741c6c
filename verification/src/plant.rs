use vstd::prelude::*;
use crate::item::ItemType;
use crate::sprite::sheet_index;
use crate::text::{percent_line, percent_text, HoverNote};
use crate::units::WHOLE;

verus! {

#[derive(Clone, Copy, Debug, PartialEq, Eq, Hash, Structural)]
pub enum PlantType {
    Aloe,
    Azalea,
    Bush,
    Cabbage,
    CactusRound,
    CactusUp,
    Carrot,
    CedarTree,
    FlowerBush,
    PineTree,
    OakTree,
    ThornBush,
    Vine,
    Weed,
}

/// Whether foraging uses a plant up or leaves it to grow again.
#[derive(Clone, Copy, Debug, PartialEq, Eq, Structural)]
pub enum ForageType {
    Once,
    Repeat,
}

impl PlantType {
    /// The sprite sheet cell of each plant type.
    pub open spec fn spec_sprite_row_and_col(&self) -> (usize, usize) {
        match self {
            PlantType::Cabbage => (94, 32),
            PlantType::Carrot => (94, 31),
            PlantType::CedarTree => (13, 15),
            PlantType::PineTree => (13, 13),
            PlantType::OakTree => (13, 14),
            _ => (67, 57),
        }
    }

    pub open spec fn spec_is_edible(&self) -> bool {
        *self is Cabbage
    }

    /// Growth per tick, in thousandths: 0.001 for cabbage, 0.01 otherwise.
    pub open spec fn spec_growth_speed(&self) -> u32 {
        if *self is Cabbage {
            1
        } else {
            10
        }
    }

    /// What foraging yields: the item, how many, and whether the plant is
    /// used up. A plant that cannot be foraged yields no item and none of it.
    pub open spec fn spec_is_forageable(&self) -> (Option<ItemType>, i32, ForageType) {
        match self {
            PlantType::Cabbage => (Some(ItemType::Cabbage), 1, ForageType::Once),
            PlantType::Carrot => (Some(ItemType::Carrot), 1, ForageType::Once),
            _ => (None, 0, ForageType::Once),
        }
    }

    /// What chopping yields: the item and how many. Only trees yield.
    pub open spec fn spec_is_choppable(&self) -> (Option<ItemType>, i32) {
        match self {
            PlantType::PineTree => (Some(ItemType::PineLog), 1),
            PlantType::OakTree => (Some(ItemType::OakLog), 1),
            PlantType::CedarTree => (Some(ItemType::CedarLog), 1),
            _ => (None, 0),
        }
    }

    /// The name of the plant type, as written in the list above.
    pub open spec fn spec_name(&self) -> Seq<char> {
        match self {
            PlantType::Aloe => "Aloe"@,
            PlantType::Azalea => "Azalea"@,
            PlantType::Bush => "Bush"@,
            PlantType::Cabbage => "Cabbage"@,
            PlantType::CactusRound => "CactusRound"@,
            PlantType::CactusUp => "CactusUp"@,
            PlantType::Carrot => "Carrot"@,
            PlantType::CedarTree => "CedarTree"@,
            PlantType::FlowerBush => "FlowerBush"@,
            PlantType::PineTree => "PineTree"@,
            PlantType::OakTree => "OakTree"@,
            PlantType::ThornBush => "ThornBush"@,
            PlantType::Vine => "Vine"@,
            PlantType::Weed => "Weed"@,
        }
    }

    pub fn name(&self) -> (name: &'static str)
        ensures
            name@ == self.spec_name(),
    {
        match self {
            PlantType::Aloe => "Aloe",
            PlantType::Azalea => "Azalea",
            PlantType::Bush => "Bush",
            PlantType::Cabbage => "Cabbage",
            PlantType::CactusRound => "CactusRound",
            PlantType::CactusUp => "CactusUp",
            PlantType::Carrot => "Carrot",
            PlantType::CedarTree => "CedarTree",
            PlantType::FlowerBush => "FlowerBush",
            PlantType::PineTree => "PineTree",
            PlantType::OakTree => "OakTree",
            PlantType::ThornBush => "ThornBush",
            PlantType::Vine => "Vine",
            PlantType::Weed => "Weed",
        }
    }

    #[verifier::when_used_as_spec(spec_is_edible)]
    pub fn is_edible(&self) -> (edible: bool)
        ensures
            edible == self.spec_is_edible(),
    {
        matches!(self, PlantType::Cabbage)
    }

    #[verifier::when_used_as_spec(spec_sprite_row_and_col)]
    pub fn sprite_row_and_col(&self) -> (cell: (usize, usize))
        ensures
            cell == self.spec_sprite_row_and_col(),
            cell.1 < 64,
    {
        match self {
            PlantType::Aloe => (67, 57),
            PlantType::Azalea => (67, 57),
            PlantType::Bush => (67, 57),
            PlantType::Cabbage => (94, 32),
            PlantType::CactusRound => (67, 57),
            PlantType::CactusUp => (67, 57),
            PlantType::Carrot => (94, 31),
            PlantType::CedarTree => (13, 15),
            PlantType::PineTree => (13, 13),
            PlantType::OakTree => (13, 14),
            PlantType::ThornBush => (67, 57),
            PlantType::FlowerBush => (67, 57),
            PlantType::Vine => (67, 57),
            PlantType::Weed => (67, 57),
        }
    }

    pub fn sprite_index(&self) -> (index: usize)
        ensures
            index == sheet_index(
                self.spec_sprite_row_and_col().0 as int,
                self.spec_sprite_row_and_col().1 as int,
            ),
            index / 64 == self.spec_sprite_row_and_col().0,
            index % 64 == self.spec_sprite_row_and_col().1,
    {
        let (row, col) = self.sprite_row_and_col();
        row * 64 + col
    }

    #[verifier::when_used_as_spec(spec_growth_speed)]
    pub fn growth_speed(&self) -> (thousandths: u32)
        ensures
            thousandths == self.spec_growth_speed(),
    {
        match self {
            PlantType::Cabbage => 1,
            _ => 10,
        }
    }

    #[verifier::when_used_as_spec(spec_is_forageable)]
    pub fn is_forageable(&self) -> (rule: (Option<ItemType>, i32, ForageType))
        ensures
            rule == self.spec_is_forageable(),
            rule.0 is None <==> rule.1 == 0,
            rule.1 >= 0,
    {
        match self {
            PlantType::Cabbage => (Some(ItemType::Cabbage), 1, ForageType::Once),
            PlantType::Carrot => (Some(ItemType::Carrot), 1, ForageType::Once),
            _ => (None, 0, ForageType::Once),
        }
    }

    #[verifier::when_used_as_spec(spec_is_choppable)]
    pub fn is_choppable(&self) -> (rule: (Option<ItemType>, i32))
        ensures
            rule == self.spec_is_choppable(),
            rule.0 is None <==> rule.1 == 0,
            rule.1 >= 0,
    {
        match self {
            PlantType::PineTree => (Some(ItemType::PineLog), 1),
            PlantType::OakTree => (Some(ItemType::OakLog), 1),
            PlantType::CedarTree => (Some(ItemType::CedarLog), 1),
            _ => (None, 0),
        }
    }
}

/// A growing plant. `growth` is in thousandths, from 0 to `WHOLE`.
#[derive(Clone, Copy, Debug, PartialEq, Eq, Structural)]
pub struct Plant {
    pub growth: u32,
    pub plant_type: PlantType,
}

/// What an extraction gives: the items gained and the plant that is left.
#[derive(Clone, Copy, Debug, PartialEq, Eq, Structural)]
pub struct Harvest {
    /// The kind of item gained, if any.
    pub item: Option<ItemType>,
    /// How many of it.
    pub quantity: i32,
    /// The plant after the extraction; `None` when it was used up.
    pub plant: Option<Plant>,
}

impl Plant {
    /// Growth stays within one whole.
    pub open spec fn wf(&self) -> bool {
        self.growth <= WHOLE
    }

    /// One tick of growth: the type's speed is added, up to one whole.
    pub open spec fn spec_grown(&self) -> Plant {
        Plant {
            growth: if self.growth + self.plant_type.spec_growth_speed() >= WHOLE {
                WHOLE
            } else {
                (self.growth + self.plant_type.spec_growth_speed()) as u32
            },
            plant_type: self.plant_type,
        }
    }

    /// The outcome of foraging under a yield rule. With nothing to yield the
    /// plant is left as it is. Otherwise the rule's items are gained, and the
    /// plant is used up (`Once`) or starts to grow anew (`Repeat`).
    pub open spec fn spec_forage_with(
        &self,
        item: Option<ItemType>,
        quantity: i32,
        forage_type: ForageType,
    ) -> Harvest {
        if item is None {
            Harvest { item: None, quantity: 0, plant: Some(*self) }
        } else if forage_type is Once {
            Harvest { item, quantity, plant: None }
        } else {
            Harvest { item, quantity, plant: Some(Plant { growth: 0, plant_type: self.plant_type }) }
        }
    }

    /// The outcome of chopping: a plant that yields is always used up, one
    /// that does not is left as it is.
    pub open spec fn spec_chop(&self) -> Harvest {
        let (item, quantity) = self.plant_type.spec_is_choppable();
        if item is None {
            Harvest { item: None, quantity: 0, plant: Some(*self) }
        } else {
            Harvest { item, quantity, plant: None }
        }
    }

    /// Lets the plant grow for one tick. A well-formed plant never shrinks
    /// and never passes one whole.
    pub fn grow(&mut self)
        ensures
            *final(self) == old(self).spec_grown(),
            final(self).wf(),
            old(self).wf() ==> final(self).growth >= old(self).growth,
    {
        let next: u64 = self.growth as u64 + self.plant_type.growth_speed() as u64;
        if next >= WHOLE as u64 {
            self.growth = WHOLE;
        } else {
            self.growth = next as u32;
        }
    }

    /// Forages the plant under the given yield rule.
    pub fn forage_with(self, item: Option<ItemType>, quantity: i32, forage_type: ForageType) -> (harvest:
        Harvest)
        ensures
            harvest == self.spec_forage_with(item, quantity, forage_type),
    {
        match item {
            None => Harvest { item: None, quantity: 0, plant: Some(self) },
            Some(_) => match forage_type {
                ForageType::Once => Harvest { item, quantity, plant: None },
                ForageType::Repeat => Harvest {
                    item,
                    quantity,
                    plant: Some(Plant { growth: 0, plant_type: self.plant_type }),
                },
            },
        }
    }

    /// Forages the plant under the yield rule of its type.
    pub fn forage(self) -> (harvest: Harvest)
        ensures
            harvest == self.spec_forage_with(
                self.plant_type.spec_is_forageable().0,
                self.plant_type.spec_is_forageable().1,
                self.plant_type.spec_is_forageable().2,
            ),
    {
        let (item, quantity, forage_type) = self.plant_type.is_forageable();
        self.forage_with(item, quantity, forage_type)
    }

    /// Chops the plant down.
    pub fn chop(self) -> (harvest: Harvest)
        ensures
            harvest == self.spec_chop(),
    {
        let (item, quantity) = self.plant_type.is_choppable();
        match item {
            None => Harvest { item: None, quantity: 0, plant: Some(self) },
            Some(_) => Harvest { item, quantity, plant: None },
        }
    }
}

impl HoverNote for Plant {
    /// The plant's kind and its growth in percent, such as
    /// `Cabbage Growth: 52.30%`.
    fn hover_note(&self) -> (note: String)
        ensures
            note@ == percent_line(
                self.plant_type.spec_name() + " Growth"@,
                self.growth as nat * 10,
            ),
    {
        let mut label = String::from_str(self.plant_type.name());
        label.append(" Growth");
        percent_text(label.as_str(), self.growth as u64 * 10)
    }
}

/// The plant after `ticks` ticks of growth.
pub open spec fn grown_for(plant: Plant, ticks: nat) -> Plant
    decreases ticks,
{
    if ticks == 0 {
        plant
    } else {
        grown_for(plant, (ticks - 1) as nat).spec_grown()
    }
}

/// Growth never goes down and never passes one whole, however many ticks
/// pass.
pub proof fn lemma_growth_monotonic(plant: Plant, ticks: nat)
    requires
        plant.wf(),
    ensures
        grown_for(plant, ticks).wf(),
        grown_for(plant, ticks).growth >= plant.growth,
        ticks > 0 ==> grown_for(plant, ticks).growth >= grown_for(plant, (ticks - 1) as nat).growth,
        grown_for(plant, ticks).plant_type == plant.plant_type,
    decreases ticks,
{
    if ticks > 0 {
        lemma_growth_monotonic(plant, (ticks - 1) as nat);
    }
}

/// Foraging under a `Once` rule that yields removes the plant and gains
/// exactly the rule's items; under a `Repeat` rule the plant stays, with its
/// growth back at zero.
pub proof fn lemma_forage_outcomes(plant: Plant, item: ItemType, quantity: i32)
    ensures
        plant.spec_forage_with(Some(item), quantity, ForageType::Once) == (Harvest {
            item: Some(item),
            quantity,
            plant: None,
        }),
        plant.spec_forage_with(Some(item), quantity, ForageType::Repeat) == (Harvest {
            item: Some(item),
            quantity,
            plant: Some(Plant { growth: 0, plant_type: plant.plant_type }),
        }),
{
}

} // verus!
