use vstd::prelude::*;
use crate::plant::PlantType;

verus! {

#[derive(Clone, Copy, Debug, PartialEq, Eq, Structural)]
pub enum ZoneType {
    Farm,
    Pasture,
    Storage,
    Fishing,
    Hospital,
    Party,
    Meeting,
}

/// A designated area. `plant_type` counts only on a farm.
#[derive(Clone, Copy, Debug, PartialEq, Eq, Structural)]
pub struct Zone {
    pub zone_type: ZoneType,
    pub plant_type: PlantType,
    pub material_delivered: bool,
}

impl Zone {
    /// The crop of a farm; no other zone has one, whatever its `plant_type`
    /// field holds.
    pub open spec fn spec_crop(&self) -> Option<PlantType> {
        if self.zone_type is Farm {
            Some(self.plant_type)
        } else {
            None
        }
    }

    #[verifier::when_used_as_spec(spec_crop)]
    pub fn crop(&self) -> (crop: Option<PlantType>)
        ensures
            crop == self.spec_crop(),
    {
        match self.zone_type {
            ZoneType::Farm => Some(self.plant_type),
            _ => None,
        }
    }
}

impl Default for Zone {
    /// A cabbage farm that waits for its material.
    fn default() -> (zone: Zone)
        ensures
            zone == (Zone {
                zone_type: ZoneType::Farm,
                plant_type: PlantType::Cabbage,
                material_delivered: false,
            }),
    {
        Zone {
            zone_type: ZoneType::Farm,
            plant_type: PlantType::Cabbage,
            material_delivered: false,
        }
    }
}

} // verus!
