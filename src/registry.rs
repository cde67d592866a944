//! The economic configuration of each unit type.
use vstd::prelude::*;
use crate::descriptors::UnitType;

verus! {

/// What buying one unit of a type costs.
#[derive(Debug, Clone, Copy, PartialEq, Eq, Hash, Structural)]
pub struct UnitConfig {
    pub cost: u8,
}

/// The position of a unit type in the registry's table.
pub open spec fn type_slot(unit_type: UnitType) -> int {
    match unit_type {
        UnitType::Acolyte => 0,
        UnitType::Warrior => 1,
        UnitType::Cat => 2,
        UnitType::Knight => 3,
    }
}

fn slot_of(unit_type: UnitType) -> (r: usize)
    ensures
        r == type_slot(unit_type),
{
    match unit_type {
        UnitType::Acolyte => 0,
        UnitType::Warrior => 1,
        UnitType::Cat => 2,
        UnitType::Knight => 3,
    }
}

/// The cost of each unit type in the standard registry.
pub open spec fn standard_cost(unit_type: UnitType) -> u8 {
    match unit_type {
        UnitType::Acolyte => 40,
        UnitType::Warrior => 30,
        UnitType::Cat => 20,
        UnitType::Knight => 50,
    }
}

/// A read-only table with exactly one configuration per unit type.
pub struct UnitResource {
    configs: [UnitConfig; 4],
}

impl UnitResource {
    /// The configuration registered for a unit type.
    pub closed spec fn config_of(&self, unit_type: UnitType) -> UnitConfig {
        self.configs@[type_slot(unit_type)]
    }

    /// Looks up the configuration of a unit type; every type has one.
    pub fn get(&self, unit_type: UnitType) -> (r: &UnitConfig)
        ensures
            *r == self.config_of(unit_type),
    {
        let i = slot_of(unit_type);
        &self.configs[i]
    }
}

impl Default for UnitResource {
    /// The standard registry.
    fn default() -> (r: UnitResource)
        ensures
            forall|t: UnitType| #[trigger] r.config_of(t).cost == standard_cost(t),
            forall|t: UnitType| #[trigger] r.config_of(t).cost > 0,
    {
        let r = UnitResource {
            configs: [
                UnitConfig { cost: 40 },
                UnitConfig { cost: 30 },
                UnitConfig { cost: 20 },
                UnitConfig { cost: 50 },
            ],
        };
        assert forall|t: UnitType| #[trigger] r.config_of(t).cost == standard_cost(t) by {
            match t {
                UnitType::Acolyte => assert(r.configs@[0].cost == 40),
                UnitType::Warrior => assert(r.configs@[1].cost == 30),
                UnitType::Cat => assert(r.configs@[2].cost == 20),
                UnitType::Knight => assert(r.configs@[3].cost == 50),
            }
        }
        r
    }
}

/// Every unit type has an entry in the standard registry, and a positive cost.
pub proof fn lemma_standard_registry_costs_positive(registry: UnitResource, unit_type: UnitType)
    requires
        call_ensures(<UnitResource as Default>::default, (), registry),
    ensures
        registry.config_of(unit_type).cost > 0,
{
}

} // verus!
