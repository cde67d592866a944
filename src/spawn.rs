//! Assembly of a live unit from its factory, a team and a position.
use vstd::prelude::*;
use crate::descriptors::{
    entry_kinds, AnimatedChildSpawnParams, BehaviorBundle, BehaviorKind, Team, UnitBundle,
    UnitType,
};
use crate::factories::{Acolyte, Cat, Knight, UnitChildrenSpawnParamsFactory, Warrior};

verus! {

/// The drawing layer that every spawned unit stands on.
pub const UNIT_LAYER: u32 = 0;

/// Everything a spawn writes into the entity store for one unit: the base
/// components, where it stands, its behaviors (the holder and one presence
/// marker per legal kind) and the animation clips of its children. `P` is
/// the world's 2D coordinate type, carried through unchanged.
pub struct SpawnedUnit<P> {
    pub bundle: UnitBundle,
    pub position: P,
    pub layer: u32,
    /// Always set: level teardown finds the unit by it.
    pub cleanup: bool,
    pub behaviors: BehaviorBundle,
    pub behavior_markers: Vec<BehaviorKind>,
    pub children: Vec<AnimatedChildSpawnParams>,
}

/// `s` is what spawning a unit from factory `f` for `team` at `position` gives.
pub open spec fn spawned_from<F: UnitChildrenSpawnParamsFactory, P>(
    f: &F,
    team: Team,
    position: P,
    s: SpawnedUnit<P>,
) -> bool {
    &&& s.bundle == (UnitBundle { team, ..f.unit_bundle_spec() })
    &&& s.position == position
    &&& s.layer == UNIT_LAYER
    &&& s.cleanup
    &&& s.behaviors.current_behavior == f.initial_behavior_spec()
    &&& s.behaviors.supported_behaviors@ == f.behavior_entries_spec()
    &&& s.behavior_markers@ == entry_kinds(f.behavior_entries_spec())
    &&& s.children@ == f.clips_spec()
}

/// Assembles a unit: the factory's base components with the caller's team and
/// position, its repertoire with one marker per entry, and its animation
/// clips, one child each.
pub fn spawn_unit<F: UnitChildrenSpawnParamsFactory, P>(
    unit_component: F,
    team: Team,
    spawn_position: P,
) -> (r: SpawnedUnit<P>)
    ensures
        spawned_from(&unit_component, team, spawn_position, r),
{
    let mut unit_bundle = unit_component.create_unit_bundle();
    unit_bundle.team = team;

    let behavior_bundle = unit_component.create_behavior_bundle();
    let entries = &behavior_bundle.supported_behaviors;
    let mut behavior_markers: Vec<BehaviorKind> = Vec::new();
    let n = entries.len();
    let mut i: usize = 0;
    while i < n
        invariant
            n == entries@.len(),
            i <= n,
            behavior_markers@ == entry_kinds(entries@.subrange(0, i as int)),
        decreases n - i,
    {
        behavior_markers.push(entries[i].kind);
        i = i + 1;
        assert(entries@.subrange(0, i as int) =~= entries@.subrange(0, i - 1).push(entries@[i - 1]));
    }
    assert(entries@.subrange(0, n as int) =~= entries@);

    let children = unit_component.create_children_spawn_params();
    SpawnedUnit {
        bundle: unit_bundle,
        position: spawn_position,
        layer: UNIT_LAYER,
        cleanup: true,
        behaviors: behavior_bundle,
        behavior_markers,
        children,
    }
}

/// `s` is what spawning a unit of type `unit_type` for `team` at `position`
/// gives: the spawn from that type's factory.
pub open spec fn spawned_as<P>(unit_type: UnitType, team: Team, position: P, s: SpawnedUnit<P>) -> bool {
    match unit_type {
        UnitType::Acolyte => spawned_from(
            &Acolyte { give_mana_cooldown_ms: 1000, mana_amount: 5 },
            team,
            position,
            s,
        ),
        UnitType::Warrior => spawned_from(&Warrior, team, position, s),
        UnitType::Cat => spawned_from(&Cat, team, position, s),
        UnitType::Knight => spawned_from(&Knight, team, position, s),
    }
}

/// Resolves the factory of a unit type and spawns a unit from it.
pub fn spawn_unit_by_type<P>(unit_type: UnitType, team: Team, spawn_position: P) -> (r: SpawnedUnit<P>)
    ensures
        spawned_as(unit_type, team, spawn_position, r),
{
    match unit_type {
        UnitType::Acolyte => spawn_unit(Acolyte::default(), team, spawn_position),
        UnitType::Warrior => spawn_unit(Warrior, team, spawn_position),
        UnitType::Cat => spawn_unit(Cat, team, spawn_position),
        UnitType::Knight => spawn_unit(Knight, team, spawn_position),
    }
}

/// A spawned unit has exactly the stats of its factory's base components,
/// the caller's team (never the factory's placeholder) and the caller's
/// position on the unit layer.
pub proof fn lemma_spawn_takes_stats_team_and_position<F: UnitChildrenSpawnParamsFactory, P>(
    unit_component: F,
    team: Team,
    spawn_position: P,
    spawned: SpawnedUnit<P>,
    base: UnitBundle,
)
    requires
        call_ensures(spawn_unit::<F, P>, (unit_component, team, spawn_position), spawned),
        call_ensures(F::create_unit_bundle, (&unit_component,), base),
    ensures
        spawned.bundle.stats == base.stats,
        spawned.bundle.team == team,
        spawned.position == spawn_position,
        spawned.layer == UNIT_LAYER,
{
}

/// A spawned unit carries one behavior marker per entry of its factory's
/// repertoire, in order, and starts in the repertoire's initial behavior.
pub proof fn lemma_spawn_marks_each_behavior<F: UnitChildrenSpawnParamsFactory, P>(
    unit_component: F,
    team: Team,
    spawn_position: P,
    spawned: SpawnedUnit<P>,
    repertoire: BehaviorBundle,
)
    requires
        call_ensures(spawn_unit::<F, P>, (unit_component, team, spawn_position), spawned),
        call_ensures(F::create_behavior_bundle, (&unit_component,), repertoire),
    ensures
        spawned.behavior_markers@.len() == repertoire.supported_behaviors@.len(),
        forall|i: int|
            0 <= i < spawned.behavior_markers@.len() ==> spawned.behavior_markers@[i]
                == #[trigger] repertoire.supported_behaviors@[i].kind,
        spawned.behaviors.supported_behaviors@ == repertoire.supported_behaviors@,
        spawned.behaviors.current_behavior == repertoire.current_behavior,
{
}

/// A spawned unit gets one animation child per clip of its factory, in order.
pub proof fn lemma_spawn_makes_one_child_per_clip<F: UnitChildrenSpawnParamsFactory, P>(
    unit_component: F,
    team: Team,
    spawn_position: P,
    spawned: SpawnedUnit<P>,
    clips: Vec<AnimatedChildSpawnParams>,
)
    requires
        call_ensures(spawn_unit::<F, P>, (unit_component, team, spawn_position), spawned),
        call_ensures(F::create_children_spawn_params, (&unit_component,), clips),
    ensures
        spawned.children@.len() == clips@.len(),
        spawned.children@ == clips@,
{
}

} // verus!
