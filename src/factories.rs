//! One factory per unit type: the static stats, behaviors and animations of
//! that type.
use vstd::prelude::*;
use crate::descriptors::{
    clip_fits_grid, clips_wf, repertoire_wf, AnimatedChildSpawnParams, AnimationType,
    BehaviorBundle, BehaviorEntry, BehaviorKind, StatProfile, UnitBundle,
};

verus! {

/// The three queries that describe a unit type. They take no runtime input,
/// so each answers with the same value on every call (the value named by the
/// matching spec function). Their contracts also demand well-authored data:
/// a repertoire whose initial behavior is listed, and clips that fit their
/// grids with exactly one idle clip. A type whose data breaks either is
/// rejected when the crate is verified, before anything can be spawned.
pub trait UnitChildrenSpawnParamsFactory {
    /// The base components of the type.
    spec fn unit_bundle_spec(&self) -> UnitBundle;

    /// The behavior the unit starts in.
    spec fn initial_behavior_spec(&self) -> BehaviorKind;

    /// The legal behaviors of the type with their weights, in order.
    spec fn behavior_entries_spec(&self) -> Seq<BehaviorEntry>;

    /// The animation clips of the type, in order.
    spec fn clips_spec(&self) -> Seq<AnimatedChildSpawnParams>;

    fn create_unit_bundle(&self) -> (r: UnitBundle)
        ensures
            r == self.unit_bundle_spec(),
    ;

    fn create_behavior_bundle(&self) -> (r: BehaviorBundle)
        ensures
            r.current_behavior == self.initial_behavior_spec(),
            r.supported_behaviors@ == self.behavior_entries_spec(),
            repertoire_wf(r.current_behavior, r.supported_behaviors@),
    ;

    fn create_children_spawn_params(&self) -> (r: Vec<AnimatedChildSpawnParams>)
        ensures
            r@ == self.clips_spec(),
            clips_wf(r@),
    ;
}

/// A clip description assembled from its parts.
pub open spec fn clip_of(
    sprite_sheet_path: &'static str,
    frame_width: u32,
    frame_height: u32,
    columns: u32,
    rows: u32,
    frame_count: u32,
    kind: AnimationType,
    looping: bool,
    attack_triggered: bool,
) -> AnimatedChildSpawnParams {
    AnimatedChildSpawnParams {
        sprite_sheet_path,
        frame_width,
        frame_height,
        columns,
        rows,
        frame_count,
        kind,
        looping,
        attack_triggered,
    }
}

/// Builds a clip description from its parts.
pub fn clip(
    sprite_sheet_path: &'static str,
    frame_width: u32,
    frame_height: u32,
    columns: u32,
    rows: u32,
    frame_count: u32,
    kind: AnimationType,
    looping: bool,
    attack_triggered: bool,
) -> (r: AnimatedChildSpawnParams)
    ensures
        r == clip_of(
            sprite_sheet_path,
            frame_width,
            frame_height,
            columns,
            rows,
            frame_count,
            kind,
            looping,
            attack_triggered,
        ),
{
    AnimatedChildSpawnParams {
        sprite_sheet_path,
        frame_width,
        frame_height,
        columns,
        rows,
        frame_count,
        kind,
        looping,
        attack_triggered,
    }
}

/// A support unit that hands out mana on a repeating timer.
#[derive(Debug, Clone, Copy, PartialEq, Eq)]
pub struct Acolyte {
    /// Time between two mana gifts, in milliseconds.
    pub give_mana_cooldown_ms: u32,
    pub mana_amount: u8,
}

impl Default for Acolyte {
    /// Five mana every second.
    fn default() -> (r: Acolyte)
        ensures
            r.give_mana_cooldown_ms == 1000,
            r.mana_amount == 5,
    {
        Acolyte { give_mana_cooldown_ms: 1000, mana_amount: 5 }
    }
}

impl UnitChildrenSpawnParamsFactory for Acolyte {
    open spec fn unit_bundle_spec(&self) -> UnitBundle {
        UnitBundle::with_stats_spec(
            StatProfile { movement_speed: 75, max_health: 50, visual_scale_percent: 80 },
        )
    }

    open spec fn initial_behavior_spec(&self) -> BehaviorKind {
        BehaviorKind::Idle
    }

    open spec fn behavior_entries_spec(&self) -> Seq<BehaviorEntry> {
        seq![
            BehaviorEntry { kind: BehaviorKind::Idle, priority_weight: 5 },
            BehaviorEntry { kind: BehaviorKind::Flee, priority_weight: 10 },
            BehaviorEntry { kind: BehaviorKind::Dead, priority_weight: 15 },
        ]
    }

    open spec fn clips_spec(&self) -> Seq<AnimatedChildSpawnParams> {
        seq![
            clip_of("acolyte/acolyte_idle.png", 80, 80, 3, 4, 9, AnimationType::Idle, true, false),
            clip_of("acolyte/acolyte_idle.png", 80, 80, 3, 4, 9, AnimationType::Walk, true, false),
            clip_of("acolyte/acolyte_death.png", 80, 80, 3, 4, 9, AnimationType::Death, false, false),
        ]
    }

    fn create_unit_bundle(&self) -> (r: UnitBundle) {
        UnitBundle::with_stats(75, 50, 80)
    }

    fn create_behavior_bundle(&self) -> (r: BehaviorBundle) {
        let r = BehaviorBundle {
            current_behavior: BehaviorKind::Idle,
            supported_behaviors: vec![
                BehaviorEntry { kind: BehaviorKind::Idle, priority_weight: 5 },
                BehaviorEntry { kind: BehaviorKind::Flee, priority_weight: 10 },
                BehaviorEntry { kind: BehaviorKind::Dead, priority_weight: 15 },
            ],
        };
        assert(r.supported_behaviors@[0].kind == r.current_behavior);
        assert(r.supported_behaviors@ =~= self.behavior_entries_spec());
        r
    }

    fn create_children_spawn_params(&self) -> (r: Vec<AnimatedChildSpawnParams>) {
        let r = vec![
            clip("acolyte/acolyte_idle.png", 80, 80, 3, 4, 9, AnimationType::Idle, true, false),
            clip("acolyte/acolyte_idle.png", 80, 80, 3, 4, 9, AnimationType::Walk, true, false),
            clip("acolyte/acolyte_death.png", 80, 80, 3, 4, 9, AnimationType::Death, false, false),
        ];
        assert(r@ =~= self.clips_spec());
        assert(r@[0].kind == AnimationType::Idle);
        assert forall|i: int| 0 <= i < r@.len() implies clip_fits_grid(#[trigger] r@[i]) by {
            assert(r@[i].columns == 3 && r@[i].rows == 4 && r@[i].frame_count == 9);
        }
        r
    }
}

/// A slow-hitting melee brawler with a large health pool.
#[derive(Debug, Clone, Copy, PartialEq, Eq)]
pub struct Warrior;

impl UnitChildrenSpawnParamsFactory for Warrior {
    open spec fn unit_bundle_spec(&self) -> UnitBundle {
        UnitBundle::with_stats_spec(
            StatProfile { movement_speed: 200, max_health: 255, visual_scale_percent: 180 },
        )
    }

    open spec fn initial_behavior_spec(&self) -> BehaviorKind {
        BehaviorKind::Idle
    }

    open spec fn behavior_entries_spec(&self) -> Seq<BehaviorEntry> {
        BehaviorBundle::idle_only_entries()
    }

    open spec fn clips_spec(&self) -> Seq<AnimatedChildSpawnParams> {
        seq![
            clip_of("warrior/warrior_idle.png", 96, 96, 21, 1, 20, AnimationType::Idle, true, false),
            clip_of("warrior/warrior_walk.png", 96, 96, 11, 1, 10, AnimationType::Walk, true, false),
            clip_of("warrior/warrior_death.png", 96, 96, 36, 1, 35, AnimationType::Death, false, false),
            clip_of("warrior/warrior_attack.png", 96, 96, 33, 1, 32, AnimationType::Attack, false, true),
        ]
    }

    fn create_unit_bundle(&self) -> (r: UnitBundle) {
        UnitBundle::with_stats(200, 255, 180)
    }

    fn create_behavior_bundle(&self) -> (r: BehaviorBundle) {
        BehaviorBundle::default()
    }

    fn create_children_spawn_params(&self) -> (r: Vec<AnimatedChildSpawnParams>) {
        let r = vec![
            clip("warrior/warrior_idle.png", 96, 96, 21, 1, 20, AnimationType::Idle, true, false),
            clip("warrior/warrior_walk.png", 96, 96, 11, 1, 10, AnimationType::Walk, true, false),
            clip("warrior/warrior_death.png", 96, 96, 36, 1, 35, AnimationType::Death, false, false),
            clip("warrior/warrior_attack.png", 96, 96, 33, 1, 32, AnimationType::Attack, false, true),
        ];
        assert(r@ =~= self.clips_spec());
        assert(r@[0].kind == AnimationType::Idle);
        r
    }
}

/// A fast skirmisher.
#[derive(Debug, Clone, Copy, PartialEq, Eq)]
pub struct Cat;

impl UnitChildrenSpawnParamsFactory for Cat {
    open spec fn unit_bundle_spec(&self) -> UnitBundle {
        UnitBundle::with_stats_spec(
            StatProfile { movement_speed: 300, max_health: 125, visual_scale_percent: 140 },
        )
    }

    open spec fn initial_behavior_spec(&self) -> BehaviorKind {
        BehaviorKind::Idle
    }

    open spec fn behavior_entries_spec(&self) -> Seq<BehaviorEntry> {
        BehaviorBundle::idle_only_entries()
    }

    open spec fn clips_spec(&self) -> Seq<AnimatedChildSpawnParams> {
        seq![
            clip_of("cat/cat_idle.png", 96, 96, 10, 1, 9, AnimationType::Idle, true, false),
            clip_of("cat/cat_walk.png", 96, 96, 8, 1, 7, AnimationType::Walk, true, false),
            clip_of("cat/cat_death.png", 96, 96, 18, 1, 17, AnimationType::Death, false, false),
            clip_of("cat/cat_attack.png", 96, 96, 27, 1, 26, AnimationType::Attack, false, true),
        ]
    }

    fn create_unit_bundle(&self) -> (r: UnitBundle) {
        UnitBundle::with_stats(300, 125, 140)
    }

    fn create_behavior_bundle(&self) -> (r: BehaviorBundle) {
        BehaviorBundle::default()
    }

    fn create_children_spawn_params(&self) -> (r: Vec<AnimatedChildSpawnParams>) {
        let r = vec![
            clip("cat/cat_idle.png", 96, 96, 10, 1, 9, AnimationType::Idle, true, false),
            clip("cat/cat_walk.png", 96, 96, 8, 1, 7, AnimationType::Walk, true, false),
            clip("cat/cat_death.png", 96, 96, 18, 1, 17, AnimationType::Death, false, false),
            clip("cat/cat_attack.png", 96, 96, 27, 1, 26, AnimationType::Attack, false, true),
        ];
        assert(r@ =~= self.clips_spec());
        assert(r@[0].kind == AnimationType::Idle);
        r
    }
}

/// An armored attacker that marches on the origin and fights what it meets.
#[derive(Debug, Clone, Copy, PartialEq, Eq)]
pub struct Knight;

impl UnitChildrenSpawnParamsFactory for Knight {
    open spec fn unit_bundle_spec(&self) -> UnitBundle {
        UnitBundle::with_stats_spec(
            StatProfile { movement_speed: 250, max_health: 90, visual_scale_percent: 150 },
        )
    }

    open spec fn initial_behavior_spec(&self) -> BehaviorKind {
        BehaviorKind::MoveOrigo
    }

    open spec fn behavior_entries_spec(&self) -> Seq<BehaviorEntry> {
        seq![
            BehaviorEntry { kind: BehaviorKind::Wander, priority_weight: 3 },
            BehaviorEntry { kind: BehaviorKind::MoveOrigo, priority_weight: 5 },
            BehaviorEntry { kind: BehaviorKind::Chase, priority_weight: 10 },
            BehaviorEntry { kind: BehaviorKind::Attack, priority_weight: 15 },
            BehaviorEntry { kind: BehaviorKind::Dead, priority_weight: 20 },
        ]
    }

    open spec fn clips_spec(&self) -> Seq<AnimatedChildSpawnParams> {
        seq![
            clip_of("enemy/enemy_idle.png", 64, 64, 12, 1, 11, AnimationType::Idle, true, false),
            clip_of("enemy/enemy_move.png", 96, 64, 8, 1, 7, AnimationType::Walk, true, false),
            clip_of("enemy/enemy_death.png", 96, 64, 15, 1, 14, AnimationType::Death, false, false),
            clip_of("enemy/enemy_attack.png", 144, 64, 22, 1, 21, AnimationType::Attack, false, true),
        ]
    }

    fn create_unit_bundle(&self) -> (r: UnitBundle) {
        UnitBundle::with_stats(250, 90, 150)
    }

    fn create_behavior_bundle(&self) -> (r: BehaviorBundle) {
        let r = BehaviorBundle {
            supported_behaviors: vec![
                BehaviorEntry { kind: BehaviorKind::Wander, priority_weight: 3 },
                BehaviorEntry { kind: BehaviorKind::MoveOrigo, priority_weight: 5 },
                BehaviorEntry { kind: BehaviorKind::Chase, priority_weight: 10 },
                BehaviorEntry { kind: BehaviorKind::Attack, priority_weight: 15 },
                BehaviorEntry { kind: BehaviorKind::Dead, priority_weight: 20 },
            ],
            current_behavior: BehaviorKind::MoveOrigo,
        };
        assert(r.supported_behaviors@[1].kind == r.current_behavior);
        assert(r.supported_behaviors@ =~= self.behavior_entries_spec());
        r
    }

    fn create_children_spawn_params(&self) -> (r: Vec<AnimatedChildSpawnParams>) {
        let r = vec![
            clip("enemy/enemy_idle.png", 64, 64, 12, 1, 11, AnimationType::Idle, true, false),
            clip("enemy/enemy_move.png", 96, 64, 8, 1, 7, AnimationType::Walk, true, false),
            clip("enemy/enemy_death.png", 96, 64, 15, 1, 14, AnimationType::Death, false, false),
            clip("enemy/enemy_attack.png", 144, 64, 22, 1, 21, AnimationType::Attack, false, true),
        ];
        assert(r@ =~= self.clips_spec());
        assert(r@[0].kind == AnimationType::Idle);
        r
    }
}

/// A factory's queries are stable: two calls of one query on the same
/// factory give equal values.
pub proof fn lemma_factory_queries_stable<F: UnitChildrenSpawnParamsFactory>(
    f: &F,
    bundle_a: UnitBundle,
    bundle_b: UnitBundle,
    behaviors_a: BehaviorBundle,
    behaviors_b: BehaviorBundle,
    clips_a: Vec<AnimatedChildSpawnParams>,
    clips_b: Vec<AnimatedChildSpawnParams>,
)
    requires
        call_ensures(F::create_unit_bundle, (f,), bundle_a),
        call_ensures(F::create_unit_bundle, (f,), bundle_b),
        call_ensures(F::create_behavior_bundle, (f,), behaviors_a),
        call_ensures(F::create_behavior_bundle, (f,), behaviors_b),
        call_ensures(F::create_children_spawn_params, (f,), clips_a),
        call_ensures(F::create_children_spawn_params, (f,), clips_b),
    ensures
        bundle_a == bundle_b,
        behaviors_a.current_behavior == behaviors_b.current_behavior,
        behaviors_a.supported_behaviors@ == behaviors_b.supported_behaviors@,
        clips_a@ == clips_b@,
{
}

} // verus!
