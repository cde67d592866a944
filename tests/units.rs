use dark_arts_units::descriptors::{
    AnimatedChildSpawnParams, AnimationType, BehaviorBundle, BehaviorEntry, BehaviorKind, Team,
    UnitType,
};
use dark_arts_units::factories::{clip, Acolyte, Cat, Knight, UnitChildrenSpawnParamsFactory, Warrior};
use dark_arts_units::registry::{UnitConfig, UnitResource};
use dark_arts_units::spawn::{spawn_unit, spawn_unit_by_type, SpawnedUnit, UNIT_LAYER};

const ALL_TYPES: [UnitType; 4] = [UnitType::Acolyte, UnitType::Warrior, UnitType::Cat, UnitType::Knight];

fn check_clips(clips: &[AnimatedChildSpawnParams]) {
    let idle = clips.iter().filter(|c| c.kind == AnimationType::Idle).count();
    assert_eq!(idle, 1);
    for c in clips {
        assert!(c.frame_count <= c.columns * c.rows);
    }
}

fn check_repertoire(b: &BehaviorBundle) {
    assert!(b.supported_behaviors.iter().any(|e| e.kind == b.current_behavior));
}

fn kinds(b: &BehaviorBundle) -> Vec<BehaviorKind> {
    b.supported_behaviors.iter().map(|e| e.kind).collect()
}

fn check_spawn<F: UnitChildrenSpawnParamsFactory + Clone>(f: F, team: Team) {
    let s: SpawnedUnit<(f32, f32)> = spawn_unit(f.clone(), team, (-3.5, 12.25));
    assert_eq!(s.bundle.stats, f.create_unit_bundle().stats);
    assert_eq!(s.bundle.team, team);
    assert_eq!(s.position, (-3.5, 12.25));
    assert_eq!(s.layer, UNIT_LAYER);
    assert!(s.cleanup);
    assert_eq!(s.behaviors, f.create_behavior_bundle());
    assert_eq!(s.behavior_markers, kinds(&f.create_behavior_bundle()));
    assert_eq!(s.children, f.create_children_spawn_params());
}

#[test]
fn registry_has_positive_cost_for_every_type() {
    let reg = UnitResource::default();
    for t in ALL_TYPES {
        assert!(reg.get(t).cost > 0);
    }
    assert_eq!(*reg.get(UnitType::Acolyte), UnitConfig { cost: 40 });
    assert_eq!(*reg.get(UnitType::Warrior), UnitConfig { cost: 30 });
    assert_eq!(*reg.get(UnitType::Cat), UnitConfig { cost: 20 });
    assert_eq!(*reg.get(UnitType::Knight), UnitConfig { cost: 50 });
}

#[test]
fn every_factory_has_one_idle_clip_that_fits() {
    check_clips(&Acolyte::default().create_children_spawn_params());
    check_clips(&Warrior.create_children_spawn_params());
    check_clips(&Cat.create_children_spawn_params());
    check_clips(&Knight.create_children_spawn_params());
}

#[test]
fn every_factory_starts_in_a_listed_behavior() {
    check_repertoire(&Acolyte::default().create_behavior_bundle());
    check_repertoire(&Warrior.create_behavior_bundle());
    check_repertoire(&Cat.create_behavior_bundle());
    check_repertoire(&Knight.create_behavior_bundle());
}

#[test]
fn spawn_copies_factory_data_and_caller_inputs() {
    check_spawn(Acolyte::default(), Team::Enemy);
    check_spawn(Warrior, Team::Player);
    check_spawn(Cat, Team::Enemy);
    check_spawn(Knight, Team::Enemy);
}

#[test]
fn spawn_team_is_the_callers_not_the_default() {
    assert_eq!(Knight.create_unit_bundle().team, Team::Player);
    let s = spawn_unit(Knight, Team::Enemy, (0.0f32, 0.0f32));
    assert_eq!(s.bundle.team, Team::Enemy);
}

#[test]
fn spawn_puts_one_marker_per_entry() {
    let s = spawn_unit(Acolyte::default(), Team::Player, (1.0f32, 2.0f32));
    assert_eq!(s.behavior_markers, vec![BehaviorKind::Idle, BehaviorKind::Flee, BehaviorKind::Dead]);
    assert_eq!(s.behavior_markers.len(), s.behaviors.supported_behaviors.len());
    assert_eq!(s.behaviors.current_behavior, BehaviorKind::Idle);
    let w = spawn_unit(Warrior, Team::Player, (1.0f32, 2.0f32));
    assert_eq!(w.behavior_markers, vec![BehaviorKind::Idle]);
}

#[test]
fn spawn_makes_one_child_per_clip() {
    let s = spawn_unit(Cat, Team::Player, (0.0f32, 0.0f32));
    assert_eq!(s.children.len(), Cat.create_children_spawn_params().len());
    assert_eq!(s.children.len(), 4);
    assert_eq!(s.children[3].sprite_sheet_path, "cat/cat_attack.png");
    assert!(s.children[3].attack_triggered);
}

#[test]
fn factory_queries_are_stable() {
    let f = Knight;
    assert_eq!(f.create_unit_bundle(), f.create_unit_bundle());
    assert_eq!(f.create_behavior_bundle(), f.create_behavior_bundle());
    assert_eq!(f.create_children_spawn_params(), f.create_children_spawn_params());
    let a = Acolyte::default();
    assert_eq!(a.create_unit_bundle(), a.create_unit_bundle());
    assert_eq!(a.create_behavior_bundle(), a.create_behavior_bundle());
    assert_eq!(a.create_children_spawn_params(), a.create_children_spawn_params());
}

#[test]
fn spawn_support_unit_scenario() {
    let s = spawn_unit(Acolyte::default(), Team::Player, (100.0f32, 50.0f32));
    assert_eq!(s.bundle.stats.movement_speed, 75);
    assert_eq!(s.bundle.stats.max_health, 50);
    assert_eq!(s.bundle.stats.visual_scale_percent, 80);
    assert_eq!(s.bundle.team, Team::Player);
    assert_eq!(s.position, (100.0, 50.0));
    assert_eq!(s.layer, 0);
    assert_eq!(s.behaviors.current_behavior, BehaviorKind::Idle);
    let kinds: Vec<AnimationType> = s.children.iter().map(|c| c.kind).collect();
    assert_eq!(kinds, vec![AnimationType::Idle, AnimationType::Walk, AnimationType::Death]);
    assert!(!kinds.contains(&AnimationType::Attack));
}

#[test]
fn spawn_frontline_unit_scenario() {
    let s = spawn_unit(Knight, Team::Enemy, (100.0f32, 50.0f32));
    assert_eq!(s.bundle.stats.movement_speed, 250);
    assert_eq!(s.bundle.stats.max_health, 90);
    assert_eq!(s.behaviors.current_behavior, BehaviorKind::MoveOrigo);
    let entries = &s.behaviors.supported_behaviors;
    assert_eq!(entries.len(), 5);
    assert_eq!(entries[0].kind, BehaviorKind::Wander);
    assert_eq!(entries[4].kind, BehaviorKind::Dead);
    for w in entries.windows(2) {
        assert!(w[0].priority_weight < w[1].priority_weight);
    }
    assert_eq!(
        kinds(&s.behaviors),
        vec![
            BehaviorKind::Wander,
            BehaviorKind::MoveOrigo,
            BehaviorKind::Chase,
            BehaviorKind::Attack,
            BehaviorKind::Dead
        ]
    );
}

#[test]
fn spawn_by_type_resolves_each_factory() {
    let a = spawn_unit_by_type(UnitType::Acolyte, Team::Player, (5i32, 6i32));
    assert_eq!(a.bundle.stats.movement_speed, 75);
    assert_eq!(a.position, (5, 6));
    let w = spawn_unit_by_type(UnitType::Warrior, Team::Player, (0i32, 0i32));
    assert_eq!(w.bundle.stats.max_health, 255);
    assert_eq!(w.bundle.stats.visual_scale_percent, 180);
    let c = spawn_unit_by_type(UnitType::Cat, Team::Enemy, (0i32, 0i32));
    assert_eq!(c.bundle.stats.movement_speed, 300);
    assert_eq!(c.bundle.team, Team::Enemy);
    let k = spawn_unit_by_type(UnitType::Knight, Team::Enemy, (0i32, 0i32));
    assert_eq!(k.behaviors.current_behavior, BehaviorKind::MoveOrigo);
    assert_eq!(k.children[3].frame_width, 144);
}

#[test]
fn default_repertoire_is_idle_only() {
    let b = BehaviorBundle::default();
    assert_eq!(b.current_behavior, BehaviorKind::Idle);
    assert_eq!(b.supported_behaviors, vec![BehaviorEntry { kind: BehaviorKind::Idle, priority_weight: 0 }]);
}

#[test]
fn acolyte_gives_five_mana_each_second() {
    let a = Acolyte::default();
    assert_eq!(a.mana_amount, 5);
    assert_eq!(a.give_mana_cooldown_ms, 1000);
}

#[test]
fn clip_builder_keeps_every_field() {
    let c = clip("x.png", 1, 2, 3, 4, 5, AnimationType::Attack, true, true);
    assert_eq!(
        c,
        AnimatedChildSpawnParams {
            sprite_sheet_path: "x.png",
            frame_width: 1,
            frame_height: 2,
            columns: 3,
            rows: 4,
            frame_count: 5,
            kind: AnimationType::Attack,
            looping: true,
            attack_triggered: true,
        }
    );
}
