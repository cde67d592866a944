//! Plain data describing a unit: stats, animation clips and behaviors.
use vstd::prelude::*;

verus! {

/// The closed set of unit types that can be bought and spawned.
#[derive(Debug, Clone, Copy, PartialEq, Eq, Hash, Structural)]
pub enum UnitType {
    Acolyte,
    Warrior,
    Cat,
    Knight,
}

/// The side a unit fights for.
#[derive(Debug, Clone, Copy, PartialEq, Eq, Hash, Structural)]
pub enum Team {
    Player,
    Enemy,
}

/// Which pose an animation clip shows.
#[derive(Debug, Clone, Copy, PartialEq, Eq, Hash, Structural)]
pub enum AnimationType {
    Idle,
    Walk,
    Death,
    Attack,
}

/// A behavior the AI may run for a unit.
#[derive(Debug, Clone, Copy, PartialEq, Eq, Hash, Structural)]
pub enum BehaviorKind {
    Idle,
    MoveOrigo,
    Wander,
    Chase,
    Flee,
    Attack,
    Dead,
}

/// Per-type stats. Speed is in world units per second; the visual scale is
/// in hundredths (100 draws the sprite at its natural size).
#[derive(Debug, Clone, Copy, PartialEq, Eq, Hash, Structural)]
pub struct StatProfile {
    pub movement_speed: u32,
    pub max_health: u32,
    pub visual_scale_percent: u32,
}

/// The components every unit starts with. `team` is a placeholder that the
/// spawn always overwrites with the caller's team.
#[derive(Debug, Clone, Copy, PartialEq, Eq, Hash, Structural)]
pub struct UnitBundle {
    pub stats: StatProfile,
    pub team: Team,
    pub current_animation: AnimationType,
}

impl UnitBundle {
    /// A bundle with the given stats and the default team and pose.
    pub open spec fn with_stats_spec(stats: StatProfile) -> UnitBundle {
        UnitBundle { stats, team: Team::Player, current_animation: AnimationType::Idle }
    }

    pub fn with_stats(movement_speed: u32, max_health: u32, visual_scale_percent: u32) -> (r:
        UnitBundle)
        ensures
            r == UnitBundle::with_stats_spec(
                StatProfile { movement_speed, max_health, visual_scale_percent },
            ),
    {
        UnitBundle {
            stats: StatProfile { movement_speed, max_health, visual_scale_percent },
            team: Team::Player,
            current_animation: AnimationType::Idle,
        }
    }
}

/// One sprite-sheet animation to be instantiated as a child of the unit.
#[derive(Debug, Clone, Copy, PartialEq, Eq, Hash)]
pub struct AnimatedChildSpawnParams {
    pub sprite_sheet_path: &'static str,
    pub frame_width: u32,
    pub frame_height: u32,
    pub columns: u32,
    pub rows: u32,
    pub frame_count: u32,
    pub kind: AnimationType,
    pub looping: bool,
    pub attack_triggered: bool,
}

/// The frames of a clip fit in its sprite-sheet grid.
pub open spec fn clip_fits_grid(c: AnimatedChildSpawnParams) -> bool {
    c.frame_count as int <= c.columns as int * c.rows as int
}

/// Exactly one clip of the sequence is an idle clip.
pub open spec fn has_single_idle(clips: Seq<AnimatedChildSpawnParams>) -> bool {
    exists|i: int|
        0 <= i < clips.len() && #[trigger] clips[i].kind == AnimationType::Idle && forall|j: int|
            0 <= j < clips.len() && j != i ==> clips[j].kind != AnimationType::Idle
}

/// A well-authored clip list: every clip fits its grid and there is one idle
/// clip to fall back to.
pub open spec fn clips_wf(clips: Seq<AnimatedChildSpawnParams>) -> bool {
    &&& forall|i: int| 0 <= i < clips.len() ==> clip_fits_grid(#[trigger] clips[i])
    &&& has_single_idle(clips)
}

/// One legal behavior with its priority weight.
#[derive(Debug, Clone, Copy, PartialEq, Eq, Hash, Structural)]
pub struct BehaviorEntry {
    pub kind: BehaviorKind,
    pub priority_weight: u32,
}

/// The behaviors a unit may run, and the one it starts with.
#[derive(Debug, PartialEq, Eq)]
pub struct BehaviorBundle {
    pub current_behavior: BehaviorKind,
    pub supported_behaviors: Vec<BehaviorEntry>,
}

/// The behavior kinds of a list of entries, in order.
pub open spec fn entry_kinds(entries: Seq<BehaviorEntry>) -> Seq<BehaviorKind> {
    entries.map_values(|e: BehaviorEntry| e.kind)
}

/// A repertoire is well formed when its initial behavior is one of its entries.
pub open spec fn repertoire_wf(initial: BehaviorKind, entries: Seq<BehaviorEntry>) -> bool {
    exists|i: int| 0 <= i < entries.len() && #[trigger] entries[i].kind == initial
}

impl BehaviorBundle {
    /// The entries of the repertoire that a type without behaviors of its own
    /// gets: a single idle entry.
    pub open spec fn idle_only_entries() -> Seq<BehaviorEntry> {
        seq![BehaviorEntry { kind: BehaviorKind::Idle, priority_weight: 0 }]
    }
}

impl Default for BehaviorBundle {
    /// The idle-only repertoire: start idle, and idle is the one legal behavior.
    fn default() -> (r: BehaviorBundle)
        ensures
            r.current_behavior == BehaviorKind::Idle,
            r.supported_behaviors@ == BehaviorBundle::idle_only_entries(),
            repertoire_wf(r.current_behavior, r.supported_behaviors@),
    {
        let r = BehaviorBundle {
            current_behavior: BehaviorKind::Idle,
            supported_behaviors: vec![BehaviorEntry { kind: BehaviorKind::Idle, priority_weight: 0 }],
        };
        assert(r.supported_behaviors@[0].kind == BehaviorKind::Idle);
        r
    }
}

} // verus!
