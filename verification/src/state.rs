//! The session data model: scenes, the game state record, and the plain
//! action values that the phase functions hand to the host loop.

use vstd::prelude::*;

verus! {

/// A named mode of the game session. Exactly one scene is active at a time;
/// it selects which branch of each per-tick phase runs.
#[derive(Clone, Copy, PartialEq, Eq, Structural, Debug)]
pub enum Scene {
    /// One-shot menu setup; becomes `Menu` on its first setup phase.
    LoadMenu,
    /// Steady-state title menu.
    Menu,
    /// One-shot level setup; runs every spawner, then becomes `EnterLevel`.
    LoadLevel,
    /// Transition into active play; completes in a single draw phase.
    EnterLevel,
    /// Steady-state active play.
    Game,
    /// Transition out of a completed level; advances to the next level.
    ExitLevel,
}

/// The per-tick phases, in the order a tick runs them.
#[derive(Clone, Copy, PartialEq, Eq, Structural, Debug)]
pub enum Phase {
    Setup,
    Input,
    Update,
    Draw,
}

/// One entity spawner collaborator. Level setup asks the host to run each
/// of these against the freshly loaded level content.
#[derive(Clone, Copy, PartialEq, Eq, Structural, Debug)]
pub enum SpawnAction {
    Ladders,
    Pulleys,
    Keys,
    Player,
    Doors,
}

/// One per-entity update routine that the play scene delegates to.
#[derive(Clone, Copy, PartialEq, Eq, Structural, Debug)]
pub enum UpdateAction {
    Doors,
    Items,
}

/// A named drawable slice of the tilemap, rendered at a fixed depth and tint.
#[derive(Clone, Copy, PartialEq, Eq, Structural, Debug)]
pub enum Layer {
    Deco2,
    Deco,
    Level,
    Background,
    Background2,
}

/// Brightness applied to a drawn layer: full for foreground and level
/// layers, dimmed for the background layers.
#[derive(Clone, Copy, PartialEq, Eq, Structural, Debug)]
pub enum Tint {
    White,
    Gray,
}

/// One draw submission for the presentation collaborator. Occlusion is
/// decided by the `depth` value, not by submission order.
#[derive(Clone, Copy, PartialEq, Eq, Structural, Debug)]
pub enum DrawCommand {
    /// Draw one tilemap layer at the given depth with the given tint.
    TilemapLayer { layer: Layer, depth: u64, tint: Tint },
    /// Draw the centered title logo at its fixed scale.
    MenuLogo,
    /// Run the visual for entering a level; instantaneous in this design.
    EnterTransition,
    /// Run the visual for leaving a level; instantaneous in this design.
    ExitTransition,
}

/// How many times each spawner collaborator has been asked to run during
/// this session. The entities themselves live with the collaborators; the
/// core records only its requests, which is enough to see that level setup
/// runs each spawner exactly once per entry (and that re-entering level
/// setup accumulates rather than resets).
#[derive(Clone, Copy, PartialEq, Eq, Structural, Debug)]
pub struct SpawnCounts {
    pub ladders: u64,
    pub pulleys: u64,
    pub keys: u64,
    pub players: u64,
    pub doors: u64,
}

/// The mutable session record: current scene, current level index, and the
/// record of spawner requests. Created once at the first tick and mutated
/// only by the scene controller; the level content itself is owned by the
/// host, which also sets `scene` to `ExitLevel` when its door logic
/// completes a level.
#[derive(Clone, Copy, PartialEq, Eq, Structural, Debug)]
pub struct GameState {
    pub scene: Scene,
    pub level_index: u64,
    pub spawn_calls: SpawnCounts,
}

/// The input events a tick consumes, sampled by the host: `cancel` is the
/// escape key, `confirm` the enter key.
#[derive(Clone, Copy, PartialEq, Eq, Structural, Debug)]
pub struct InputEvents {
    pub cancel: bool,
    pub confirm: bool,
}

/// What the input phase asks of the host: a cooperative shutdown request,
/// and whether to delegate to the player input handler.
#[derive(Clone, Copy, PartialEq, Eq, Structural, Debug)]
pub struct InputEffects {
    pub quit_requested: bool,
    pub run_player_input: bool,
}

/// The spawn-request record of a fresh session: no spawner has run yet.
pub open spec fn initial_counts() -> SpawnCounts {
    SpawnCounts { ladders: 0, pulleys: 0, keys: 0, players: 0, doors: 0 }
}

/// The state a session starts in: the bootstrap scene is `LoadMenu`, the
/// first level is selected, and no spawner has run.
pub open spec fn initial_state() -> GameState {
    GameState { scene: Scene::LoadMenu, level_index: 0, spawn_calls: initial_counts() }
}

/// Every spawner count incremented by one, as level setup records it.
pub open spec fn bump_counts(c: SpawnCounts) -> SpawnCounts {
    SpawnCounts {
        ladders: (c.ladders + 1) as u64,
        pulleys: (c.pulleys + 1) as u64,
        keys: (c.keys + 1) as u64,
        players: (c.players + 1) as u64,
        doors: (c.doors + 1) as u64,
    }
}

impl GameState {
    /// The spawn-request counters have room for one more round of
    /// spawning; a machine limit, not a rule of the design.
    pub open spec fn can_record_spawns(self) -> bool {
        &&& self.spawn_calls.ladders < u64::MAX
        &&& self.spawn_calls.pulleys < u64::MAX
        &&& self.spawn_calls.keys < u64::MAX
        &&& self.spawn_calls.players < u64::MAX
        &&& self.spawn_calls.doors < u64::MAX
    }

    /// The state after advancing to the next level: the level index grows
    /// by one and the scene is set to `LoadLevel`, so that the next setup
    /// phase repopulates the new level. (Reloading, rather than resuming
    /// play directly, is the deliberate choice here: a fresh level needs
    /// its entities spawned.)
    pub open spec fn next_level_state(self) -> GameState {
        GameState {
            scene: Scene::LoadLevel,
            level_index: (self.level_index + 1) as u64,
            ..self
        }
    }

    /// Build the session record for a fresh session. The host calls this
    /// once, at the first tick, after the level content has loaded.
    pub fn new() -> (s: GameState)
        ensures
            s == initial_state(),
    {
        GameState {
            scene: Scene::LoadMenu,
            level_index: 0,
            spawn_calls: SpawnCounts { ladders: 0, pulleys: 0, keys: 0, players: 0, doors: 0 },
        }
    }

    /// Advance to the next level. The host reloads level content in
    /// response; the scene moves to `LoadLevel` so the setup phase spawns
    /// the new level's entities.
    pub fn next_level(&mut self)
        requires
            old(self).level_index < u64::MAX,
        ensures
            *final(self) == old(self).next_level_state(),
    {
        self.level_index = self.level_index + 1;
        self.scene = Scene::LoadLevel;
    }
}

} // verus!
