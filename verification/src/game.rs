//! The scene controller: one transition function per phase, each dispatching
//! on the current scene, and the tick driver that runs the four phases in
//! their fixed order.
//!
//! Every (scene, phase) pair is enumerated in the spec-level transition
//! table; pairs without a handler are deliberate no-ops, not omissions, so
//! that input is never handled twice during a transition scene.

use vstd::prelude::*;

use crate::state::{
    bump_counts, DrawCommand, GameState, InputEffects, InputEvents, Layer, Phase, Scene,
    SpawnAction, Tint, UpdateAction,
};

verus! {

// ---------------------------------------------------------------------------
// Setup phase
// ---------------------------------------------------------------------------

/// Menu setup finishes at once: the scene becomes the steady-state menu.
pub open spec fn menu_setup_state(s: GameState) -> GameState {
    GameState { scene: Scene::Menu, ..s }
}

/// Level setup records one request to every spawner and moves to the
/// enter-level transition.
pub open spec fn load_level_setup_state(s: GameState) -> GameState {
    GameState {
        scene: Scene::EnterLevel,
        spawn_calls: bump_counts(s.spawn_calls),
        ..s
    }
}

/// The setup-phase row of the transition table.
pub open spec fn setup_state_after(s: GameState) -> GameState {
    match s.scene {
        Scene::LoadMenu => menu_setup_state(s),
        Scene::LoadLevel => load_level_setup_state(s),
        _ => s,
    }
}

/// The five spawner collaborators, in the order level setup runs them.
pub open spec fn spawner_sequence() -> Seq<SpawnAction> {
    seq![
        SpawnAction::Ladders,
        SpawnAction::Pulleys,
        SpawnAction::Keys,
        SpawnAction::Player,
        SpawnAction::Doors,
    ]
}

/// The spawn requests the setup phase emits: all five spawners on entry to
/// `LoadLevel`, none otherwise.
pub open spec fn setup_spawns(s: GameState) -> Seq<SpawnAction> {
    if s.scene == Scene::LoadLevel {
        spawner_sequence()
    } else {
        Seq::<SpawnAction>::empty()
    }
}

/// One-shot menu setup: no resource work is needed, the scene simply
/// becomes `Menu`.
pub fn setup_load_menu(state: &mut GameState)
    ensures
        *final(state) == menu_setup_state(*old(state)),
{
    state.scene = Scene::Menu;
}

/// One-shot level setup: ask the host to run every spawner against the
/// loaded level content, record the requests, and move to the enter-level
/// transition. Nothing is despawned first; repeated entry accumulates.
pub fn setup_load_level(state: &mut GameState) -> (spawns: Vec<SpawnAction>)
    requires
        old(state).can_record_spawns(),
    ensures
        *final(state) == load_level_setup_state(*old(state)),
        spawns@ == spawner_sequence(),
{
    state.spawn_calls.ladders = state.spawn_calls.ladders + 1;
    state.spawn_calls.pulleys = state.spawn_calls.pulleys + 1;
    state.spawn_calls.keys = state.spawn_calls.keys + 1;
    state.spawn_calls.players = state.spawn_calls.players + 1;
    state.spawn_calls.doors = state.spawn_calls.doors + 1;
    state.scene = Scene::EnterLevel;
    let mut spawns: Vec<SpawnAction> = Vec::new();
    spawns.push(SpawnAction::Ladders);
    spawns.push(SpawnAction::Pulleys);
    spawns.push(SpawnAction::Keys);
    spawns.push(SpawnAction::Player);
    spawns.push(SpawnAction::Doors);
    proof {
        assert(spawns@ =~= spawner_sequence());
    }
    spawns
}

/// Setup phase: one-shot work on entry to a mode. Scenes without a setup
/// handler are left untouched.
pub fn setup(state: &mut GameState) -> (spawns: Vec<SpawnAction>)
    requires
        old(state).scene == Scene::LoadLevel ==> old(state).can_record_spawns(),
    ensures
        *final(state) == setup_state_after(*old(state)),
        spawns@ == setup_spawns(*old(state)),
{
    match state.scene {
        Scene::LoadMenu => {
            setup_load_menu(state);
            Vec::new()
        }
        Scene::LoadLevel => setup_load_level(state),
        _ => Vec::new(),
    }
}

// ---------------------------------------------------------------------------
// Input phase
// ---------------------------------------------------------------------------

/// The input-phase row of the transition table. In the menu, cancel asks
/// the host to shut down (taking precedence over confirm) and confirm
/// starts a level load; in play, cancel returns to the menu. Transition
/// scenes deliberately ignore input.
pub open spec fn input_state_after(s: GameState, events: InputEvents) -> GameState {
    match s.scene {
        Scene::Menu => {
            if !events.cancel && events.confirm {
                GameState { scene: Scene::LoadLevel, ..s }
            } else {
                s
            }
        }
        Scene::Game => {
            if events.cancel {
                GameState { scene: Scene::LoadMenu, ..s }
            } else {
                s
            }
        }
        _ => s,
    }
}

/// What the input phase asks of the host: shutdown only from the menu on
/// cancel; player input delegation only during uninterrupted play.
pub open spec fn input_effects_spec(s: GameState, events: InputEvents) -> InputEffects {
    match s.scene {
        Scene::Menu => InputEffects { quit_requested: events.cancel, run_player_input: false },
        Scene::Game => InputEffects {
            quit_requested: false,
            run_player_input: !events.cancel,
        },
        _ => InputEffects { quit_requested: false, run_player_input: false },
    }
}

/// Input phase: route the sampled events through the current scene.
pub fn handle_input(state: &mut GameState, events: InputEvents) -> (fx: InputEffects)
    ensures
        *final(state) == input_state_after(*old(state), events),
        fx == input_effects_spec(*old(state), events),
{
    match state.scene {
        Scene::Menu => {
            if events.cancel {
                InputEffects { quit_requested: true, run_player_input: false }
            } else {
                if events.confirm {
                    state.scene = Scene::LoadLevel;
                }
                InputEffects { quit_requested: false, run_player_input: false }
            }
        }
        Scene::Game => {
            if events.cancel {
                state.scene = Scene::LoadMenu;
                InputEffects { quit_requested: false, run_player_input: false }
            } else {
                InputEffects { quit_requested: false, run_player_input: true }
            }
        }
        _ => InputEffects { quit_requested: false, run_player_input: false },
    }
}

// ---------------------------------------------------------------------------
// Update phase
// ---------------------------------------------------------------------------

/// The per-entity update routines the update phase delegates, in order:
/// doors first, then items, and only during play. The menu's update
/// handler is an explicit no-op.
pub open spec fn update_actions_spec(s: GameState) -> Seq<UpdateAction> {
    if s.scene == Scene::Game {
        seq![UpdateAction::Doors, UpdateAction::Items]
    } else {
        Seq::<UpdateAction>::empty()
    }
}

/// The menu's steady-state update: deliberately nothing.
pub fn update_menu(state: &mut GameState)
    ensures
        *final(state) == *old(state),
{
}

/// The play scene's update: delegate to the door and item routines, in
/// that order. The core state itself is untouched; the routines work on
/// the host-owned entities.
pub fn update_play(state: &mut GameState) -> (actions: Vec<UpdateAction>)
    ensures
        *final(state) == *old(state),
        actions@ == seq![UpdateAction::Doors, UpdateAction::Items],
{
    let mut actions: Vec<UpdateAction> = Vec::new();
    actions.push(UpdateAction::Doors);
    actions.push(UpdateAction::Items);
    proof {
        assert(actions@ =~= seq![UpdateAction::Doors, UpdateAction::Items]);
    }
    actions
}

/// Update phase: simulation work for the current scene. The core record
/// is never mutated here; only delegation requests are emitted.
pub fn update(state: &mut GameState) -> (actions: Vec<UpdateAction>)
    ensures
        *final(state) == *old(state),
        actions@ == update_actions_spec(*old(state)),
{
    match state.scene {
        Scene::Menu => {
            update_menu(state);
            Vec::new()
        }
        Scene::Game => update_play(state),
        _ => Vec::new(),
    }
}

// ---------------------------------------------------------------------------
// Draw phase
// ---------------------------------------------------------------------------

/// The draw-phase row of the transition table: both transition scenes
/// complete within a single draw, entering play or advancing the level.
pub open spec fn draw_state_after(s: GameState) -> GameState {
    match s.scene {
        Scene::EnterLevel => GameState { scene: Scene::Game, ..s },
        Scene::ExitLevel => s.next_level_state(),
        _ => s,
    }
}

/// The layered draws of the play scene, foreground first. Depth, not
/// submission order, decides occlusion: the level and deco layers draw at
/// full brightness above the dimmed background layers.
pub open spec fn play_layer_commands() -> Seq<DrawCommand> {
    seq![
        DrawCommand::TilemapLayer { layer: Layer::Deco2, depth: 7, tint: Tint::White },
        DrawCommand::TilemapLayer { layer: Layer::Deco, depth: 6, tint: Tint::White },
        DrawCommand::TilemapLayer { layer: Layer::Level, depth: 3, tint: Tint::White },
        DrawCommand::TilemapLayer { layer: Layer::Background, depth: 2, tint: Tint::Gray },
        DrawCommand::TilemapLayer { layer: Layer::Background2, depth: 1, tint: Tint::Gray },
    ]
}

/// The draw submissions each scene emits. The load scenes draw nothing;
/// the transition scenes run their visual and then the play layers.
pub open spec fn draw_commands_spec(s: GameState) -> Seq<DrawCommand> {
    match s.scene {
        Scene::Menu => seq![DrawCommand::MenuLogo],
        Scene::Game => play_layer_commands(),
        Scene::EnterLevel => seq![DrawCommand::EnterTransition] + play_layer_commands(),
        Scene::ExitLevel => seq![DrawCommand::ExitTransition] + play_layer_commands(),
        _ => Seq::<DrawCommand>::empty(),
    }
}

/// The enter-level visual completes at once: the scene becomes `Game`.
pub fn draw_enter_transition(state: &mut GameState)
    ensures
        *final(state) == (GameState { scene: Scene::Game, ..*old(state) }),
{
    state.scene = Scene::Game;
}

/// The exit-level visual completes at once and advances to the next level.
pub fn draw_exit_transition(state: &mut GameState)
    requires
        old(state).level_index < u64::MAX,
    ensures
        *final(state) == old(state).next_level_state(),
{
    state.next_level();
}

/// The play scene's layered tilemap draws.
pub fn draw_play() -> (cmds: Vec<DrawCommand>)
    ensures
        cmds@ == play_layer_commands(),
{
    let mut cmds: Vec<DrawCommand> = Vec::new();
    cmds.push(DrawCommand::TilemapLayer { layer: Layer::Deco2, depth: 7, tint: Tint::White });
    cmds.push(DrawCommand::TilemapLayer { layer: Layer::Deco, depth: 6, tint: Tint::White });
    cmds.push(DrawCommand::TilemapLayer { layer: Layer::Level, depth: 3, tint: Tint::White });
    cmds.push(DrawCommand::TilemapLayer { layer: Layer::Background, depth: 2, tint: Tint::Gray });
    cmds.push(DrawCommand::TilemapLayer { layer: Layer::Background2, depth: 1, tint: Tint::Gray });
    proof {
        assert(cmds@ =~= play_layer_commands());
    }
    cmds
}

/// The menu's draw: exactly one centered logo sprite at a fixed scale.
pub fn draw_menu() -> (cmds: Vec<DrawCommand>)
    ensures
        cmds@ == seq![DrawCommand::MenuLogo],
{
    let mut cmds: Vec<DrawCommand> = Vec::new();
    cmds.push(DrawCommand::MenuLogo);
    proof {
        assert(cmds@ =~= seq![DrawCommand::MenuLogo]);
    }
    cmds
}

/// Draw phase: emit this scene's draw submissions and complete any pending
/// transition. Scenes without a draw handler emit nothing.
pub fn draw(state: &mut GameState) -> (cmds: Vec<DrawCommand>)
    requires
        old(state).scene == Scene::ExitLevel ==> old(state).level_index < u64::MAX,
    ensures
        *final(state) == draw_state_after(*old(state)),
        cmds@ == draw_commands_spec(*old(state)),
{
    match state.scene {
        Scene::Menu => draw_menu(),
        Scene::Game => draw_play(),
        Scene::EnterLevel => {
            draw_enter_transition(state);
            let mut cmds: Vec<DrawCommand> = Vec::new();
            cmds.push(DrawCommand::EnterTransition);
            let mut play: Vec<DrawCommand> = draw_play();
            cmds.append(&mut play);
            proof {
                assert(cmds@ =~= draw_commands_spec(*old(state)));
            }
            cmds
        }
        Scene::ExitLevel => {
            draw_exit_transition(state);
            let mut cmds: Vec<DrawCommand> = Vec::new();
            cmds.push(DrawCommand::ExitTransition);
            let mut play: Vec<DrawCommand> = draw_play();
            cmds.append(&mut play);
            proof {
                assert(cmds@ =~= draw_commands_spec(*old(state)));
            }
            cmds
        }
        _ => Vec::new(),
    }
}

// ---------------------------------------------------------------------------
// The tick
// ---------------------------------------------------------------------------

/// Everything one tick asks of the host, in the order it must be carried
/// out: spawn requests from setup, the input phase's requests, the update
/// delegations, and the draw submissions.
#[derive(Debug)]
pub struct TickEffects {
    pub spawns: Vec<SpawnAction>,
    pub input: InputEffects,
    pub updates: Vec<UpdateAction>,
    pub draws: Vec<DrawCommand>,
}

/// The state a tick has reached by the end of its input phase.
pub open spec fn after_input_phase(s: GameState, events: InputEvents) -> GameState {
    input_state_after(setup_state_after(s), events)
}

/// Whether this tick requests shutdown: cancel pressed while the menu is
/// (or has just become) the active scene.
pub open spec fn tick_quit(s: GameState, events: InputEvents) -> bool {
    input_effects_spec(setup_state_after(s), events).quit_requested
}

/// The state a full tick leaves behind. A shutdown request ends the tick
/// after the input phase, as the original synchronous quit did; otherwise
/// the update phase leaves the record unchanged and the draw phase
/// completes any pending transition.
pub open spec fn tick_state_after(s: GameState, events: InputEvents) -> GameState {
    if tick_quit(s, events) {
        after_input_phase(s, events)
    } else {
        draw_state_after(after_input_phase(s, events))
    }
}

/// The update delegations a full tick emits: none once shutdown is
/// requested.
pub open spec fn tick_updates(s: GameState, events: InputEvents) -> Seq<UpdateAction> {
    if tick_quit(s, events) {
        Seq::<UpdateAction>::empty()
    } else {
        update_actions_spec(after_input_phase(s, events))
    }
}

/// The draw submissions a full tick emits: none once shutdown is
/// requested.
pub open spec fn tick_draws(s: GameState, events: InputEvents) -> Seq<DrawCommand> {
    if tick_quit(s, events) {
        Seq::<DrawCommand>::empty()
    } else {
        draw_commands_spec(after_input_phase(s, events))
    }
}

/// One full tick: setup, input, update, draw, in that fixed order, each
/// phase dispatching on the scene the previous phase left behind. On a
/// shutdown request the tick stops after the input phase and the host
/// performs an orderly teardown.
pub fn tick(state: &mut GameState, events: InputEvents) -> (fx: TickEffects)
    requires
        old(state).scene == Scene::LoadLevel ==> old(state).can_record_spawns(),
        old(state).scene == Scene::ExitLevel ==> old(state).level_index < u64::MAX,
    ensures
        *final(state) == tick_state_after(*old(state), events),
        fx.spawns@ == setup_spawns(*old(state)),
        fx.input == input_effects_spec(setup_state_after(*old(state)), events),
        fx.updates@ == tick_updates(*old(state), events),
        fx.draws@ == tick_draws(*old(state), events),
{
    let spawns: Vec<SpawnAction> = setup(state);
    let input_fx: InputEffects = handle_input(state, events);
    if input_fx.quit_requested {
        TickEffects { spawns, input: input_fx, updates: Vec::new(), draws: Vec::new() }
    } else {
        let updates: Vec<UpdateAction> = update(state);
        let draws: Vec<DrawCommand> = draw(state);
        TickEffects { spawns, input: input_fx, updates, draws }
    }
}

// ---------------------------------------------------------------------------
// The transition table, phase by phase
// ---------------------------------------------------------------------------

/// The handler table: which scenes have a handler in which phase. Every
/// pair missing here is a deliberate no-op (the load scenes draw nothing,
/// the transition scenes ignore input), so that no work is duplicated
/// while a transition is pending.
pub open spec fn phase_handled(p: Phase, sc: Scene) -> bool {
    match p {
        Phase::Setup => sc == Scene::LoadMenu || sc == Scene::LoadLevel,
        Phase::Input => sc == Scene::Menu || sc == Scene::Game,
        Phase::Update => sc == Scene::Menu || sc == Scene::Game,
        Phase::Draw => sc == Scene::Menu || sc == Scene::Game || sc == Scene::EnterLevel
            || sc == Scene::ExitLevel,
    }
}

/// The whole transition table as one function: the state each single
/// phase leaves behind. The update phase never touches the core record;
/// its work lives in the delegated routines.
pub open spec fn phase_state_after(p: Phase, s: GameState, events: InputEvents) -> GameState {
    match p {
        Phase::Setup => setup_state_after(s),
        Phase::Input => input_state_after(s, events),
        Phase::Update => s,
        Phase::Draw => draw_state_after(s),
    }
}

} // verus!
