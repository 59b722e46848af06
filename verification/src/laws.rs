//! The guarantees the scene controller gives, stated and proved over the
//! spec-level transition table.

use vstd::prelude::*;

use crate::game::{
    draw_commands_spec, draw_state_after, input_effects_spec, input_state_after, phase_handled,
    phase_state_after, play_layer_commands, setup_spawns, setup_state_after, spawner_sequence,
    tick_state_after,
};
use crate::state::{DrawCommand, GameState, InputEvents, Layer, Phase, Scene, SpawnAction, Tint};

verus! {

/// No-op invariant: a scene without a handler in a phase passes through
/// that phase with the game state left exactly as it was.
pub proof fn lemma_unhandled_phase_is_noop(p: Phase, s: GameState, events: InputEvents)
    requires
        !phase_handled(p, s.scene),
    ensures
        phase_state_after(p, s, events) == s,
{
}

/// From the menu, a confirm press moves to `LoadLevel`; the next setup
/// phase then moves to `EnterLevel` and records exactly one request to
/// each spawner — never two.
pub proof fn lemma_confirm_starts_level_load(s: GameState, events: InputEvents)
    requires
        s.scene == Scene::Menu,
        events.confirm,
        !events.cancel,
        s.can_record_spawns(),
    ensures
        input_state_after(s, events).scene == Scene::LoadLevel,
        setup_state_after(input_state_after(s, events)).scene == Scene::EnterLevel,
        setup_state_after(input_state_after(s, events)).spawn_calls.ladders == s.spawn_calls.ladders
            + 1,
        setup_state_after(input_state_after(s, events)).spawn_calls.pulleys == s.spawn_calls.pulleys
            + 1,
        setup_state_after(input_state_after(s, events)).spawn_calls.keys == s.spawn_calls.keys + 1,
        setup_state_after(input_state_after(s, events)).spawn_calls.players == s.spawn_calls.players
            + 1,
        setup_state_after(input_state_after(s, events)).spawn_calls.doors == s.spawn_calls.doors
            + 1,
{
}

/// One setup call in `LoadLevel` asks for each of the five spawner
/// collaborators exactly once, in their fixed order, and leaves the scene
/// at `EnterLevel` with the level index untouched.
pub proof fn lemma_load_level_setup_runs_each_spawner_once(s: GameState)
    requires
        s.scene == Scene::LoadLevel,
        s.can_record_spawns(),
    ensures
        setup_state_after(s).scene == Scene::EnterLevel,
        setup_state_after(s).level_index == s.level_index,
        setup_state_after(s).spawn_calls.ladders == s.spawn_calls.ladders + 1,
        setup_state_after(s).spawn_calls.pulleys == s.spawn_calls.pulleys + 1,
        setup_state_after(s).spawn_calls.keys == s.spawn_calls.keys + 1,
        setup_state_after(s).spawn_calls.players == s.spawn_calls.players + 1,
        setup_state_after(s).spawn_calls.doors == s.spawn_calls.doors + 1,
        setup_spawns(s) == spawner_sequence(),
        spawner_sequence().len() == 5,
        spawner_sequence()[0] == SpawnAction::Ladders,
        spawner_sequence()[1] == SpawnAction::Pulleys,
        spawner_sequence()[2] == SpawnAction::Keys,
        spawner_sequence()[3] == SpawnAction::Player,
        spawner_sequence()[4] == SpawnAction::Doors,
{
}

/// A single draw phase completes the enter-level transition: the scene
/// becomes `Game` and nothing else in the record changes — there is no
/// multi-tick animation state to carry.
pub proof fn lemma_enter_level_completes_in_one_draw(s: GameState)
    requires
        s.scene == Scene::EnterLevel,
    ensures
        draw_state_after(s).scene == Scene::Game,
        draw_state_after(s) == (GameState { scene: Scene::Game, ..s }),
{
}

/// During play, a cancel press returns to `LoadMenu` in the very next
/// input phase — whatever the rest of the record holds — without asking
/// for shutdown and without delegating to the player input handler. The
/// same holds across a whole tick starting from play.
pub proof fn lemma_cancel_returns_to_menu(s: GameState, events: InputEvents)
    requires
        s.scene == Scene::Game,
        events.cancel,
    ensures
        input_state_after(s, events) == (GameState { scene: Scene::LoadMenu, ..s }),
        !input_effects_spec(s, events).quit_requested,
        !input_effects_spec(s, events).run_player_input,
        tick_state_after(s, events) == (GameState { scene: Scene::LoadMenu, ..s }),
{
}

/// Layer ordering of the play scene's draw: exactly the five tilemap
/// layers, foreground deco first, at depths 7, 6, 3, 2, 1, the first
/// three at full brightness and the two background layers dimmed.
pub proof fn lemma_play_draw_order(s: GameState)
    requires
        s.scene == Scene::Game,
    ensures
        draw_commands_spec(s) == play_layer_commands(),
        play_layer_commands().len() == 5,
        play_layer_commands()[0] == (DrawCommand::TilemapLayer {
            layer: Layer::Deco2,
            depth: 7,
            tint: Tint::White,
        }),
        play_layer_commands()[1] == (DrawCommand::TilemapLayer {
            layer: Layer::Deco,
            depth: 6,
            tint: Tint::White,
        }),
        play_layer_commands()[2] == (DrawCommand::TilemapLayer {
            layer: Layer::Level,
            depth: 3,
            tint: Tint::White,
        }),
        play_layer_commands()[3] == (DrawCommand::TilemapLayer {
            layer: Layer::Background,
            depth: 2,
            tint: Tint::Gray,
        }),
        play_layer_commands()[4] == (DrawCommand::TilemapLayer {
            layer: Layer::Background2,
            depth: 1,
            tint: Tint::Gray,
        }),
{
}

/// Pinned behavior, deliberately not "fixed": entering level setup twice
/// without an intervening despawn accumulates spawner requests — after a
/// second entry every spawner has been asked twice, not reset to once.
pub proof fn lemma_reentering_load_level_accumulates(s: GameState)
    requires
        s.scene == Scene::LoadLevel,
        s.can_record_spawns(),
        setup_state_after(s).can_record_spawns(),
    ensures
        ({
            let once = setup_state_after(s);
            let again = setup_state_after(GameState { scene: Scene::LoadLevel, ..once });
            &&& again.spawn_calls.ladders == s.spawn_calls.ladders + 2
            &&& again.spawn_calls.pulleys == s.spawn_calls.pulleys + 2
            &&& again.spawn_calls.keys == s.spawn_calls.keys + 2
            &&& again.spawn_calls.players == s.spawn_calls.players + 2
            &&& again.spawn_calls.doors == s.spawn_calls.doors + 2
        }),
{
}

} // verus!
