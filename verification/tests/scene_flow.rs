use game_core::game::{draw, handle_input, setup, tick, update};
use game_core::state::{
    DrawCommand, GameState, InputEvents, Layer, Scene, SpawnAction, SpawnCounts, Tint,
    UpdateAction,
};

fn state_in(scene: Scene) -> GameState {
    let mut s = GameState::new();
    s.scene = scene;
    s
}

fn no_input() -> InputEvents {
    InputEvents { cancel: false, confirm: false }
}

fn cancel() -> InputEvents {
    InputEvents { cancel: true, confirm: false }
}

fn confirm() -> InputEvents {
    InputEvents { cancel: false, confirm: true }
}

#[test]
fn new_session_starts_in_load_menu() {
    let s = GameState::new();
    assert_eq!(s.scene, Scene::LoadMenu);
    assert_eq!(s.level_index, 0);
    assert_eq!(
        s.spawn_calls,
        SpawnCounts { ladders: 0, pulleys: 0, keys: 0, players: 0, doors: 0 }
    );
}

#[test]
fn unhandled_setup_is_noop() {
    for scene in [Scene::Menu, Scene::EnterLevel, Scene::Game, Scene::ExitLevel] {
        let mut s = state_in(scene);
        let before = s;
        let spawns = setup(&mut s);
        assert_eq!(s, before);
        assert!(spawns.is_empty());
    }
}

#[test]
fn unhandled_input_is_noop() {
    for scene in [Scene::LoadMenu, Scene::LoadLevel, Scene::EnterLevel, Scene::ExitLevel] {
        for events in [no_input(), cancel(), confirm()] {
            let mut s = state_in(scene);
            let before = s;
            let fx = handle_input(&mut s, events);
            assert_eq!(s, before);
            assert!(!fx.quit_requested);
            assert!(!fx.run_player_input);
        }
    }
}

#[test]
fn update_never_touches_the_record() {
    for scene in [
        Scene::LoadMenu,
        Scene::Menu,
        Scene::LoadLevel,
        Scene::EnterLevel,
        Scene::Game,
        Scene::ExitLevel,
    ] {
        let mut s = state_in(scene);
        let before = s;
        update(&mut s);
        assert_eq!(s, before);
    }
}

#[test]
fn unhandled_draw_is_noop() {
    for scene in [Scene::LoadMenu, Scene::LoadLevel] {
        let mut s = state_in(scene);
        let before = s;
        let cmds = draw(&mut s);
        assert_eq!(s, before);
        assert!(cmds.is_empty());
    }
}

#[test]
fn confirm_in_menu_loads_level_and_spawns_once() {
    let mut s = state_in(Scene::Menu);
    let fx = handle_input(&mut s, confirm());
    assert_eq!(s.scene, Scene::LoadLevel);
    assert!(!fx.quit_requested);

    let spawns = setup(&mut s);
    assert_eq!(s.scene, Scene::EnterLevel);
    assert_eq!(spawns.len(), 5);
    assert_eq!(
        s.spawn_calls,
        SpawnCounts { ladders: 1, pulleys: 1, keys: 1, players: 1, doors: 1 }
    );

    // A further setup phase in the transition scene must not spawn again.
    let more = setup(&mut s);
    assert!(more.is_empty());
    assert_eq!(
        s.spawn_calls,
        SpawnCounts { ladders: 1, pulleys: 1, keys: 1, players: 1, doors: 1 }
    );
}

#[test]
fn load_level_setup_runs_each_spawner_exactly_once() {
    let mut s = state_in(Scene::LoadLevel);
    let spawns = setup(&mut s);
    assert_eq!(
        spawns,
        vec![
            SpawnAction::Ladders,
            SpawnAction::Pulleys,
            SpawnAction::Keys,
            SpawnAction::Player,
            SpawnAction::Doors,
        ]
    );
    assert_eq!(s.scene, Scene::EnterLevel);
    assert_eq!(s.level_index, 0);
    assert_eq!(
        s.spawn_calls,
        SpawnCounts { ladders: 1, pulleys: 1, keys: 1, players: 1, doors: 1 }
    );
}

#[test]
fn enter_level_completes_in_one_draw() {
    let mut s = state_in(Scene::EnterLevel);
    s.level_index = 4;
    let cmds = draw(&mut s);
    assert_eq!(s.scene, Scene::Game);
    // Instantaneous: nothing besides the scene changes, no animation state.
    assert_eq!(s.level_index, 4);
    assert_eq!(
        s.spawn_calls,
        SpawnCounts { ladders: 0, pulleys: 0, keys: 0, players: 0, doors: 0 }
    );
    assert_eq!(cmds[0], DrawCommand::EnterTransition);
    assert_eq!(cmds.len(), 6);
}

#[test]
fn cancel_in_game_returns_to_menu() {
    let mut s = state_in(Scene::Game);
    s.level_index = 2;
    let fx = handle_input(&mut s, cancel());
    assert_eq!(s.scene, Scene::LoadMenu);
    assert_eq!(s.level_index, 2);
    assert!(!fx.quit_requested);
    assert!(!fx.run_player_input);
}

#[test]
fn cancel_in_game_returns_to_menu_within_one_tick() {
    let mut s = state_in(Scene::Game);
    let fx = tick(&mut s, cancel());
    assert_eq!(s.scene, Scene::LoadMenu);
    assert!(!fx.input.quit_requested);
    assert!(!fx.input.run_player_input);
    // LoadMenu has no update or draw handler, so the rest of the tick is
    // silent.
    assert!(fx.updates.is_empty());
    assert!(fx.draws.is_empty());
}

#[test]
fn player_input_delegated_only_while_play_goes_on() {
    let mut s = state_in(Scene::Game);
    let fx = handle_input(&mut s, no_input());
    assert_eq!(s.scene, Scene::Game);
    assert!(fx.run_player_input);

    let mut s2 = state_in(Scene::Game);
    let fx2 = handle_input(&mut s2, cancel());
    assert!(!fx2.run_player_input);
}

#[test]
fn game_draw_layer_order_depths_and_tints() {
    let mut s = state_in(Scene::Game);
    let cmds = draw(&mut s);
    assert_eq!(s, state_in(Scene::Game));
    assert_eq!(
        cmds,
        vec![
            DrawCommand::TilemapLayer { layer: Layer::Deco2, depth: 7, tint: Tint::White },
            DrawCommand::TilemapLayer { layer: Layer::Deco, depth: 6, tint: Tint::White },
            DrawCommand::TilemapLayer { layer: Layer::Level, depth: 3, tint: Tint::White },
            DrawCommand::TilemapLayer { layer: Layer::Background, depth: 2, tint: Tint::Gray },
            DrawCommand::TilemapLayer { layer: Layer::Background2, depth: 1, tint: Tint::Gray },
        ]
    );
}

#[test]
fn menu_draw_is_a_single_logo() {
    let mut s = state_in(Scene::Menu);
    let cmds = draw(&mut s);
    assert_eq!(s, state_in(Scene::Menu));
    assert_eq!(cmds, vec![DrawCommand::MenuLogo]);
}

#[test]
fn game_update_delegates_doors_then_items() {
    let mut s = state_in(Scene::Game);
    let actions = update(&mut s);
    assert_eq!(actions, vec![UpdateAction::Doors, UpdateAction::Items]);
}

#[test]
fn reentering_load_level_accumulates_spawns() {
    let mut s = state_in(Scene::LoadLevel);
    setup(&mut s);
    assert_eq!(s.scene, Scene::EnterLevel);
    // Re-enter level setup without any despawn step: the requests
    // accumulate instead of resetting — the pinned known gap.
    s.scene = Scene::LoadLevel;
    setup(&mut s);
    assert_eq!(
        s.spawn_calls,
        SpawnCounts { ladders: 2, pulleys: 2, keys: 2, players: 2, doors: 2 }
    );
}

#[test]
fn cancel_in_menu_requests_shutdown_and_stops_the_tick() {
    let mut s = state_in(Scene::Menu);
    let fx = tick(&mut s, cancel());
    assert!(fx.input.quit_requested);
    assert_eq!(s.scene, Scene::Menu);
    assert!(fx.spawns.is_empty());
    assert!(fx.updates.is_empty());
    assert!(fx.draws.is_empty());
}

#[test]
fn exit_level_draw_advances_to_next_level() {
    let mut s = state_in(Scene::ExitLevel);
    let cmds = draw(&mut s);
    assert_eq!(s.scene, Scene::LoadLevel);
    assert_eq!(s.level_index, 1);
    assert_eq!(cmds[0], DrawCommand::ExitTransition);
    assert_eq!(cmds.len(), 6);
    assert_eq!(
        cmds[1],
        DrawCommand::TilemapLayer { layer: Layer::Deco2, depth: 7, tint: Tint::White }
    );
}

#[test]
fn next_level_reloads_through_level_setup() {
    let mut s = state_in(Scene::ExitLevel);
    s.level_index = 6;
    s.next_level();
    assert_eq!(s.level_index, 7);
    assert_eq!(s.scene, Scene::LoadLevel);
}

#[test]
fn ticks_walk_from_boot_to_play() {
    let mut s = GameState::new();

    // Tick 1: menu setup completes, the menu draws its logo.
    let fx1 = tick(&mut s, no_input());
    assert_eq!(s.scene, Scene::Menu);
    assert!(fx1.spawns.is_empty());
    assert!(fx1.updates.is_empty());
    assert_eq!(fx1.draws, vec![DrawCommand::MenuLogo]);

    // Tick 2: confirm starts the level load; nothing draws yet.
    let fx2 = tick(&mut s, confirm());
    assert_eq!(s.scene, Scene::LoadLevel);
    assert!(fx2.spawns.is_empty());
    assert!(fx2.draws.is_empty());

    // Tick 3: level setup spawns, and the enter transition lands in play.
    let fx3 = tick(&mut s, no_input());
    assert_eq!(s.scene, Scene::Game);
    assert_eq!(fx3.spawns.len(), 5);
    assert_eq!(fx3.draws.len(), 6);
    assert_eq!(fx3.draws[0], DrawCommand::EnterTransition);

    // Tick 4: steady-state play delegates updates and draws the layers.
    let fx4 = tick(&mut s, no_input());
    assert_eq!(s.scene, Scene::Game);
    assert!(fx4.input.run_player_input);
    assert_eq!(fx4.updates, vec![UpdateAction::Doors, UpdateAction::Items]);
    assert_eq!(fx4.draws.len(), 5);
}
