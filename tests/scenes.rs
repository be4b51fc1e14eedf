use scene_flow::ecs::{AssetHandle, Component, CurrentState, Entity, EntityLedger, EntityNotFound, EntityStore, Resources, World};
use scene_flow::game::Game;
use scene_flow::progress::{Completion, Ratio};
use scene_flow::states::{InputAction, SceneState, StateEvent, UiLookup};
use scene_flow::ui::{LoadingBarWidget, UiLoadingBar, UiTransform};

const PLAY: Entity = Entity { id: 1000 };
const SETTINGS: Entity = Entity { id: 1001 };
const QUIT: Entity = Entity { id: 1002 };

fn nothing_found() -> UiLookup {
    UiLookup { progress_bar: None, play: None, settings: None, quit: None }
}

fn buttons() -> UiLookup {
    UiLookup { progress_bar: None, play: Some(PLAY), settings: Some(SETTINGS), quit: Some(QUIT) }
}

fn alive(game: &Game) -> u64 {
    game.world.entities.num_alive()
}

fn finish_loading(game: &mut Game) {
    for _ in 0..6 {
        assert!(game.signal_load(true));
    }
    assert!(!game.signal_load(true));
    game.update(nothing_found());
}

fn top_owned(game: &Game) -> Vec<Entity> {
    match game.stack.last().unwrap() {
        SceneState::Loading(s) => s.ledger.entities(),
        SceneState::MainMenu(s) => s.ledger.entities(),
        SceneState::Gameplay(s) => s.ledger.entities(),
    }
}

#[test]
fn store_refuses_double_delete() {
    let mut store = EntityStore::new();
    let a = store.create_entity(Component::Light);
    let b = store.create_entity(Component::Camera);
    assert_ne!(a, b);
    assert_eq!(store.num_alive(), 2);
    assert_eq!(store.delete_entity(a), Ok(()));
    assert!(!store.is_alive(a));
    assert!(store.is_alive(b));
    assert_eq!(store.delete_entity(a), Err(EntityNotFound { entity: a }));
    assert_eq!(store.delete_entity(Entity { id: 77 }), Err(EntityNotFound { entity: Entity { id: 77 } }));
    assert_eq!(store.num_alive(), 1);
    let c = store.create_entity(Component::Light);
    assert_ne!(c, a);
    assert_eq!(store.component_of(b), Some(Component::Camera));
    assert_eq!(store.component_of(a), None);
}

#[test]
fn ledger_releases_exactly_its_own() {
    let mut store = EntityStore::new();
    let other = store.create_entity(Component::Camera);
    let mut ledger = EntityLedger::new();
    let a = ledger.create(&mut store, Component::Light);
    let b = ledger.create(&mut store, Component::Ui(AssetHandle { id: 3 }));
    assert_eq!(ledger.entities(), vec![a, b]);
    assert_eq!(store.num_alive(), 3);
    ledger.release_all(&mut store);
    assert_eq!(store.num_alive(), 1);
    assert!(store.is_alive(other));
    assert!(ledger.entities().is_empty());
    assert_eq!(store.component_of(other), Some(Component::Camera));
}

#[test]
fn scenes_are_built_from_their_handles() {
    let mut game = Game::new();
    let screen = top_owned(&game)[0];
    assert_eq!(game.world.entities.component_of(screen), Some(Component::Ui(AssetHandle { id: 1 })));
    finish_loading(&mut game);
    let (gui, suzanne, light, camera) = match game.stack.last().unwrap() {
        SceneState::MainMenu(m) => {
            assert_eq!(m.mainmenu_gui, AssetHandle { id: 0 });
            assert_eq!(m.data.mtl, AssetHandle { id: 4 });
            assert_eq!(m.data.mesh, AssetHandle { id: 5 });
            (m.mainmenu_gui_entity.unwrap(), m.suzanne.unwrap(), m.light.unwrap(), m.camera.unwrap())
        }
        _ => panic!("menu expected on top"),
    };
    let store = &game.world.entities;
    assert_eq!(store.component_of(gui), Some(Component::Ui(AssetHandle { id: 0 })));
    assert_eq!(
        store.component_of(suzanne),
        Some(Component::Model { mtl: AssetHandle { id: 4 }, mesh: AssetHandle { id: 5 }, rotates: true })
    );
    assert_eq!(store.component_of(light), Some(Component::Light));
    assert_eq!(store.component_of(camera), Some(Component::Camera));
    game.update(buttons());
    game.handle_event(StateEvent::UiClick(PLAY));
    let model = match game.stack.last().unwrap() {
        SceneState::Gameplay(g) => g.suzanne.unwrap(),
        _ => panic!("gameplay expected on top"),
    };
    assert_eq!(
        game.world.entities.component_of(model),
        Some(Component::Model { mtl: AssetHandle { id: 2 }, mesh: AssetHandle { id: 3 }, rotates: false })
    );
    assert_eq!(game.world.entities.component_of(suzanne), None);
    game.handle_event(StateEvent::ActionPressed(InputAction::Pause));
    game.update(nothing_found());
    match game.stack.last().unwrap() {
        SceneState::MainMenu(m) => {
            assert_eq!(
                game.world.entities.component_of(m.suzanne.unwrap()),
                Some(Component::Model { mtl: AssetHandle { id: 4 }, mesh: AssetHandle { id: 5 }, rotates: true })
            );
            assert_eq!(
                game.world.entities.component_of(m.mainmenu_gui_entity.unwrap()),
                Some(Component::Ui(AssetHandle { id: 0 }))
            );
        }
        _ => panic!("menu expected on top"),
    }
}

#[test]
fn loading_requests_six_assets() {
    let mut game = Game::new();
    assert_eq!(game.current(), Some(CurrentState::Loading));
    assert_eq!(alive(&game), 1);
    let requests = game.take_load_requests();
    let paths: Vec<&str> = requests.iter().map(|r| r.path.as_str()).collect();
    assert_eq!(
        paths,
        vec![
            "ui/mainmenu.ron",
            "ui/loading.ron",
            "texture/blue",
            "mesh/suzanne.obj",
            "texture/red",
            "mesh/suzanne.obj"
        ]
    );
    for (k, r) in requests.iter().enumerate() {
        assert_eq!(r.handle.id, k as u64);
    }
    assert!(game.take_load_requests().is_empty());
    assert_eq!(game.loading_progress(), Some((Completion::Loading, Ratio { num: 0, den: 6 })));
}

#[test]
fn loading_updates_the_progress_bar() {
    let mut game = Game::new();
    let widget = UiLoadingBar { progress: Ratio { num: 0, den: 1 } }
        .native_widget(UiTransform { local_x: 0, width: 110, height: 20 });
    game.update(UiLookup { progress_bar: Some(widget), play: None, settings: None, quit: None });
    for _ in 0..3 {
        game.signal_load(true);
    }
    game.update(nothing_found());
    let bar: &LoadingBarWidget = match game.stack.last().unwrap() {
        SceneState::Loading(s) => s.progress_bar.as_ref().unwrap(),
        _ => panic!("still loading"),
    };
    assert_eq!(bar.bar.width, 50);
    assert_eq!(bar.label.text, "50%");
}

#[test]
fn full_cycle_leaves_no_entities() {
    let mut game = Game::new();
    assert_eq!(alive(&game), 1);
    finish_loading(&mut game);
    assert_eq!(game.current(), Some(CurrentState::MainMenu));
    assert_eq!(game.stack.len(), 2);
    assert_eq!(alive(&game), 4);
    game.update(buttons());
    game.handle_event(StateEvent::UiClick(SETTINGS));
    assert_eq!(game.current(), Some(CurrentState::MainMenu));
    game.handle_event(StateEvent::UiClick(PLAY));
    assert_eq!(game.current(), Some(CurrentState::Gameplay));
    assert_eq!(game.stack.len(), 3);
    assert_eq!(alive(&game), 3);
    game.handle_event(StateEvent::ActionPressed(InputAction::Pause));
    game.update(nothing_found());
    assert_eq!(game.current(), Some(CurrentState::MainMenu));
    assert_eq!(alive(&game), 4);
    game.update(buttons());
    game.handle_event(StateEvent::UiClick(QUIT));
    assert!(!game.is_running());
    assert_eq!(alive(&game), 0);
}

#[test]
fn pause_pops_back_to_menu() {
    let mut game = Game::new();
    finish_loading(&mut game);
    game.update(buttons());
    game.handle_event(StateEvent::UiClick(PLAY));
    assert!(game.world.resources.hide_cursor);
    assert!(game.world.resources.gameplay_active);
    assert_eq!(game.world.resources.current_state, CurrentState::Gameplay);
    assert!(game.world.resources.gameplay_input_active());
    let gameplay_entities = top_owned(&game);
    assert_eq!(gameplay_entities.len(), 3);
    assert_eq!(game.gameplay_paused(), Some(false));
    game.handle_event(StateEvent::ActionPressed(InputAction::Pause));
    assert_eq!(game.gameplay_paused(), Some(true));
    game.update(nothing_found());
    assert_eq!(game.current(), Some(CurrentState::MainMenu));
    assert_eq!(game.stack.len(), 2);
    for e in gameplay_entities {
        assert!(!game.world.entities.is_alive(e));
    }
    assert_eq!(alive(&game), 4);
    assert!(!game.world.resources.gameplay_active);
    assert!(!game.world.resources.hide_cursor);
    assert_eq!(game.world.resources.current_state, CurrentState::MainMenu);
    assert!(!game.world.resources.gameplay_input_active());
}

#[test]
fn loading_stays_below_the_menu_without_its_screen() {
    let mut game = Game::new();
    let loading_screen = top_owned(&game);
    assert_eq!(loading_screen.len(), 1);
    finish_loading(&mut game);
    assert!(!game.world.entities.is_alive(loading_screen[0]));
    match &game.stack[0] {
        SceneState::Loading(s) => {
            assert!(s.loading_gui.is_none());
            assert!(s.ledger.entities().is_empty());
        }
        _ => panic!("loading state expected at the bottom"),
    }
    let menu_before = match &game.stack[1] {
        SceneState::MainMenu(m) => (m.data, m.mainmenu_gui, m.gameplay_data),
        _ => panic!("menu expected on top"),
    };
    game.update(buttons());
    game.handle_event(StateEvent::UiClick(PLAY));
    game.handle_event(StateEvent::ActionPressed(InputAction::Pause));
    game.update(nothing_found());
    match &game.stack[1] {
        SceneState::MainMenu(m) => {
            assert_eq!((m.data, m.mainmenu_gui, m.gameplay_data), menu_before);
            assert!(m.mainmenu_gui_entity.is_some());
            assert_eq!(m.ledger.entities().len(), 4);
            assert!(m.play.is_none());
        }
        _ => panic!("menu expected on top"),
    }
}

#[test]
fn pause_ignored_without_focus() {
    let mut game = Game::new();
    finish_loading(&mut game);
    game.update(buttons());
    game.handle_event(StateEvent::UiClick(PLAY));
    game.set_window_focused(false);
    game.handle_event(StateEvent::ActionPressed(InputAction::Pause));
    assert_eq!(game.gameplay_paused(), Some(false));
    game.handle_event(StateEvent::ActionPressed(InputAction::Other));
    game.update(nothing_found());
    assert_eq!(game.current(), Some(CurrentState::Gameplay));
    game.set_window_focused(true);
    game.handle_event(StateEvent::ActionPressed(InputAction::Pause));
    game.handle_event(StateEvent::ActionPressed(InputAction::Pause));
    assert_eq!(game.gameplay_paused(), Some(false));
}

#[test]
fn failed_load_quits_without_leaks() {
    let mut game = Game::new();
    for _ in 0..5 {
        game.signal_load(true);
    }
    game.update(nothing_found());
    assert_eq!(game.current(), Some(CurrentState::Loading));
    game.signal_load(false);
    assert_eq!(game.loading_progress().unwrap().0, Completion::Failed);
    game.update(nothing_found());
    assert!(!game.is_running());
    assert_eq!(alive(&game), 0);
    assert_eq!(game.current(), None);
    assert!(!game.signal_load(true));
}

#[test]
fn early_failure_also_quits() {
    let mut game = Game::new();
    game.signal_load(false);
    game.signal_load(true);
    game.update(nothing_found());
    assert!(!game.is_running());
    assert_eq!(alive(&game), 0);
}

#[test]
fn menu_ignores_clicks_before_buttons_are_found() {
    let mut game = Game::new();
    finish_loading(&mut game);
    game.handle_event(StateEvent::UiClick(PLAY));
    assert_eq!(game.current(), Some(CurrentState::MainMenu));
    game.update(buttons());
    game.handle_event(StateEvent::UiClick(Entity { id: 5 }));
    assert_eq!(game.current(), Some(CurrentState::MainMenu));
}

#[test]
fn matches_only_recorded_target() {
    assert!(scene_flow::states::matches(PLAY, Some(PLAY)));
    assert!(!scene_flow::states::matches(PLAY, Some(QUIT)));
    assert!(!scene_flow::states::matches(PLAY, None));
}

#[test]
fn resource_gates() {
    let world = World::new();
    assert_eq!(
        world.resources,
        Resources {
            current_state: CurrentState::Loading,
            gameplay_active: false,
            hide_cursor: false,
            window_focused: true
        }
    );
    let menu = Resources { current_state: CurrentState::MainMenu, ..world.resources };
    assert!(menu.menu_rotation_active());
    assert!(!menu.gameplay_input_active());
    let playing = Resources {
        current_state: CurrentState::Gameplay,
        gameplay_active: true,
        hide_cursor: true,
        window_focused: true,
    };
    assert!(playing.gameplay_input_active());
    assert!(!Resources { window_focused: false, ..playing }.gameplay_input_active());
    assert!(!Resources { gameplay_active: false, ..playing }.gameplay_input_active());
}
