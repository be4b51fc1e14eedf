//! The Loading, MainMenu and Gameplay scene states: what each creates on
//! entry, destroys on exit or pause, and which transition it asks for.

use crate::ecs::{
    AssetHandle, Component, CurrentState, Entity, EntityLedger, EntityStore, Resources, World,
};
use crate::progress::{Completion, CounterModel, CounterOp, ProgressCounter};
use crate::ui::{bar_width, bar_x, percent_label, placeable, update_loading_bar, LoadingBarWidget};
use vstd::prelude::*;

verus! {

/// `after` is `before` with the fresh entities `owned` added.
pub open spec fn adds_entities(before: Set<u64>, after: Set<u64>, owned: Set<u64>) -> bool {
    before.disjoint(owned) && after == before.union(owned)
}

/// `after` is `before` with the entities `owned` removed.
pub open spec fn removes_entities(before: Set<u64>, after: Set<u64>, owned: Set<u64>) -> bool {
    after == before.difference(owned)
}

/// How many entities a state creates on entry.
pub open spec fn spawn_count(kind: CurrentState) -> nat {
    match kind {
        CurrentState::Loading => 1,
        CurrentState::MainMenu => 4,
        CurrentState::Gameplay => 3,
    }
}

/// The shared resources once a state of kind `kind` has entered: it
/// becomes current; the menu clears the gameplay flag, gameplay sets it and
/// captures the cursor.
pub open spec fn entered(kind: CurrentState, r: Resources) -> Resources {
    match kind {
        CurrentState::Loading => Resources { current_state: CurrentState::Loading, ..r },
        CurrentState::MainMenu => Resources {
            current_state: CurrentState::MainMenu,
            gameplay_active: false,
            ..r
        },
        CurrentState::Gameplay => Resources {
            current_state: CurrentState::Gameplay,
            gameplay_active: true,
            hide_cursor: true,
            ..r
        },
    }
}

/// The shared resources once a state of kind `kind` has exited: gameplay
/// clears the gameplay flag and releases the cursor; the others leave them.
pub open spec fn exited(kind: CurrentState, r: Resources) -> Resources {
    match kind {
        CurrentState::Gameplay => Resources { gameplay_active: false, hide_cursor: false, ..r },
        _ => r,
    }
}

/// Two menus with the same data and handles.
pub open spec fn same_menu_data(a: MainMenuState, b: MainMenuState) -> bool {
    &&& a.data == b.data
    &&& a.mainmenu_gui == b.mainmenu_gui
    &&& a.gameplay_data == b.gameplay_data
}

/// Enough identifiers are left for one state entry.
pub open spec fn world_has_room(world: &World) -> bool {
    world.wf() && world.entities.has_room(4) && world.assets.has_room(6)
}

/// Data the main menu scene instantiates its entities from.
#[derive(Clone, Copy, Debug, PartialEq, Eq, Structural)]
pub struct MainMenuData {
    pub mtl: AssetHandle,
    pub mesh: AssetHandle,
}

/// Data the gameplay scene instantiates its entities from.
#[derive(Clone, Copy, Debug, PartialEq, Eq, Structural)]
pub struct GameplayData {
    pub mtl: AssetHandle,
    pub mesh: AssetHandle,
}

/// Requests a material texture and a mesh, registering both with
/// `progress_counter`.
fn load_model(world: &mut World, progress_counter: &mut ProgressCounter, texture: &str) -> (r: (
    AssetHandle,
    AssetHandle,
))
    requires
        old(world).wf(),
        old(world).assets.has_room(2),
        old(progress_counter).wf(),
        old(progress_counter)@.total + 2 <= u64::MAX,
    ensures
        final(world).wf(),
        final(world).entities == old(world).entities,
        final(world).resources == old(world).resources,
        final(world).assets.requested() == old(world).assets.requested().push(texture@).push(
            "mesh/suzanne.obj"@,
        ),
        final(world).assets.handed_out() == old(world).assets.handed_out(),
        r.0.id == old(world).assets.requested().len(),
        r.1.id == old(world).assets.requested().len() + 1,
        final(progress_counter).wf(),
        final(progress_counter)@ == (CounterModel {
            total: old(progress_counter)@.total + 2,
            ..old(progress_counter)@
        }),
{
    let mtl = world.assets.load(texture, progress_counter);
    let mesh = world.assets.load("mesh/suzanne.obj", progress_counter);
    (mtl, mesh)
}

impl MainMenuData {
    /// Requests the menu's model: a red material and a mesh.
    pub fn load(world: &mut World, progress_counter: &mut ProgressCounter) -> (r: MainMenuData)
        requires
            old(world).wf(),
            old(world).assets.has_room(2),
            old(progress_counter).wf(),
            old(progress_counter)@.total + 2 <= u64::MAX,
        ensures
            final(world).wf(),
            final(world).entities == old(world).entities,
            final(world).resources == old(world).resources,
            final(world).assets.requested() == old(world).assets.requested().push(
                "texture/red"@,
            ).push("mesh/suzanne.obj"@),
            final(world).assets.handed_out() == old(world).assets.handed_out(),
            r.mtl.id == old(world).assets.requested().len(),
            r.mesh.id == old(world).assets.requested().len() + 1,
            final(progress_counter).wf(),
            final(progress_counter)@ == (CounterModel {
                total: old(progress_counter)@.total + 2,
                ..old(progress_counter)@
            }),
    {
        let (mtl, mesh) = load_model(world, progress_counter, "texture/red");
        MainMenuData { mtl, mesh }
    }
}

impl GameplayData {
    /// Requests the gameplay model: a blue material and a mesh.
    pub fn load(world: &mut World, progress_counter: &mut ProgressCounter) -> (r: GameplayData)
        requires
            old(world).wf(),
            old(world).assets.has_room(2),
            old(progress_counter).wf(),
            old(progress_counter)@.total + 2 <= u64::MAX,
        ensures
            final(world).wf(),
            final(world).entities == old(world).entities,
            final(world).resources == old(world).resources,
            final(world).assets.requested() == old(world).assets.requested().push(
                "texture/blue"@,
            ).push("mesh/suzanne.obj"@),
            final(world).assets.handed_out() == old(world).assets.handed_out(),
            r.mtl.id == old(world).assets.requested().len(),
            r.mesh.id == old(world).assets.requested().len() + 1,
            final(progress_counter).wf(),
            final(progress_counter)@ == (CounterModel {
                total: old(progress_counter)@.total + 2,
                ..old(progress_counter)@
            }),
    {
        let (mtl, mesh) = load_model(world, progress_counter, "texture/blue");
        GameplayData { mtl, mesh }
    }
}

/// Named input actions the states react to.
#[derive(Clone, Copy, Debug, PartialEq, Eq, Structural)]
pub enum InputAction {
    Pause,
    Other,
}

/// Events delivered to the active state.
#[derive(Clone, Copy, Debug, PartialEq, Eq, Structural)]
pub enum StateEvent {
    /// A click on a UI element was released.
    UiClick(Entity),
    /// A bound input action was pressed.
    ActionPressed(InputAction),
}

/// What the UI finder located this frame, by element name.
pub struct UiLookup {
    pub progress_bar: Option<LoadingBarWidget>,
    pub play: Option<Entity>,
    pub settings: Option<Entity>,
    pub quit: Option<Entity>,
}

/// Loads every asset the game needs while showing a progress bar.
pub struct LoadingState {
    pub progress_counter: ProgressCounter,
    pub gameplay_data: Option<GameplayData>,
    pub mainmenu_data: Option<MainMenuData>,
    pub mainmenu_gui: Option<AssetHandle>,
    pub loading_gui: Option<Entity>,
    pub progress_bar: Option<LoadingBarWidget>,
    pub ledger: EntityLedger,
}

impl LoadingState {
    pub open spec fn wf(&self) -> bool {
        &&& self.progress_counter.wf()
        &&& self.ledger.wf()
        &&& (self.progress_bar is Some ==> placeable(self.progress_bar->0.background))
        &&& match self.loading_gui {
            Some(e) => self.ledger.owned() == set![e.id],
            None => self.ledger.owned() == Set::<u64>::empty(),
        }
    }

    /// Whether the entry hook has requested the loads.
    pub open spec fn started(&self) -> bool {
        &&& self.gameplay_data is Some
        &&& self.mainmenu_data is Some
        &&& self.mainmenu_gui is Some
    }

    /// As built by `new`: nothing registered, requested or owned.
    pub open spec fn fresh(&self) -> bool {
        &&& self.progress_counter@ == (CounterModel { total: 0, completed: 0, failed: false })
        &&& self.gameplay_data is None
        &&& self.mainmenu_data is None
        &&& self.mainmenu_gui is None
        &&& self.loading_gui is None
        &&& self.progress_bar is None
        &&& self.ledger.owned() == Set::<u64>::empty()
    }

    pub fn new() -> (r: LoadingState)
        ensures
            r.wf(),
            r.fresh(),
    {
        LoadingState {
            progress_counter: ProgressCounter::new(),
            gameplay_data: None,
            mainmenu_data: None,
            mainmenu_gui: None,
            loading_gui: None,
            progress_bar: None,
            ledger: EntityLedger::new(),
        }
    }

    /// Requests the menu layout, creates the loading screen, and requests
    /// the menu and gameplay models; each request is one task of the
    /// counter.
    pub fn on_start(&mut self, world: &mut World)
        requires
            old(self).wf(),
            old(self).fresh(),
            world_has_room(old(world)),
        ensures
            final(self).wf(),
            final(self).started(),
            final(self).loading_gui is Some,
            final(self).ledger.owned() == set![final(self).loading_gui->0.id],
            final(self).progress_counter@ == (CounterModel { total: 6, completed: 0, failed: false }),
            final(self).progress_bar is None,
            final(world).wf(),
            adds_entities(old(world).entities.live(), final(world).entities.live(), final(self).ledger.owned()),
            final(world).entities.room() == old(world).entities.room() - 1,
            final(world).entities.component(final(self).loading_gui->0.id) == Component::Ui(
                AssetHandle { id: (old(world).assets.requested().len() + 1) as u64 },
            ),
            final(world).entities.keeps_components(&old(world).entities, old(world).entities.live()),
            final(world).assets.requested() == old(world).assets.requested().push(
                "ui/mainmenu.ron"@,
            ).push("ui/loading.ron"@).push("texture/blue"@).push("mesh/suzanne.obj"@).push(
                "texture/red"@,
            ).push("mesh/suzanne.obj"@),
            final(world).assets.handed_out() == old(world).assets.handed_out(),
            final(world).resources == (crate::ecs::Resources {
                current_state: CurrentState::Loading,
                ..old(world).resources
            }),
    {
        world.resources.current_state = CurrentState::Loading;
        self.mainmenu_gui = Some(world.assets.load("ui/mainmenu.ron", &mut self.progress_counter));
        let layout = world.assets.load("ui/loading.ron", &mut self.progress_counter);
        let gui = self.ledger.create(&mut world.entities, Component::Ui(layout));
        self.loading_gui = Some(gui);
        self.gameplay_data = Some(GameplayData::load(world, &mut self.progress_counter));
        self.mainmenu_data = Some(MainMenuData::load(world, &mut self.progress_counter));
        assert(self.ledger.owned() =~= set![gui.id]);
        assert(world.entities.live() =~= old(world).entities.live().union(self.ledger.owned()));
    }

    /// Destroys the loading screen, if it is shown. It is not while the
    /// main menu runs on top: pausing destroys it too.
    pub fn on_stop(&mut self, world: &mut World)
        requires
            old(self).wf(),
            old(self).ledger.alive_in(&old(world).entities),
            old(world).wf(),
        ensures
            final(self).wf(),
            final(self).ledger.owned() == Set::<u64>::empty(),
            final(self).loading_gui is None,
            final(self).progress_counter@ == old(self).progress_counter@,
            final(self).gameplay_data == old(self).gameplay_data,
            final(self).mainmenu_data == old(self).mainmenu_data,
            final(self).mainmenu_gui == old(self).mainmenu_gui,
            final(world).wf(),
            removes_entities(old(world).entities.live(), final(world).entities.live(), old(self).ledger.owned()),
            final(world).entities.room() == old(world).entities.room(),
            final(world).assets == old(world).assets,
            final(world).resources == old(world).resources,
    {
        self.ledger.release_all(&mut world.entities);
        self.loading_gui = None;
    }

    /// Records the outcome of one outstanding load; `false`, with nothing
    /// changed, when no registered task is still outstanding.
    pub fn signal_load(&mut self, success: bool) -> (r: bool)
        requires
            old(self).wf(),
        ensures
            final(self).wf(),
            r == (old(self).progress_counter@.completed < old(self).progress_counter@.total),
            !r ==> *final(self) == *old(self),
            final(self).progress_counter@ == if !r {
                old(self).progress_counter@
            } else if success {
                old(self).progress_counter@.step(CounterOp::Success)
            } else {
                old(self).progress_counter@.step(CounterOp::Failure)
            },
            final(self).ledger == old(self).ledger,
            final(self).loading_gui == old(self).loading_gui,
            final(self).gameplay_data == old(self).gameplay_data,
            final(self).mainmenu_data == old(self).mainmenu_data,
            final(self).mainmenu_gui == old(self).mainmenu_gui,
            final(self).progress_bar == old(self).progress_bar,
    {
        if self.progress_counter.num_finished() < self.progress_counter.num_assets() {
            if success {
                self.progress_counter.signal_success();
            } else {
                self.progress_counter.signal_failure();
            }
            true
        } else {
            false
        }
    }

    /// Once every load succeeded, pushes the main menu with the loaded data
    /// (pausing this state, which takes the loading screen down); on a
    /// failed load, quits. While loading, keeps the progress bar
    /// in step with the counter, or adopts the bar the UI finder located.
    pub fn update(&mut self, found_bar: Option<LoadingBarWidget>) -> (r: Trans)
        requires
            old(self).wf(),
            old(self).started(),
        ensures
            final(self).wf(),
            final(self).ledger == old(self).ledger,
            final(self).loading_gui == old(self).loading_gui,
            final(self).progress_counter@ == old(self).progress_counter@,
            final(self).gameplay_data == old(self).gameplay_data,
            final(self).mainmenu_data == old(self).mainmenu_data,
            final(self).mainmenu_gui == old(self).mainmenu_gui,
            old(self).progress_counter@.status() == Completion::Failed ==> r is Quit,
            old(self).progress_counter@.status() == Completion::Complete ==> {
                &&& r is Push
                &&& r->Push_0 is MainMenu
                &&& r->Push_0->MainMenu_0.is_new(
                    old(self).mainmenu_gui->0,
                    old(self).mainmenu_data->0,
                    old(self).gameplay_data->0,
                )
            },
            old(self).progress_counter@.status() == Completion::Loading ==> {
                &&& r is Stay
                &&& match old(self).progress_bar {
                    Some(w) => {
                        &&& final(self).progress_bar is Some
                        &&& final(self).progress_bar->0.background == w.background
                        &&& final(self).progress_bar->0.label_transform == w.label_transform
                        &&& final(self).progress_bar->0.bar.height == w.bar.height
                        &&& final(self).progress_bar->0.bar.local_x == bar_x(
                            w.background.local_x as int,
                            final(self).progress_bar->0.bar.width as nat,
                        )
                        &&& final(self).progress_bar->0.bar.width as nat == bar_width(
                            w.background.width as nat,
                            crate::progress::Ratio {
                                num: old(self).progress_counter@.completed as u64,
                                den: old(self).progress_counter@.total as u64,
                            },
                        )
                        &&& final(self).progress_bar->0.label.text@ == percent_label(
                            crate::progress::Ratio {
                                num: old(self).progress_counter@.completed as u64,
                                den: old(self).progress_counter@.total as u64,
                            },
                        )
                    },
                    None => final(self).progress_bar == match found_bar {
                        Some(w) => if placeable(w.background) {
                            Some(w)
                        } else {
                            None
                        },
                        None => None,
                    },
                }
            },
    {
        match self.progress_counter.status() {
            Completion::Complete => {
                let gui = self.mainmenu_gui.unwrap();
                let menu = self.mainmenu_data.unwrap();
                let play = self.gameplay_data.unwrap();
                Trans::Push(SceneState::MainMenu(MainMenuState::new(gui, menu, play)))
            },
            Completion::Loading => {
                let progress = self.progress_counter.fraction();
                match self.progress_bar.take() {
                    Some(mut w) => {
                        let background = w.background;
                        update_loading_bar(&mut w.bar, background, &mut w.label, progress);
                        self.progress_bar = Some(w);
                    },
                    None => {
                        match found_bar {
                            Some(w) => {
                                if crate::ui::is_placeable(w.background) {
                                    self.progress_bar = Some(w);
                                }
                            },
                            None => {},
                        }
                    },
                }
                Trans::Stay
            },
            Completion::Failed => Trans::Quit,
        }
    }
}

/// Whether a clicked element is the one recorded, if any.
pub fn matches(target: Entity, entity: Option<Entity>) -> (r: bool)
    ensures
        r == (entity == Some(target)),
{
    match entity {
        Some(e) => e == target,
        None => false,
    }
}

/// The main menu: a rotating model, a light, a camera and the menu UI,
/// torn down while gameplay runs on top of it.
pub struct MainMenuState {
    pub data: MainMenuData,
    pub mainmenu_gui: AssetHandle,
    pub mainmenu_gui_entity: Option<Entity>,
    pub suzanne: Option<Entity>,
    pub light: Option<Entity>,
    pub camera: Option<Entity>,
    pub gameplay_data: GameplayData,
    pub play: Option<Entity>,
    pub settings: Option<Entity>,
    pub quit: Option<Entity>,
    pub ledger: EntityLedger,
}

impl MainMenuState {
    /// The menu's entities are recorded exactly while its UI is shown.
    pub open spec fn wf(&self) -> bool {
        &&& self.ledger.wf()
        &&& match self.mainmenu_gui_entity {
            Some(g) => {
                &&& self.suzanne is Some
                &&& self.light is Some
                &&& self.camera is Some
                &&& self.ledger.owned() == set![
                    g.id,
                    self.suzanne->0.id,
                    self.light->0.id,
                    self.camera->0.id,
                ]
                &&& self.ledger.owned().finite()
                &&& self.ledger.owned().len() == 4
            },
            None => {
                &&& self.suzanne is None
                &&& self.light is None
                &&& self.camera is None
                &&& self.ledger.owned() == Set::<u64>::empty()
            },
        }
    }

    /// The menu is shown in `store`: its UI from the menu layout, the
    /// turning model from the menu's material and mesh, a light and a camera.
    pub open spec fn built(&self, store: &EntityStore) -> bool {
        &&& self.mainmenu_gui_entity is Some
        &&& self.suzanne is Some
        &&& self.light is Some
        &&& self.camera is Some
        &&& store.component(self.mainmenu_gui_entity->0.id) == Component::Ui(self.mainmenu_gui)
        &&& store.component(self.suzanne->0.id) == (Component::Model {
            mtl: self.data.mtl,
            mesh: self.data.mesh,
            rotates: true,
        })
        &&& store.component(self.light->0.id) == Component::Light
        &&& store.component(self.camera->0.id) == Component::Camera
    }

    pub open spec fn fresh(&self) -> bool {
        &&& self.ledger.owned() == Set::<u64>::empty()
        &&& self.mainmenu_gui_entity is None
        &&& self.play is None
        &&& self.settings is None
        &&& self.quit is None
    }

    /// As built by `new` from these handles.
    pub open spec fn is_new(
        &self,
        mainmenu_gui: AssetHandle,
        mainmenu_data: MainMenuData,
        gameplay_data: GameplayData,
    ) -> bool {
        &&& self.wf()
        &&& self.fresh()
        &&& self.data == mainmenu_data
        &&& self.mainmenu_gui == mainmenu_gui
        &&& self.gameplay_data == gameplay_data
    }

    pub fn new(
        mainmenu_gui: AssetHandle,
        mainmenu_data: MainMenuData,
        gameplay_data: GameplayData,
    ) -> (r: MainMenuState)
        ensures
            r.is_new(mainmenu_gui, mainmenu_data, gameplay_data),
    {
        MainMenuState {
            data: mainmenu_data,
            mainmenu_gui,
            mainmenu_gui_entity: None,
            suzanne: None,
            light: None,
            camera: None,
            gameplay_data,
            play: None,
            settings: None,
            quit: None,
            ledger: EntityLedger::new(),
        }
    }

    /// Instantiates the menu: its UI, the rotating model, a light and a
    /// camera, all recorded in the ledger; marks the main menu as current and
    /// clears the gameplay flag.
    fn enter(&mut self, world: &mut World)
        requires
            old(self).wf(),
            old(self).ledger.owned() == Set::<u64>::empty(),
            world_has_room(old(world)),
        ensures
            final(self).wf(),
            final(self).ledger.owned().len() == 4,
            final(self).ledger.owned().finite(),
            final(self).built(&final(world).entities),
            final(world).entities.keeps_components(&old(world).entities, old(world).entities.live()),
            final(self).play == old(self).play,
            final(self).settings == old(self).settings,
            final(self).quit == old(self).quit,
            final(self).data == old(self).data,
            final(self).mainmenu_gui == old(self).mainmenu_gui,
            final(self).gameplay_data == old(self).gameplay_data,
            final(world).wf(),
            adds_entities(old(world).entities.live(), final(world).entities.live(), final(self).ledger.owned()),
            final(world).entities.room() == old(world).entities.room() - 4,
            final(world).assets == old(world).assets,
            final(world).resources == (crate::ecs::Resources {
                current_state: CurrentState::MainMenu,
                gameplay_active: false,
                ..old(world).resources
            }),
    {
        world.resources.current_state = CurrentState::MainMenu;
        world.resources.gameplay_active = false;
        let gui = self.ledger.create(&mut world.entities, Component::Ui(self.mainmenu_gui));
        let model = Component::Model { mtl: self.data.mtl, mesh: self.data.mesh, rotates: true };
        let suzanne = self.ledger.create(&mut world.entities, model);
        let light = self.ledger.create(&mut world.entities, Component::Light);
        let camera = self.ledger.create(&mut world.entities, Component::Camera);
        self.mainmenu_gui_entity = Some(gui);
        self.suzanne = Some(suzanne);
        self.light = Some(light);
        self.camera = Some(camera);
        proof {
            let o = self.ledger.owned();
            assert(o =~= set![gui.id, suzanne.id, light.id, camera.id]);
            assert(set![gui.id, suzanne.id, light.id, camera.id] =~= Set::<u64>::empty().insert(gui.id).insert(suzanne.id).insert(light.id).insert(camera.id));
            vstd::set_lib::lemma_set_empty_equivalency_len(Set::<u64>::empty());
            assert(world.entities.live() =~= old(world).entities.live().union(self.ledger.owned()));
            assert(old(world).entities.live().disjoint(self.ledger.owned()));
        }
    }

    /// Destroys what `enter` created and forgets the located buttons.
    fn leave(&mut self, world: &mut World)
        requires
            old(self).wf(),
            old(self).ledger.alive_in(&old(world).entities),
            old(world).wf(),
        ensures
            final(self).wf(),
            final(self).fresh(),
            final(self).data == old(self).data,
            final(self).mainmenu_gui == old(self).mainmenu_gui,
            final(self).gameplay_data == old(self).gameplay_data,
            final(world).wf(),
            removes_entities(old(world).entities.live(), final(world).entities.live(), old(self).ledger.owned()),
            final(world).entities.room() == old(world).entities.room(),
            final(world).assets == old(world).assets,
            final(world).resources == old(world).resources,
    {
        self.ledger.release_all(&mut world.entities);
        self.mainmenu_gui_entity = None;
        self.suzanne = None;
        self.light = None;
        self.camera = None;
        self.play = None;
        self.settings = None;
        self.quit = None;
    }

    /// Reacts to a released click: `play` pushes gameplay, `quit` quits,
    /// anything else leaves the menu as it is.
    pub fn handle_event(&self, event: StateEvent) -> (r: Trans)
        requires
            self.wf(),
        ensures
            match event {
                StateEvent::UiClick(t) => if self.play == Some(t) {
                    &&& r is Push
                    &&& r->Push_0 is Gameplay
                    &&& r->Push_0->Gameplay_0.is_new(self.gameplay_data)
                } else if self.settings == Some(t) {
                    r is Stay
                } else if self.quit == Some(t) {
                    r is Quit
                } else {
                    r is Stay
                },
                StateEvent::ActionPressed(_) => r is Stay,
            },
    {
        match event {
            StateEvent::UiClick(target) => {
                if matches(target, self.play) {
                    Trans::Push(SceneState::Gameplay(GameplayState::new(self.gameplay_data)))
                } else if matches(target, self.settings) {
                    Trans::Stay
                } else if matches(target, self.quit) {
                    Trans::Quit
                } else {
                    Trans::Stay
                }
            },
            StateEvent::ActionPressed(_) => Trans::Stay,
        }
    }

    /// Adopts the buttons the UI finder located, for those not yet known.
    pub fn update(&mut self, play: Option<Entity>, settings: Option<Entity>, quit: Option<Entity>) -> (r: Trans)
        ensures
            r is Stay,
            final(self).play == if old(self).play is None { play } else { old(self).play },
            final(self).settings == if old(self).settings is None { settings } else { old(self).settings },
            final(self).quit == if old(self).quit is None { quit } else { old(self).quit },
            final(self).ledger == old(self).ledger,
            final(self).mainmenu_gui_entity == old(self).mainmenu_gui_entity,
            final(self).suzanne == old(self).suzanne,
            final(self).light == old(self).light,
            final(self).camera == old(self).camera,
            final(self).data == old(self).data,
            final(self).mainmenu_gui == old(self).mainmenu_gui,
            final(self).gameplay_data == old(self).gameplay_data,
    {
        if self.play.is_none() {
            self.play = play;
        }
        if self.settings.is_none() {
            self.settings = settings;
        }
        if self.quit.is_none() {
            self.quit = quit;
        }
        Trans::Stay
    }
}

/// Gameplay: a model, a light and a camera, with the cursor captured until
/// the player pauses, which returns to the menu.
pub struct GameplayState {
    pub data: GameplayData,
    pub paused: bool,
    pub suzanne: Option<Entity>,
    pub light: Option<Entity>,
    pub camera: Option<Entity>,
    pub ledger: EntityLedger,
}

impl GameplayState {
    /// The scene's entities are recorded exactly while it is shown.
    pub open spec fn wf(&self) -> bool {
        &&& self.ledger.wf()
        &&& match self.suzanne {
            Some(m) => {
                &&& self.light is Some
                &&& self.camera is Some
                &&& self.ledger.owned() == set![m.id, self.light->0.id, self.camera->0.id]
                &&& self.ledger.owned().finite()
                &&& self.ledger.owned().len() == 3
            },
            None => {
                &&& self.light is None
                &&& self.camera is None
                &&& self.ledger.owned() == Set::<u64>::empty()
            },
        }
    }

    /// The scene is shown in `store`: the model from the gameplay material
    /// and mesh, standing still, a light and a camera.
    pub open spec fn built(&self, store: &EntityStore) -> bool {
        &&& self.suzanne is Some
        &&& self.light is Some
        &&& self.camera is Some
        &&& store.component(self.suzanne->0.id) == (Component::Model {
            mtl: self.data.mtl,
            mesh: self.data.mesh,
            rotates: false,
        })
        &&& store.component(self.light->0.id) == Component::Light
        &&& store.component(self.camera->0.id) == Component::Camera
    }

    pub open spec fn fresh(&self) -> bool {
        &&& self.ledger.owned() == Set::<u64>::empty()
        &&& self.suzanne is None
        &&& !self.paused
    }

    /// As built by `new` from `data`.
    pub open spec fn is_new(&self, data: GameplayData) -> bool {
        &&& self.wf()
        &&& self.fresh()
        &&& self.data == data
    }

    pub fn new(data: GameplayData) -> (r: GameplayState)
        ensures
            r.is_new(data),
    {
        GameplayState {
            data,
            paused: false,
            suzanne: None,
            light: None,
            camera: None,
            ledger: EntityLedger::new(),
        }
    }

    /// Marks gameplay as current, sets the gameplay flag, captures the
    /// cursor, and creates the model, a light and a camera.
    pub fn on_start(&mut self, world: &mut World)
        requires
            old(self).wf(),
            old(self).ledger.owned() == Set::<u64>::empty(),
            world_has_room(old(world)),
        ensures
            final(self).wf(),
            final(self).ledger.owned().len() == 3,
            final(self).ledger.owned().finite(),
            final(self).built(&final(world).entities),
            final(world).entities.keeps_components(&old(world).entities, old(world).entities.live()),
            final(self).paused == old(self).paused,
            final(self).data == old(self).data,
            final(world).wf(),
            adds_entities(old(world).entities.live(), final(world).entities.live(), final(self).ledger.owned()),
            final(world).entities.room() == old(world).entities.room() - 3,
            final(world).assets == old(world).assets,
            final(world).resources == (crate::ecs::Resources {
                current_state: CurrentState::Gameplay,
                gameplay_active: true,
                hide_cursor: true,
                ..old(world).resources
            }),
    {
        world.resources.current_state = CurrentState::Gameplay;
        world.resources.gameplay_active = true;
        world.resources.hide_cursor = true;
        let model = Component::Model { mtl: self.data.mtl, mesh: self.data.mesh, rotates: false };
        let suzanne = self.ledger.create(&mut world.entities, model);
        let light = self.ledger.create(&mut world.entities, Component::Light);
        let camera = self.ledger.create(&mut world.entities, Component::Camera);
        self.suzanne = Some(suzanne);
        self.light = Some(light);
        self.camera = Some(camera);
        proof {
            assert(self.ledger.owned() =~= set![suzanne.id, light.id, camera.id]);
            assert(self.ledger.owned() =~= Set::<u64>::empty().insert(suzanne.id).insert(light.id).insert(camera.id));
            assert(world.entities.live() =~= old(world).entities.live().union(self.ledger.owned()));
            assert(old(world).entities.live().disjoint(self.ledger.owned()));
        }
    }

    /// Clears the gameplay flag, releases the cursor and destroys what
    /// `on_start` created.
    pub fn on_stop(&mut self, world: &mut World)
        requires
            old(self).wf(),
            old(self).ledger.alive_in(&old(world).entities),
            old(world).wf(),
        ensures
            final(self).wf(),
            final(self).ledger.owned() == Set::<u64>::empty(),
            final(self).paused == old(self).paused,
            final(self).data == old(self).data,
            final(world).wf(),
            removes_entities(old(world).entities.live(), final(world).entities.live(), old(self).ledger.owned()),
            final(world).entities.room() == old(world).entities.room(),
            final(world).assets == old(world).assets,
            final(world).resources == (crate::ecs::Resources {
                gameplay_active: false,
                hide_cursor: false,
                ..old(world).resources
            }),
    {
        world.resources.gameplay_active = false;
        world.resources.hide_cursor = false;
        self.take_down(world);
    }

    /// Destroys the scene's entities, leaving the shared flags alone.
    pub fn take_down(&mut self, world: &mut World)
        requires
            old(self).wf(),
            old(self).ledger.alive_in(&old(world).entities),
            old(world).wf(),
        ensures
            final(self).wf(),
            final(self).ledger.owned() == Set::<u64>::empty(),
            final(self).paused == old(self).paused,
            final(self).data == old(self).data,
            final(world).wf(),
            removes_entities(old(world).entities.live(), final(world).entities.live(), old(self).ledger.owned()),
            final(world).entities.room() == old(world).entities.room(),
            final(world).assets == old(world).assets,
            final(world).resources == old(world).resources,
    {
        self.ledger.release_all(&mut world.entities);
        self.suzanne = None;
        self.light = None;
        self.camera = None;
    }

    /// Toggles the pause flag on a pause action, but only while the player
    /// is actively playing: the window has focus and the cursor is hidden.
    pub fn handle_event(&mut self, world: &World, event: StateEvent) -> (r: Trans)
        ensures
            r is Stay,
            final(self).paused == (old(self).paused != (event == StateEvent::ActionPressed(InputAction::Pause)
                && world.resources.window_focused && world.resources.hide_cursor)),
            final(self).ledger == old(self).ledger,
            final(self).data == old(self).data,
            final(self).suzanne == old(self).suzanne,
            final(self).light == old(self).light,
            final(self).camera == old(self).camera,
    {
        match event {
            StateEvent::ActionPressed(InputAction::Pause) => {
                if world.resources.window_focused && world.resources.hide_cursor {
                    self.paused = !self.paused;
                }
            },
            _ => {},
        }
        Trans::Stay
    }

    /// Pops back to the menu once paused.
    pub fn update(&self) -> (r: Trans)
        ensures
            self.paused ==> r is Pop,
            !self.paused ==> r is Stay,
    {
        if self.paused {
            Trans::Pop
        } else {
            Trans::Stay
        }
    }
}

/// One of the scene states.
pub enum SceneState {
    Loading(LoadingState),
    MainMenu(MainMenuState),
    Gameplay(GameplayState),
}

/// A transition requested by the active state.
pub enum Trans {
    /// Stay in the current state.
    Stay,
    /// Suspend the current state and start this one on top of it.
    Push(SceneState),
    /// Stop the current state and resume the one below.
    Pop,
    /// Stop the current state and start this one in its place.
    Switch(SceneState),
    /// Stop every state and end the game.
    Quit,
}

impl SceneState {
    /// The entities this state has created and not yet destroyed.
    pub open spec fn owned(&self) -> Set<u64> {
        match self {
            SceneState::Loading(s) => s.ledger.owned(),
            SceneState::MainMenu(s) => s.ledger.owned(),
            SceneState::Gameplay(s) => s.ledger.owned(),
        }
    }

    pub open spec fn wf(&self) -> bool {
        match self {
            SceneState::Loading(s) => s.wf(),
            SceneState::MainMenu(s) => s.wf(),
            SceneState::Gameplay(s) => s.wf(),
        }
    }

    pub open spec fn fresh(&self) -> bool {
        match self {
            SceneState::Loading(s) => s.fresh(),
            SceneState::MainMenu(s) => s.fresh(),
            SceneState::Gameplay(s) => s.fresh(),
        }
    }

    /// The state's entities stand in `store` as its entry hook builds them.
    pub open spec fn built(&self, store: &EntityStore) -> bool {
        match self {
            SceneState::Loading(s) => s.loading_gui is Some,
            SceneState::MainMenu(s) => s.built(store),
            SceneState::Gameplay(s) => s.built(store),
        }
    }

    pub open spec fn kind(&self) -> CurrentState {
        match self {
            SceneState::Loading(_) => CurrentState::Loading,
            SceneState::MainMenu(_) => CurrentState::MainMenu,
            SceneState::Gameplay(_) => CurrentState::Gameplay,
        }
    }

    /// The entry hook: the state creates its entities and claims the shared
    /// flags.
    pub fn on_start(&mut self, world: &mut World)
        requires
            old(self).wf(),
            old(self).fresh(),
            world_has_room(old(world)),
        ensures
            final(self).wf(),
            final(self).kind() == old(self).kind(),
            adds_entities(old(world).entities.live(), final(world).entities.live(), final(self).owned()),
            final(self).owned().finite(),
            final(self).owned().len() == spawn_count(old(self).kind()),
            final(world).wf(),
            final(world).resources == entered(old(self).kind(), old(world).resources),
            final(self).built(&final(world).entities),
            final(world).entities.keeps_components(&old(world).entities, old(world).entities.live()),
            (*final(self)) is Loading ==> (*final(self))->Loading_0.started(),
            (*final(self)) is Loading ==> (*final(self))->Loading_0.loading_gui is Some,
            (*final(self)) is MainMenu ==> (*final(self))->MainMenu_0.mainmenu_gui_entity is Some,
            (*final(self)) is MainMenu ==> same_menu_data(
                (*final(self))->MainMenu_0,
                (*old(self))->MainMenu_0,
            ),
            (*final(self)) is Gameplay ==> (*final(self))->Gameplay_0.paused
                == (*old(self))->Gameplay_0.paused,
            final(world).assets.handed_out() == old(world).assets.handed_out(),
    {
        match self {
            SceneState::Loading(s) => {
                s.on_start(world);
                assert(s.ledger.owned().len() == 1);
            },
            SceneState::MainMenu(s) => s.enter(world),
            SceneState::Gameplay(s) => s.on_start(world),
        }
    }

    /// The exit hook: the state destroys every entity it created.
    pub fn on_stop(&mut self, world: &mut World)
        requires
            old(self).wf(),
            old(self).owned().subset_of(old(world).entities.live()),
            old(world).wf(),
        ensures
            final(self).wf(),
            final(self).owned() == Set::<u64>::empty(),
            removes_entities(old(world).entities.live(), final(world).entities.live(), old(self).owned()),
            final(world).wf(),
            final(world).entities.room() == old(world).entities.room(),
            final(world).assets == old(world).assets,
            final(world).resources == exited(old(self).kind(), old(world).resources),
    {
        match self {
            SceneState::Loading(s) => s.on_stop(world),
            SceneState::MainMenu(s) => s.leave(world),
            SceneState::Gameplay(s) => s.on_stop(world),
        }
    }

    /// The suspend hook, run when another state is pushed on top: the
    /// suspended state keeps its data but none of its entities. The menu
    /// must be showing, and forgets its located buttons; loading takes its
    /// screen down.
    pub fn on_pause(&mut self, world: &mut World)
        requires
            old(self).wf(),
            old(self).owned().subset_of(old(world).entities.live()),
            old(world).wf(),
            (*old(self)) is MainMenu ==> (*old(self))->MainMenu_0.mainmenu_gui_entity is Some,
        ensures
            final(self).wf(),
            final(self).kind() == old(self).kind(),
            final(self).owned() == Set::<u64>::empty(),
            removes_entities(old(world).entities.live(), final(world).entities.live(), old(self).owned()),
            final(world).wf(),
            final(world).entities.room() == old(world).entities.room(),
            final(world).assets == old(world).assets,
            final(world).resources == old(world).resources,
            (*final(self)) is Loading ==> (*final(self))->Loading_0.started() == (*old(self))->Loading_0.started(),
            (*final(self)) is Loading ==> (*final(self))->Loading_0.loading_gui is None,
            (*final(self)) is MainMenu ==> (*final(self))->MainMenu_0.fresh(),
            (*final(self)) is MainMenu ==> same_menu_data(
                (*final(self))->MainMenu_0,
                (*old(self))->MainMenu_0,
            ),
    {
        match self {
            SceneState::Loading(s) => s.on_stop(world),
            SceneState::MainMenu(s) => s.leave(world),
            SceneState::Gameplay(s) => s.take_down(world),
        }
    }

    /// The resume hook, run when the state above it was popped: the main
    /// menu rebuilds its entities; the other states have nothing to rebuild.
    pub fn on_resume(&mut self, world: &mut World)
        requires
            old(self).wf(),
            old(self).owned() == Set::<u64>::empty(),
            world_has_room(old(world)),
        ensures
            final(self).wf(),
            final(self).kind() == old(self).kind(),
            adds_entities(old(world).entities.live(), final(world).entities.live(), final(self).owned()),
            final(world).wf(),
            final(world).assets == old(world).assets,
            (*old(self)) is MainMenu ==> final(world).resources == entered(
                CurrentState::MainMenu,
                old(world).resources,
            ),
            final(world).entities.keeps_components(&old(world).entities, old(world).entities.live()),
            (*old(self)) is MainMenu ==> {
                &&& final(self).built(&final(world).entities)
                &&& final(self).owned().finite()
                &&& final(self).owned().len() == spawn_count(CurrentState::MainMenu)
                &&& (*final(self))->MainMenu_0.mainmenu_gui_entity is Some
                &&& same_menu_data((*final(self))->MainMenu_0, (*old(self))->MainMenu_0)
            },
            !((*old(self)) is MainMenu) ==> final(world).resources == old(world).resources,
            !((*old(self)) is MainMenu) ==> *final(self) == *old(self),
            (*final(self)) is Loading ==> (*final(self))->Loading_0.started() == (*old(self))->Loading_0.started(),
    {
        match self {
            SceneState::Loading(_) => {
                assert(world.entities.live() =~= old(world).entities.live().union(self.owned()));
            },
            SceneState::MainMenu(s) => s.enter(world),
            SceneState::Gameplay(_) => {
                assert(world.entities.live() =~= old(world).entities.live().union(self.owned()));
            },
        }
    }
}

/// A state that runs from its entry hook to its exit hook, or from resume
/// to suspend, leaves the world with exactly the entities it found: what it
/// added on entry is what it removes on exit.
pub proof fn lemma_entity_symmetry(
    before: Set<u64>,
    during: Set<u64>,
    after: Set<u64>,
    owned: Set<u64>,
)
    requires
        adds_entities(before, during, owned),
        removes_entities(during, after, owned),
    ensures
        after == before,
{
    assert(after =~= before);
}

} // verus!
