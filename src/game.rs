//! The driver: a stack of scene states over one world. The top state is the
//! active one; the states below it are suspended and own no entities.

use crate::ecs::{CurrentState, LoadRequest, World};
use crate::progress::{Completion, CounterModel, CounterOp, Ratio};
use crate::states::{
    entered, exited, world_has_room, InputAction, LoadingState, SceneState, StateEvent, Trans, UiLookup,
};
use vstd::prelude::*;

verus! {

/// A state as it may stand on the stack: well formed, and a loading state
/// only once it has requested its loads.
pub open spec fn state_ok(s: SceneState) -> bool {
    &&& s.wf()
    &&& (s is Loading ==> s->Loading_0.started())
}

/// Once the last state has stopped, every entity that any state created has
/// been destroyed: the world holds exactly the entities it held before the
/// first state started, namely none.
pub proof fn lemma_ended_game_leaves_no_entities(game: &Game)
    requires
        game.wf(),
        !game.running(),
    ensures
        game.world.entities.live() == Set::<u64>::empty(),
{
}

/// A state handed over by a transition: well formed and not yet started.
pub open spec fn trans_ok(t: Trans) -> bool {
    match t {
        Trans::Push(s) => s.wf() && s.fresh(),
        Trans::Switch(s) => s.wf() && s.fresh(),
        _ => true,
    }
}

/// The scene stack and the world it acts on.
pub struct Game {
    pub stack: Vec<SceneState>,
    pub world: World,
}

impl Game {
    pub open spec fn running(&self) -> bool {
        self.stack@.len() > 0
    }

    pub open spec fn top(&self) -> SceneState {
        self.stack@.last()
    }

    /// The entities the active state owns; none once the game has ended.
    pub open spec fn owned_by_active(&self) -> Set<u64> {
        if self.running() {
            self.top().owned()
        } else {
            Set::<u64>::empty()
        }
    }

    /// Every state is well formed, the suspended ones own nothing, and the
    /// live entities are exactly those the active state owns: none leaks
    /// across a transition and none is destroyed twice. An active menu is
    /// showing its UI.
    pub open spec fn wf(&self) -> bool {
        &&& self.stack_wf()
        &&& (self.running() && self.top() is MainMenu)
            ==> self.top()->MainMenu_0.mainmenu_gui_entity is Some
    }

    /// The entity discipline of the stack, without the demand on the
    /// active menu.
    pub open spec fn stack_wf(&self) -> bool {
        &&& self.world.wf()
        &&& forall|i: int| 0 <= i < self.stack@.len() ==> state_ok(#[trigger] self.stack@[i])
        &&& forall|i: int|
            0 <= i < self.stack@.len() - 1 ==> (#[trigger] self.stack@[i]).owned()
                == Set::<u64>::empty()
        &&& self.world.entities.live() == self.owned_by_active()
    }

    /// The same states and the same world.
    pub open spec fn same_as(&self, other: &Game) -> bool {
        self.stack@ == other.stack@ && self.world == other.world
    }

    /// Enough identifiers are left for the next transition.
    pub open spec fn has_room_spec(&self) -> bool {
        world_has_room(&self.world)
    }

    /// The game as it starts: the loading state has requested the six
    /// assets and shows its loading screen.
    pub fn new() -> (r: Game)
        ensures
            r.wf(),
            r.has_room_spec(),
            r.stack@.len() == 1,
            r.top() is Loading,
            r.top()->Loading_0.progress_counter@ == (CounterModel {
                total: 6,
                completed: 0,
                failed: false,
            }),
            r.world.entities.live().len() == 1,
            r.world.assets.requested().len() == 6,
            r.world.assets.handed_out() == 0,
            r.world.resources.current_state == CurrentState::Loading,
            !r.world.resources.hide_cursor,
            r.world.resources.window_focused,
    {
        let mut world = World::new();
        let mut loading = LoadingState::new();
        loading.on_start(&mut world);
        let first = SceneState::Loading(loading);
        let mut stack: Vec<SceneState> = Vec::new();
        stack.push(first);
        let r = Game { stack, world };
        proof {
            assert(r.stack@[0] == first);
            assert(r.world.entities.live() =~= first.owned());
            assert(r.world.entities.live() =~= set![loading.loading_gui->0.id]);
            assert(set![loading.loading_gui->0.id].len() == 1);
        }
        r
    }

    pub fn has_room(&self) -> (r: bool)
        requires
            self.wf(),
        ensures
            r == self.has_room_spec(),
    {
        self.world.entities.room_left() >= 4 && self.world.assets.room_left() >= 6
    }

    pub fn is_running(&self) -> (r: bool)
        ensures
            r == self.running(),
    {
        self.stack.len() > 0
    }

    /// Which state is active, if the game is still running.
    pub fn current(&self) -> (r: Option<CurrentState>)
        ensures
            r == if self.running() {
                Some(self.top().kind())
            } else {
                None
            },
    {
        if self.stack.len() == 0 {
            None
        } else {
            match &self.stack[self.stack.len() - 1] {
                SceneState::Loading(_) => Some(CurrentState::Loading),
                SceneState::MainMenu(_) => Some(CurrentState::MainMenu),
                SceneState::Gameplay(_) => Some(CurrentState::Gameplay),
            }
        }
    }

    /// Whether the active gameplay state has been paused; `None` when
    /// gameplay is not the active state.
    pub fn gameplay_paused(&self) -> (r: Option<bool>)
        ensures
            r == if self.running() && self.top() is Gameplay {
                Some(self.top()->Gameplay_0.paused)
            } else {
                None
            },
    {
        if self.stack.len() == 0 {
            None
        } else {
            match &self.stack[self.stack.len() - 1] {
                SceneState::Gameplay(g) => Some(g.paused),
                _ => None,
            }
        }
    }

    /// The loading status and completed fraction, while loading is active.
    pub fn loading_progress(&self) -> (r: Option<(Completion, Ratio)>)
        ensures
            r is Some <==> self.running() && self.top() is Loading,
            r is Some ==> {
                let c = self.top()->Loading_0.progress_counter@;
                let (status, fraction) = r->0;
                &&& status == c.status()
                &&& (fraction.num as nat, fraction.den as nat) == c.fraction()
            },
    {
        if self.stack.len() == 0 {
            None
        } else {
            match &self.stack[self.stack.len() - 1] {
                SceneState::Loading(s) => Some(
                    (s.progress_counter.status(), s.progress_counter.fraction()),
                ),
                _ => None,
            }
        }
    }

    /// Records whether the window has input focus.
    pub fn set_window_focused(&mut self, focused: bool)
        requires
            old(self).wf(),
        ensures
            final(self).wf(),
            final(self).stack == old(self).stack,
            final(self).world.resources == (crate::ecs::Resources {
                window_focused: focused,
                ..old(self).world.resources
            }),
            final(self).world.entities == old(self).world.entities,
            final(self).world.assets == old(self).world.assets,
    {
        self.world.resources.window_focused = focused;
    }

    /// Hands out the asset loads requested since the last call.
    pub fn take_load_requests(&mut self) -> (r: Vec<LoadRequest>)
        requires
            old(self).wf(),
        ensures
            final(self).wf(),
            final(self).stack == old(self).stack,
            final(self).world.entities == old(self).world.entities,
            final(self).world.resources == old(self).world.resources,
            final(self).world.assets.requested() == old(self).world.assets.requested(),
            final(self).world.assets.handed_out() == old(self).world.assets.requested().len(),
            r@.len() == old(self).world.assets.requested().len() - old(self).world.assets.handed_out(),
            forall|k: int|
                0 <= k < r@.len() ==> {
                    &&& #[trigger] r@[k].handle.id == old(self).world.assets.handed_out() + k
                    &&& r@[k].path@ == old(self).world.assets.requested()[
                        old(self).world.assets.handed_out() + k
                    ]
                },
    {
        self.world.assets.take_requests()
    }
    /// Restores the invariant after the top state was taken off, changed
    /// without touching its entities, and put back.
    proof fn lemma_top_replaced(&self, old_stack: Seq<SceneState>, top: SceneState)
        requires
            self.stack@ == old_stack.drop_last().push(top),
            old_stack.len() > 0,
            state_ok(top),
            top.owned() == old_stack.last().owned(),
            top is MainMenu ==> top->MainMenu_0.mainmenu_gui_entity is Some,
            forall|i: int| 0 <= i < old_stack.len() ==> state_ok(#[trigger] old_stack[i]),
            forall|i: int|
                0 <= i < old_stack.len() - 1 ==> (#[trigger] old_stack[i]).owned() == Set::<
                    u64,
                >::empty(),
            self.world.wf(),
            self.world.entities.live() == old_stack.last().owned(),
        ensures
            self.wf(),
            forall|i: int| 0 <= i < old_stack.len() - 1 ==> self.stack@[i] == old_stack[i],
    {
        assert forall|i: int| 0 <= i < self.stack@.len() implies state_ok(
            #[trigger] self.stack@[i],
        ) by {
            if i < self.stack@.len() - 1 {
                assert(self.stack@[i] == old_stack[i]);
            }
        }
        assert forall|i: int| 0 <= i < self.stack@.len() - 1 implies (
        #[trigger] self.stack@[i]).owned() == Set::<u64>::empty() by {
            assert(self.stack@[i] == old_stack[i]);
        }
    }

    /// One frame: the active state updates and the transition it asks for is
    /// carried out. Loading pushes the menu on top of itself once every load
    /// succeeded and quits on a failed one; gameplay pops back to the menu
    /// once paused.
    pub fn update(&mut self, lookup: UiLookup)
        requires
            old(self).wf(),
            old(self).has_room_spec(),
        ensures
            final(self).wf(),
            final(self).world.assets.handed_out() == old(self).world.assets.handed_out(),
            final(self).world.resources.window_focused == old(self).world.resources.window_focused,
            !old(self).running() ==> final(self).same_as(old(self)),
            old(self).running() ==> match old(self).top() {
                SceneState::Loading(s) => match s.progress_counter@.status() {
                    Completion::Failed => {
                        &&& !final(self).running()
                        &&& final(self).world.entities.live() == Set::<u64>::empty()
                    },
                    Completion::Complete => {
                        &&& final(self).stack@.len() == old(self).stack@.len() + 1
                        &&& final(self).stack@[old(self).stack@.len() - 1] is Loading
                        &&& final(self).stack@[old(self).stack@.len() - 1].owned()
                            == Set::<u64>::empty()
                        &&& final(self).top() is MainMenu
                        &&& final(self).top().owned().len() == 4
                        &&& final(self).top().built(&final(self).world.entities)
                        &&& final(self).world.resources == entered(
                            CurrentState::MainMenu,
                            old(self).world.resources,
                        )
                    },
                    Completion::Loading => {
                        &&& final(self).stack@.len() == old(self).stack@.len()
                        &&& final(self).top() is Loading
                        &&& final(self).top()->Loading_0.progress_counter@
                            == s.progress_counter@
                        &&& final(self).world == old(self).world
                    },
                },
                SceneState::MainMenu(m) => {
                    &&& final(self).stack@.len() == old(self).stack@.len()
                    &&& final(self).top() is MainMenu
                    &&& final(self).world == old(self).world
                    &&& final(self).top()->MainMenu_0.play == if m.play is None {
                        lookup.play
                    } else {
                        m.play
                    }
                    &&& final(self).top()->MainMenu_0.settings == if m.settings is None {
                        lookup.settings
                    } else {
                        m.settings
                    }
                    &&& final(self).top()->MainMenu_0.quit == if m.quit is None {
                        lookup.quit
                    } else {
                        m.quit
                    }
                },
                SceneState::Gameplay(g) => if g.paused {
                    &&& final(self).stack@.len() == old(self).stack@.len() - 1
                    &&& !final(self).world.resources.hide_cursor
                    &&& !final(self).world.resources.gameplay_active
                    &&& (final(self).running() && final(self).top() is MainMenu) ==> {
                        &&& final(self).world.resources.current_state == CurrentState::MainMenu
                        &&& final(self).top().owned().len() == 4
                        &&& final(self).top().built(&final(self).world.entities)
                    }
                } else {
                    final(self).same_as(old(self))
                },
            },
    {
        if self.stack.len() == 0 {
            return ;
        }
        let ghost old_stack = self.stack@;
        let top = self.stack.pop().unwrap();
        proof {
            assert(self.stack@ =~= old_stack.drop_last());
            assert(state_ok(top));
        }
        let (top, trans) = match top {
            SceneState::Loading(mut s) => {
                let t = s.update(lookup.progress_bar);
                (SceneState::Loading(s), t)
            },
            SceneState::MainMenu(mut m) => {
                let t = m.update(lookup.play, lookup.settings, lookup.quit);
                (SceneState::MainMenu(m), t)
            },
            SceneState::Gameplay(g) => {
                let t = g.update();
                (SceneState::Gameplay(g), t)
            },
        };
        self.stack.push(top);
        proof {
            assert(self.stack@ =~= old_stack.drop_last().push(top));
            self.lemma_top_replaced(old_stack, top);
            if top is Gameplay && !top->Gameplay_0.paused {
                assert(self.stack@ =~= old_stack);
            }
        }
        self.apply(trans);
    }

    /// Delivers an input or UI event to the active state and carries out the
    /// transition it asks for.
    pub fn handle_event(&mut self, event: StateEvent)
        requires
            old(self).wf(),
            old(self).has_room_spec(),
        ensures
            final(self).wf(),
            final(self).world.assets.handed_out() == old(self).world.assets.handed_out(),
            final(self).world.resources.window_focused == old(self).world.resources.window_focused,
            !old(self).running() ==> final(self).same_as(old(self)),
            old(self).running() ==> match old(self).top() {
                SceneState::Loading(_) => final(self).same_as(old(self)),
                SceneState::MainMenu(m) => match event {
                    StateEvent::UiClick(t) => if m.play == Some(t) {
                        &&& final(self).stack@.len() == old(self).stack@.len() + 1
                        &&& final(self).top() is Gameplay
                        &&& !final(self).top()->Gameplay_0.paused
                        &&& final(self).top().owned().len() == 3
                        &&& final(self).top().built(&final(self).world.entities)
                        &&& final(self).stack@[old(self).stack@.len() - 1] is MainMenu
                        &&& final(self).world.resources == entered(
                            CurrentState::Gameplay,
                            old(self).world.resources,
                        )
                    } else if m.settings != Some(t) && m.quit == Some(t) {
                        &&& !final(self).running()
                        &&& final(self).world.entities.live() == Set::<u64>::empty()
                    } else {
                        final(self).same_as(old(self))
                    },
                    StateEvent::ActionPressed(_) => final(self).same_as(old(self)),
                },
                SceneState::Gameplay(g) => {
                    &&& final(self).stack@.len() == old(self).stack@.len()
                    &&& final(self).top() is Gameplay
                    &&& final(self).top()->Gameplay_0.paused == (g.paused != (event
                        == StateEvent::ActionPressed(InputAction::Pause)
                        && old(self).world.resources.window_focused
                        && old(self).world.resources.hide_cursor))
                    &&& final(self).world == old(self).world
                },
            },
    {
        if self.stack.len() == 0 {
            return ;
        }
        let ghost old_stack = self.stack@;
        let top = self.stack.pop().unwrap();
        proof {
            assert(self.stack@ =~= old_stack.drop_last());
            assert(state_ok(top));
        }
        let (top, trans) = match top {
            SceneState::Loading(s) => (SceneState::Loading(s), Trans::Stay),
            SceneState::MainMenu(m) => {
                let t = m.handle_event(event);
                (SceneState::MainMenu(m), t)
            },
            SceneState::Gameplay(mut g) => {
                let t = g.handle_event(&self.world, event);
                (SceneState::Gameplay(g), t)
            },
        };
        self.stack.push(top);
        proof {
            assert(self.stack@ =~= old_stack.drop_last().push(top));
            self.lemma_top_replaced(old_stack, top);
            if !(top is Gameplay) {
                assert(self.stack@ =~= old_stack);
            }
        }
        self.apply(trans);
    }

    /// Records the outcome of one outstanding asset load; `false`, with
    /// nothing changed, when loading is not active or no load is outstanding.
    pub fn signal_load(&mut self, success: bool) -> (r: bool)
        requires
            old(self).wf(),
        ensures
            final(self).wf(),
            r == (old(self).running() && old(self).top() is Loading
                && old(self).top()->Loading_0.progress_counter@.completed
                < old(self).top()->Loading_0.progress_counter@.total),
            !r ==> final(self).same_as(old(self)),
            r ==> {
                let c = old(self).top()->Loading_0.progress_counter@;
                &&& final(self).stack@.len() == old(self).stack@.len()
                &&& final(self).top() is Loading
                &&& final(self).top()->Loading_0.progress_counter@ == if success {
                    c.step(CounterOp::Success)
                } else {
                    c.step(CounterOp::Failure)
                }
                &&& final(self).world == old(self).world
            },
    {
        if self.stack.len() == 0 {
            return false;
        }
        let ghost old_stack = self.stack@;
        let top = self.stack.pop().unwrap();
        proof {
            assert(self.stack@ =~= old_stack.drop_last());
            assert(state_ok(top));
        }
        let (top, r) = match top {
            SceneState::Loading(mut s) => {
                let r = s.signal_load(success);
                (SceneState::Loading(s), r)
            },
            other => (other, false),
        };
        self.stack.push(top);
        proof {
            assert(self.stack@ =~= old_stack.drop_last().push(top));
            self.lemma_top_replaced(old_stack, top);
            if !r {
                assert(self.stack@ =~= old_stack);
            }
        }
        r
    }

    /// Carries out a transition requested by the active state, running the
    /// stop, pause, start and resume hooks it implies.
    fn apply(&mut self, trans: Trans)
        requires
            old(self).wf(),
            old(self).running(),
            old(self).has_room_spec(),
            trans_ok(trans),
        ensures
            final(self).wf(),
            final(self).world.assets.handed_out() == old(self).world.assets.handed_out(),
            final(self).world.resources.window_focused == old(self).world.resources.window_focused,
            match trans {
                Trans::Stay => final(self).same_as(old(self)),
                Trans::Quit => {
                    &&& !final(self).running()
                    &&& final(self).world.entities.live() == Set::<u64>::empty()
                },
                Trans::Pop => {
                    &&& final(self).stack@.len() == old(self).stack@.len() - 1
                    &&& forall|i: int|
                        0 <= i < old(self).stack@.len() - 2 ==> final(self).stack@[i]
                            == old(self).stack@[i]
                    &&& final(self).running() ==> final(self).top().kind() == old(
                        self,
                    ).stack@[old(self).stack@.len() - 2].kind()
                    &&& final(self).world.resources == if (final(self).running()
                        && final(self).top() is MainMenu) {
                        entered(
                            CurrentState::MainMenu,
                            exited(old(self).top().kind(), old(self).world.resources),
                        )
                    } else {
                        exited(old(self).top().kind(), old(self).world.resources)
                    }
                    &&& (final(self).running() && final(self).top() is MainMenu)
                        ==> final(self).top().owned().len() == 4
                    &&& (final(self).running() && final(self).top() is MainMenu)
                        ==> final(self).top().built(&final(self).world.entities)
                },
                Trans::Push(s) => {
                    &&& final(self).stack@.len() == old(self).stack@.len() + 1
                    &&& forall|i: int|
                        0 <= i < old(self).stack@.len() - 1 ==> final(self).stack@[i]
                            == old(self).stack@[i]
                    &&& final(self).stack@[old(self).stack@.len() - 1].kind() == old(
                        self,
                    ).top().kind()
                    &&& final(self).top().kind() == s.kind()
                    &&& final(self).top().owned().len() == crate::states::spawn_count(s.kind())
                    &&& final(self).world.resources == entered(s.kind(), old(self).world.resources)
                    &&& final(self).top().built(&final(self).world.entities)
                    &&& s is Gameplay ==> !final(self).top()->Gameplay_0.paused
                },
                Trans::Switch(s) => {
                    &&& final(self).stack@.len() == old(self).stack@.len()
                    &&& forall|i: int|
                        0 <= i < old(self).stack@.len() - 1 ==> final(self).stack@[i]
                            == old(self).stack@[i]
                    &&& final(self).top().kind() == s.kind()
                    &&& final(self).top().owned().len() == crate::states::spawn_count(s.kind())
                    &&& final(self).top().built(&final(self).world.entities)
                    &&& final(self).world.resources == entered(
                        s.kind(),
                        exited(old(self).top().kind(), old(self).world.resources),
                    )
                },
            },
    {
        let ghost old_stack = self.stack@;
        match trans {
            Trans::Stay => {},
            Trans::Pop => {
                let mut top = self.stack.pop().unwrap();
                proof {
                    assert(self.stack@ =~= old_stack.drop_last());
                    assert(top.owned() == self.world.entities.live());
                }
                top.on_stop(&mut self.world);
                assert(self.world.entities.live() =~= Set::<u64>::empty());
                if self.stack.len() > 0 {
                    let mut next = self.stack.pop().unwrap();
                    let ghost below = self.stack@;
                    proof {
                        assert(next == old_stack[old_stack.len() - 2]);
                        assert(state_ok(next));
                    }
                    next.on_resume(&mut self.world);
                    self.stack.push(next);
                    proof {
                        assert(self.stack@ =~= below.push(next));
                        assert(self.world.entities.live() =~= next.owned());
                        assert forall|i: int| 0 <= i < self.stack@.len() implies state_ok(
                            #[trigger] self.stack@[i],
                        ) by {
                            if i < self.stack@.len() - 1 {
                                assert(self.stack@[i] == old_stack[i]);
                            }
                        }
                        assert forall|i: int| 0 <= i < self.stack@.len() - 1 implies (
                        #[trigger] self.stack@[i]).owned() == Set::<u64>::empty() by {
                            assert(self.stack@[i] == old_stack[i]);
                        }
                    }
                }
            },
            Trans::Push(s) => {
                let mut top = self.stack.pop().unwrap();
                let ghost below = self.stack@;
                proof {
                    assert(below =~= old_stack.drop_last());
                    assert(top == old_stack.last());
                    assert(state_ok(top));
                }
                top.on_pause(&mut self.world);
                self.stack.push(top);
                let mut s = s;
                assert(self.world.entities.live() =~= Set::<u64>::empty());
                s.on_start(&mut self.world);
                self.stack.push(s);
                proof {
                    assert(self.stack@ =~= below.push(top).push(s));
                    assert(self.world.entities.live() =~= s.owned());
                    assert forall|i: int| 0 <= i < self.stack@.len() implies state_ok(
                        #[trigger] self.stack@[i],
                    ) by {
                        if i < self.stack@.len() - 2 {
                            assert(self.stack@[i] == old_stack[i]);
                        }
                    }
                    assert forall|i: int| 0 <= i < self.stack@.len() - 1 implies (
                    #[trigger] self.stack@[i]).owned() == Set::<u64>::empty() by {
                        if i < self.stack@.len() - 2 {
                            assert(self.stack@[i] == old_stack[i]);
                        }
                    }
                }
            },
            Trans::Switch(s) => {
                let mut top = self.stack.pop().unwrap();
                let ghost below = self.stack@;
                proof {
                    assert(below =~= old_stack.drop_last());
                    assert(top == old_stack.last());
                    assert(state_ok(top));
                }
                top.on_stop(&mut self.world);
                let mut s = s;
                assert(self.world.entities.live() =~= Set::<u64>::empty());
                s.on_start(&mut self.world);
                self.stack.push(s);
                proof {
                    assert(self.stack@ =~= below.push(s));
                    assert(self.world.entities.live() =~= s.owned());
                    assert forall|i: int| 0 <= i < self.stack@.len() implies state_ok(
                        #[trigger] self.stack@[i],
                    ) by {
                        if i < self.stack@.len() - 1 {
                            assert(self.stack@[i] == old_stack[i]);
                        }
                    }
                    assert forall|i: int| 0 <= i < self.stack@.len() - 1 implies (
                    #[trigger] self.stack@[i]).owned() == Set::<u64>::empty() by {
                        assert(self.stack@[i] == old_stack[i]);
                    }
                }
            },
            Trans::Quit => {
                while self.stack.len() > 0
                    invariant
                        self.stack_wf(),
                        self.world.assets.handed_out() == old(self).world.assets.handed_out(),
                        self.world.resources.window_focused
                            == old(self).world.resources.window_focused,
                    decreases self.stack@.len(),
                {
                    let ghost before = self.stack@;
                    let mut top = self.stack.pop().unwrap();
                    proof {
                        assert(self.stack@ =~= before.drop_last());
                        assert(top == before.last());
                        assert(state_ok(top));
                    }
                    top.on_stop(&mut self.world);
                    proof {
                        assert(self.world.entities.live() =~= Set::<u64>::empty());
                        assert forall|i: int| 0 <= i < self.stack@.len() implies state_ok(
                            #[trigger] self.stack@[i],
                        ) by {
                            assert(self.stack@[i] == before[i]);
                        }
                        assert forall|i: int| 0 <= i < self.stack@.len() - 1 implies (
                        #[trigger] self.stack@[i]).owned() == Set::<u64>::empty() by {
                            assert(self.stack@[i] == before[i]);
                        }
                        if self.stack@.len() > 0 {
                            assert(self.stack@.last() == before[before.len() - 2]);
                            assert(self.top().owned() == Set::<u64>::empty());
                        }
                        assert(self.world.entities.live() =~= self.owned_by_active());
                    }
                }
            },
        }
    }
}

} // verus!
