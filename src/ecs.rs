//! The entity store the scene states create into and destroy from, the
//! resources shared with per-frame systems, and the per-state ledger of owned
//! entities.

use crate::progress::{CounterOp, ProgressCounter};
use vstd::prelude::*;

verus! {

/// Which scene is active; read by the camera and rotation systems.
#[derive(Clone, Copy, Debug, PartialEq, Eq, Structural)]
pub enum CurrentState {
    Loading,
    MainMenu,
    Gameplay,
}

/// An opaque entity identifier.
#[derive(Clone, Copy, Debug, PartialEq, Eq, Structural)]
pub struct Entity {
    pub id: u64,
}

/// A handle to an asset whose load was requested.
#[derive(Clone, Copy, Debug, PartialEq, Eq, Structural)]
pub struct AssetHandle {
    pub id: u64,
}

/// What an entity is made of, as far as the scenes decide it: a UI layout
/// instance, a model with its material and mesh (and whether it turns on
/// its own), a light or a camera.
#[derive(Clone, Copy, Debug, PartialEq, Eq, Structural)]
pub enum Component {
    Ui(AssetHandle),
    Model { mtl: AssetHandle, mesh: AssetHandle, rotates: bool },
    Light,
    Camera,
}

/// Deleting an entity that is not alive.
#[derive(Clone, Copy, Debug, PartialEq, Eq, Structural)]
pub struct EntityNotFound {
    pub entity: Entity,
}

/// A requested asset load, to be carried out by a background worker.
pub struct LoadRequest {
    pub handle: AssetHandle,
    pub path: String,
}

/// The number of live entries among `s`.
pub open spec fn count_live(s: Seq<bool>) -> nat
    decreases s.len(),
{
    if s.len() == 0 {
        0
    } else {
        count_live(s.drop_last()) + if s.last() { 1nat } else { 0nat }
    }
}

proof fn lemma_count_live_clear(s: Seq<bool>, i: int)
    requires
        0 <= i < s.len(),
        s[i],
    ensures
        count_live(s.update(i, false)) + 1 == count_live(s),
    decreases s.len(),
{
    let t = s.update(i, false);
    if i == s.len() - 1 {
        assert(t.drop_last() =~= s.drop_last());
    } else {
        lemma_count_live_clear(s.drop_last(), i);
        assert(t.drop_last() =~= s.drop_last().update(i, false));
    }
}

/// The resources shared with the per-frame systems.
#[derive(Clone, Copy, Debug, PartialEq, Eq, Structural)]
pub struct Resources {
    pub current_state: CurrentState,
    /// Whether gameplay input is to be processed: set while gameplay runs,
    /// cleared when it exits.
    pub gameplay_active: bool,
    pub hide_cursor: bool,
    pub window_focused: bool,
}

impl Resources {
    /// Whether gameplay input is taken: the gameplay flag is set, the window has
    /// focus and the cursor is captured. Camera rotation and movement run
    /// only then.
    pub fn gameplay_input_active(&self) -> (r: bool)
        ensures
            r == (self.gameplay_active && self.window_focused && self.hide_cursor),
    {
        self.gameplay_active && self.window_focused && self.hide_cursor
    }

    /// Whether the menu model turns: only while the main menu is active.
    pub fn menu_rotation_active(&self) -> (r: bool)
        ensures
            r == (self.current_state == CurrentState::MainMenu),
    {
        self.current_state == CurrentState::MainMenu
    }
}

/// The live entities. Identifiers are never reused, so a destroyed entity
/// stays dead.
pub struct EntityStore {
    slots: Vec<bool>,
    components: Vec<Component>,
    alive: u64,
}

impl EntityStore {
    /// The identifiers of the live entities.
    pub closed spec fn live(&self) -> Set<u64> {
        Set::new(|id: u64| (id as int) < self.slots@.len() && self.slots@[id as int])
    }

    /// What the entity `id` was created with.
    pub closed spec fn component(&self, id: u64) -> Component {
        self.components@[id as int]
    }

    /// Every entity of `ids` still has the component it had in `before`.
    pub open spec fn keeps_components(&self, before: &EntityStore, ids: Set<u64>) -> bool {
        forall|id: u64| ids.contains(id) ==> #[trigger] self.component(id) == before.component(id)
    }

    /// How many more entities can be created.
    pub closed spec fn room(&self) -> int {
        usize::MAX - self.slots@.len()
    }

    pub closed spec fn num_live(&self) -> nat {
        count_live(self.slots@)
    }

    pub closed spec fn wf(&self) -> bool {
        &&& self.alive as nat == count_live(self.slots@)
        &&& self.alive <= self.slots@.len()
        &&& self.components@.len() == self.slots@.len()
    }

    pub open spec fn has_room(&self, n: nat) -> bool {
        self.room() >= n
    }

    pub fn new() -> (r: EntityStore)
        ensures
            r.wf(),
            r.live() == Set::<u64>::empty(),
            r.num_live() == 0,
            r.room() == usize::MAX,
    {
        let r = EntityStore { slots: Vec::new(), components: Vec::new(), alive: 0 };
        assert(r.live() =~= Set::<u64>::empty());
        r
    }

    /// Creates an entity with a fresh identifier, made of `component`.
    pub fn create_entity(&mut self, component: Component) -> (e: Entity)
        requires
            old(self).wf(),
            old(self).has_room(1),
        ensures
            final(self).wf(),
            !old(self).live().contains(e.id),
            final(self).live() == old(self).live().insert(e.id),
            final(self).component(e.id) == component,
            final(self).keeps_components(old(self), old(self).live()),
            final(self).num_live() == old(self).num_live() + 1,
            final(self).room() == old(self).room() - 1,
    {
        let ghost before = self.slots@;
        let id = self.slots.len() as u64;
        self.slots.push(true);
        self.components.push(component);
        assert(self.slots@.drop_last() =~= before);
        self.alive = self.alive + 1;
        assert(self.live() =~= old(self).live().insert(id));
        Entity { id }
    }

    /// Destroys a live entity; anything else is refused.
    pub fn delete_entity(&mut self, e: Entity) -> (r: Result<(), EntityNotFound>)
        requires
            old(self).wf(),
        ensures
            final(self).wf(),
            r is Ok <==> old(self).live().contains(e.id),
            r is Err ==> r->Err_0 == (EntityNotFound { entity: e }),
            final(self).live() == old(self).live().remove(e.id),
            forall|id: u64| #[trigger] final(self).component(id) == old(self).component(id),
            r is Ok ==> final(self).num_live() + 1 == old(self).num_live(),
            r is Err ==> final(self).num_live() == old(self).num_live(),
            final(self).room() == old(self).room(),
    {
        if e.id < self.slots.len() as u64 && self.slots[e.id as usize] {
            proof {
                lemma_count_live_clear(self.slots@, e.id as int);
            }
            self.slots.set(e.id as usize, false);
            self.alive = self.alive - 1;
            assert(self.live() =~= old(self).live().remove(e.id));
            Ok(())
        } else {
            assert(self.live() =~= old(self).live().remove(e.id));
            Err(EntityNotFound { entity: e })
        }
    }

    pub fn room_left(&self) -> (r: usize)
        ensures
            r == self.room(),
    {
        usize::MAX - self.slots.len()
    }

    /// What a live entity is made of; `None` for one that is not alive.
    pub fn component_of(&self, e: Entity) -> (r: Option<Component>)
        requires
            self.wf(),
        ensures
            r == if self.live().contains(e.id) {
                Some(self.component(e.id))
            } else {
                None
            },
    {
        if e.id < self.slots.len() as u64 && self.slots[e.id as usize] {
            Some(self.components[e.id as usize])
        } else {
            None
        }
    }

    pub fn is_alive(&self, e: Entity) -> (r: bool)
        ensures
            r == self.live().contains(e.id),
    {
        e.id < self.slots.len() as u64 && self.slots[e.id as usize]
    }

    /// The number of live entities.
    pub fn num_alive(&self) -> (r: u64)
        requires
            self.wf(),
        ensures
            r == self.num_live(),
    {
        self.alive
    }
}

/// The asset loads requested so far, and how many were handed to workers.
pub struct AssetQueue {
    paths: Vec<String>,
    handed_out: usize,
}

impl AssetQueue {
    /// Paths of every asset requested so far, in request order.
    pub closed spec fn requested(&self) -> Seq<Seq<char>> {
        self.paths@.map_values(|p: String| p@)
    }

    /// Number of requests already handed to workers.
    pub closed spec fn handed_out(&self) -> nat {
        self.handed_out as nat
    }

    pub closed spec fn wf(&self) -> bool {
        self.handed_out <= self.paths@.len()
    }

    pub open spec fn has_room(&self, n: nat) -> bool {
        self.requested().len() + n <= usize::MAX
    }

    pub fn new() -> (r: AssetQueue)
        ensures
            r.wf(),
            r.requested() == Seq::<Seq<char>>::empty(),
            r.handed_out() == 0,
    {
        let r = AssetQueue { paths: Vec::new(), handed_out: 0 };
        assert(r.requested() =~= Seq::<Seq<char>>::empty());
        r
    }

    pub fn room_left(&self) -> (r: usize)
        requires
            self.wf(),
        ensures
            self.has_room(r as nat),
            !self.has_room(r as nat + 1),
    {
        usize::MAX - self.paths.len()
    }

    /// Requests the load of the asset at `path` and registers it as one task
    /// of `progress`.
    pub fn load(&mut self, path: &str, progress: &mut ProgressCounter) -> (h: AssetHandle)
        requires
            old(self).wf(),
            old(self).has_room(1),
            old(progress).wf(),
            old(progress)@.allows(CounterOp::Register(1)),
        ensures
            final(self).wf(),
            h.id == old(self).requested().len(),
            final(self).requested() == old(self).requested().push(path@),
            final(self).handed_out() == old(self).handed_out(),
            final(progress).wf(),
            final(progress)@ == old(progress)@.step(CounterOp::Register(1)),
    {
        let id = self.paths.len() as u64;
        self.paths.push(path.to_owned());
        assert(self.requested() =~= old(self).requested().push(path@));
        progress.register(1);
        AssetHandle { id }
    }

    /// Hands out the requests made since the last call, in request order.
    pub fn take_requests(&mut self) -> (r: Vec<LoadRequest>)
        requires
            old(self).wf(),
        ensures
            final(self).wf(),
            r@.len() == old(self).requested().len() - old(self).handed_out(),
            forall|k: int|
                0 <= k < r@.len() ==> {
                    &&& #[trigger] r@[k].handle.id == old(self).handed_out() + k
                    &&& r@[k].path@ == old(self).requested()[old(self).handed_out() + k]
                },
            final(self).handed_out() == old(self).requested().len(),
            final(self).requested() == old(self).requested(),
    {
        let mut r: Vec<LoadRequest> = Vec::new();
        let mut i: usize = self.handed_out;
        while i < self.paths.len()
            invariant
                self.handed_out <= i <= self.paths@.len(),
                self.paths@ == old(self).paths@,
                self.handed_out == old(self).handed_out,
                r@.len() == i - self.handed_out,
                forall|k: int|
                    0 <= k < r@.len() ==> {
                        &&& #[trigger] r@[k].handle.id == self.handed_out + k
                        &&& r@[k].path@ == self.paths@[self.handed_out + k]@
                    },
            decreases self.paths@.len() - i,
        {
            let path = self.paths[i].clone();
            let ghost before = r@;
            r.push(LoadRequest { handle: AssetHandle { id: i as u64 }, path });
            assert(r@[r@.len() - 1].path@ == self.paths@[i as int]@);
            assert forall|k: int| 0 <= k < r@.len() implies {
                &&& #[trigger] r@[k].handle.id == self.handed_out + k
                &&& r@[k].path@ == self.paths@[self.handed_out + k]@
            } by {
                if k < before.len() {
                    assert(r@[k] == before[k]);
                }
            }
            i = i + 1;
        }
        self.handed_out = self.paths.len();
        r
    }
}

/// Everything the scene states act on.
pub struct World {
    pub entities: EntityStore,
    pub assets: AssetQueue,
    pub resources: Resources,
}

impl World {
    pub open spec fn wf(&self) -> bool {
        self.entities.wf() && self.assets.wf()
    }

    /// An empty world in the loading state, with a focused window and a
    /// visible cursor.
    pub fn new() -> (r: World)
        ensures
            r.wf(),
            r.entities.live() == Set::<u64>::empty(),
            r.entities.num_live() == 0,
            r.entities.room() == usize::MAX,
            r.assets.requested() == Seq::<Seq<char>>::empty(),
            r.assets.handed_out() == 0,
            r.resources == (Resources {
                current_state: CurrentState::Loading,
                gameplay_active: false,
                hide_cursor: false,
                window_focused: true,
            }),
    {
        World {
            entities: EntityStore::new(),
            assets: AssetQueue::new(),
            resources: Resources {
                current_state: CurrentState::Loading,
                gameplay_active: false,
                hide_cursor: false,
                window_focused: true,
            },
        }
    }
}

/// The entities one scene state has created and must destroy, each exactly
/// once.
pub struct EntityLedger {
    entities: Vec<Entity>,
}

impl EntityLedger {
    pub closed spec fn ids(&self) -> Seq<u64> {
        self.entities@.map_values(|e: Entity| e.id)
    }

    /// The identifiers recorded in this ledger.
    pub open spec fn owned(&self) -> Set<u64> {
        Set::new(|id: u64| self.ids().contains(id))
    }

    /// No entity is recorded twice.
    pub open spec fn wf(&self) -> bool {
        self.ids().no_duplicates()
    }

    /// Every recorded entity is alive in `store`.
    pub open spec fn alive_in(&self, store: &EntityStore) -> bool {
        self.owned().subset_of(store.live())
    }

    pub fn new() -> (r: EntityLedger)
        ensures
            r.wf(),
            r.owned() == Set::<u64>::empty(),
    {
        let r = EntityLedger { entities: Vec::new() };
        assert(r.owned() =~= Set::<u64>::empty());
        r
    }

    /// The recorded entities, oldest first.
    pub fn entities(&self) -> (r: Vec<Entity>)
        ensures
            r@.map_values(|e: Entity| e.id) == self.ids(),
    {
        let mut r: Vec<Entity> = Vec::new();
        let mut i: usize = 0;
        while i < self.entities.len()
            invariant
                i <= self.entities@.len(),
                r@ == self.entities@.take(i as int),
            decreases self.entities@.len() - i,
        {
            r.push(self.entities[i]);
            i = i + 1;
            assert(r@ =~= self.entities@.take(i as int));
        }
        assert(r@ =~= self.entities@);
        r
    }

    /// Creates an entity made of `component` in `store` and records it.
    pub fn create(&mut self, store: &mut EntityStore, component: Component) -> (e: Entity)
        requires
            old(self).wf(),
            old(self).alive_in(old(store)),
            old(store).wf(),
            old(store).has_room(1),
        ensures
            final(self).wf(),
            final(self).alive_in(final(store)),
            final(store).wf(),
            !old(store).live().contains(e.id),
            final(store).live() == old(store).live().insert(e.id),
            final(store).component(e.id) == component,
            final(store).keeps_components(old(store), old(store).live()),
            final(self).owned() == old(self).owned().insert(e.id),
            final(store).num_live() == old(store).num_live() + 1,
            final(store).room() == old(store).room() - 1,
    {
        let e = store.create_entity(component);
        self.entities.push(e);
        proof {
            assert(self.ids() =~= old(self).ids().push(e.id));
            assert(!old(self).ids().contains(e.id));
            assert forall|a: int, b: int|
                0 <= a < b < self.ids().len() implies self.ids()[a] != self.ids()[b] by {
                if b == self.ids().len() - 1 {
                    assert(old(self).ids().contains(old(self).ids()[a]));
                }
            }
            assert(self.owned() =~= old(self).owned().insert(e.id)) by {
                assert forall|id: u64| self.ids().contains(id) implies old(self).ids().contains(id)
                    || id == e.id by {
                    let k = choose|k: int| 0 <= k < self.ids().len() && self.ids()[k] == id;
                    if k < old(self).ids().len() {
                        assert(old(self).ids()[k] == id);
                    }
                }
                assert forall|id: u64| old(self).ids().contains(id) implies self.ids().contains(
                    id,
                ) by {
                    let k = choose|k: int| 0 <= k < old(self).ids().len() && old(self).ids()[k] == id;
                    assert(self.ids()[k] == id);
                }
                assert(self.ids()[self.ids().len() - 1] == e.id);
            }
        }
        e
    }

    /// Destroys every recorded entity, each once, and empties the ledger.
    pub fn release_all(&mut self, store: &mut EntityStore)
        requires
            old(self).wf(),
            old(self).alive_in(old(store)),
            old(store).wf(),
        ensures
            final(self).wf(),
            final(self).owned() == Set::<u64>::empty(),
            final(store).wf(),
            final(store).live() == old(store).live().difference(old(self).owned()),
            forall|id: u64| #[trigger] final(store).component(id) == old(store).component(id),
            final(store).room() == old(store).room(),
    {
        let ghost start = old(self).ids();
        while self.entities.len() > 0
            invariant
                store.wf(),
                self.ids() == start.take(self.ids().len() as int),
                self.ids().len() <= start.len(),
                start.no_duplicates(),
                start == old(self).ids(),
                forall|id: u64|
                    #[trigger] store.live().contains(id) <==> (old(store).live().contains(id)
                        && !old(self).owned().contains(id)) || self.ids().contains(id),
                store.room() == old(store).room(),
                forall|id: u64| #[trigger] store.component(id) == old(store).component(id),
            decreases self.entities@.len(),
        {
            let ghost before = self.ids();
            let e = self.entities.pop().unwrap();
            proof {
                assert(self.ids() =~= before.drop_last());
                assert(before.last() == e.id);
                assert(before.contains(e.id));
                assert(self.ids() == start.take(self.ids().len() as int));
                assert(!self.ids().contains(e.id)) by {
                    if self.ids().contains(e.id) {
                        let k = choose|k: int| 0 <= k < self.ids().len() && self.ids()[k] == e.id;
                        assert(start[k] == start[before.len() - 1]);
                    }
                }
                assert forall|id: u64| self.ids().contains(id) implies before.contains(id) by {
                    let k = choose|k: int| 0 <= k < self.ids().len() && self.ids()[k] == id;
                    assert(before[k] == id);
                }
                assert forall|id: u64| before.contains(id) && id != e.id implies self.ids().contains(id) by {
                    let k = choose|k: int| 0 <= k < before.len() && before[k] == id;
                    assert(self.ids()[k] == id);
                }
            }
            let _ = store.delete_entity(e);
        }
        proof {
            assert(self.owned() =~= Set::<u64>::empty());
            assert(store.live() =~= old(store).live().difference(old(self).owned()));
            assert(self.ids().len() == 0);
        }
    }
}

} // verus!
