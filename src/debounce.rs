//! The store of keys in flight and the aging of their debounce records.
use vstd::prelude::*;

use crate::config::{
    DEBOUNCE_DELAY_MS, KEYBOARD_LEFT_SIDE, LAYER_DEBOUNCE_DELAY_MS, LAYER_KEY_LEFT_COL,
    LAYER_KEY_LEFT_ROW, LAYER_KEY_RIGHT_COL, LAYER_KEY_RIGHT_ROW, PRESSED_KEYS_INDEXMAP_SIZE,
};
use crate::matrix::Key;
use crate::storage::{
    pressed_get, pressed_insert, pressed_keys, pressed_keys_contents, pressed_len, pressed_new,
    pressed_remove, PressedKeys,
};

verus! {

/// Where a key in flight stands: pressed (its press is to be reported),
/// released (its debounce window is over and its release is to be reported),
/// or ready for removal (its release has been reported).
#[derive(Clone, Copy, Debug, PartialEq, Eq, Structural)]
pub enum LifecycleState {
    Pressed,
    Released,
    ReadyForRemoval,
}

/// The debounce record of a key in flight.
#[derive(Clone, Copy, Debug, PartialEq, Eq, Structural)]
pub struct Debounce {
    /// When the switch was first seen down, in milliseconds.
    pub pressed_at: u64,
    pub lifecycle: LifecycleState,
}

/// What became of an insertion into the store.
#[derive(Clone, Copy, Debug, PartialEq, Eq, Structural)]
pub enum InsertOutcome {
    Inserted,
    AlreadyPresent,
    /// The store was full: the event is dropped.
    Rejected,
}

/// The fixed-capacity store of keys in flight, shared by the scanner, the
/// aging task and the transmitter.
pub struct Store {
    map: PressedKeys,
}

impl View for Store {
    type V = Map<(i8, i8), Debounce>;

    closed spec fn view(&self) -> Map<(i8, i8), Debounce> {
        pressed_keys_contents(self.map)
    }
}

/// The coordinate of the layer key of this half of the keyboard.
pub open spec fn layer_key_pair() -> (i8, i8) {
    if KEYBOARD_LEFT_SIDE {
        (LAYER_KEY_LEFT_ROW, LAYER_KEY_LEFT_COL)
    } else {
        (LAYER_KEY_RIGHT_ROW, LAYER_KEY_RIGHT_COL)
    }
}

/// The layer key of this half of the keyboard.
pub fn layer_key() -> (r: Key)
    ensures
        r.pair() == layer_key_pair(),
{
    if KEYBOARD_LEFT_SIDE {
        Key::new(LAYER_KEY_LEFT_ROW, LAYER_KEY_LEFT_COL)
    } else {
        Key::new(LAYER_KEY_RIGHT_ROW, LAYER_KEY_RIGHT_COL)
    }
}

/// The debounce window of a key: longer for the layer key.
pub open spec fn debounce_delay_of(k: (i8, i8)) -> u64 {
    if k == layer_key_pair() {
        LAYER_DEBOUNCE_DELAY_MS
    } else {
        DEBOUNCE_DELAY_MS
    }
}

pub fn debounce_delay(key: &Key) -> (r: u64)
    ensures
        r == debounce_delay_of(key.pair()),
{
    let lk = layer_key();
    if key.row == lk.row && key.col == lk.col {
        LAYER_DEBOUNCE_DELAY_MS
    } else {
        DEBOUNCE_DELAY_MS
    }
}

/// Whether the debounce window of a record has passed at `now`.
pub open spec fn debounce_elapsed(k: (i8, i8), rec: Debounce, now: u64) -> bool {
    now >= rec.pressed_at + debounce_delay_of(k)
}

/// A record as the aging task leaves it at `now`: a pressed key whose window
/// has passed becomes released; any other record stays as it is.
pub open spec fn aged(k: (i8, i8), rec: Debounce, now: u64) -> Debounce {
    if rec.lifecycle == LifecycleState::Pressed && debounce_elapsed(k, rec, now) {
        Debounce { lifecycle: LifecycleState::Released, ..rec }
    } else {
        rec
    }
}

/// A record with another lifecycle state.
pub open spec fn with_lifecycle(rec: Debounce, state: LifecycleState) -> Debounce {
    Debounce { lifecycle: state, ..rec }
}

/// A record once the transmitter has taken it: a released key's release has
/// been reported, so it is ready for removal.
pub open spec fn reported(rec: Debounce) -> Debounce {
    if rec.lifecycle == LifecycleState::Released {
        with_lifecycle(rec, LifecycleState::ReadyForRemoval)
    } else {
        rec
    }
}

/// The store once the transmitter has taken every key of it.
pub open spec fn reported_store(m: Map<(i8, i8), Debounce>) -> Map<(i8, i8), Debounce> {
    Map::new(|k: (i8, i8)| m.contains_key(k), |k: (i8, i8)| reported(m[k]))
}


/// The rank of a lifecycle state in the order a key goes through them.
pub open spec fn lifecycle_rank(s: LifecycleState) -> nat {
    match s {
        LifecycleState::Pressed => 0,
        LifecycleState::Released => 1,
        LifecycleState::ReadyForRemoval => 2,
    }
}

/// A key's lifecycle only moves forward, one state at a time, and never
/// changes when the key was pressed: aging turns a pressed key released, and
/// only once `now` has reached its press time plus its debounce window; the
/// transmitter turns a released key ready for removal; nothing else moves.
pub proof fn lemma_debounce_monotonic(k: (i8, i8), rec: Debounce, now: u64)
    ensures
        aged(k, rec, now).pressed_at == rec.pressed_at,
        aged(k, rec, now) == rec || (rec.lifecycle == LifecycleState::Pressed && aged(
            k,
            rec,
            now,
        ).lifecycle == LifecycleState::Released && now >= rec.pressed_at + debounce_delay_of(k)),
        reported(rec).pressed_at == rec.pressed_at,
        reported(rec) == rec || (rec.lifecycle == LifecycleState::Released
            && reported(rec).lifecycle == LifecycleState::ReadyForRemoval),
        lifecycle_rank(rec.lifecycle) <= lifecycle_rank(aged(k, rec, now).lifecycle)
            <= lifecycle_rank(rec.lifecycle) + 1,
        lifecycle_rank(rec.lifecycle) <= lifecycle_rank(reported(rec).lifecycle)
            <= lifecycle_rank(rec.lifecycle) + 1,
{
}

impl Store {
    /// The store holds at most its capacity of keys.
    pub open spec fn wf(&self) -> bool {
        self@.dom().finite() && self@.len() <= PRESSED_KEYS_INDEXMAP_SIZE
    }

    /// What an insertion of a key comes to: a held key keeps its record; a new
    /// one enters while there is room and is rejected otherwise.
    pub open spec fn insert_outcome(m: Map<(i8, i8), Debounce>, k: (i8, i8)) -> InsertOutcome {
        if m.contains_key(k) {
            InsertOutcome::AlreadyPresent
        } else if m.len() < PRESSED_KEYS_INDEXMAP_SIZE {
            InsertOutcome::Inserted
        } else {
            InsertOutcome::Rejected
        }
    }

    /// The store after an insertion of a key, as `insert_outcome` decides it.
    pub open spec fn inserted(m: Map<(i8, i8), Debounce>, k: (i8, i8), rec: Debounce) -> Map<
        (i8, i8),
        Debounce,
    > {
        if Self::insert_outcome(m, k) == InsertOutcome::Inserted {
            m.insert(k, rec)
        } else {
            m
        }
    }

    pub fn new() -> (r: Store)
        ensures
            r.wf(),
            r@ == Map::<(i8, i8), Debounce>::empty(),
    {
        let r = Store { map: pressed_new() };
        proof {
            assert(r@ =~= Map::<(i8, i8), Debounce>::empty());
        }
        r
    }

    pub fn len(&self) -> (r: usize)
        ensures
            r == self@.len(),
    {
        pressed_len(&self.map)
    }

    pub fn is_empty(&self) -> (r: bool)
        ensures
            r == (self@.len() == 0),
    {
        pressed_len(&self.map) == 0
    }

    pub fn contains(&self, key: &Key) -> (r: bool)
        ensures
            r == self@.contains_key(key.pair()),
    {
        pressed_get(&self.map, &(key.row, key.col)).is_some()
    }

    pub fn get(&self, key: &Key) -> (r: Option<Debounce>)
        ensures
            r == self@.index_opt(key.pair()),
    {
        pressed_get(&self.map, &(key.row, key.col))
    }

    /// Adds `rec` for a key not yet held, while there is room. A key already
    /// held keeps its record; past the capacity nothing changes and the
    /// insertion is rejected, never a panic.
    pub fn insert_if_absent(&mut self, key: &Key, rec: Debounce) -> (r: InsertOutcome)
        requires
            old(self).wf(),
        ensures
            final(self).wf(),
            r == Self::insert_outcome(old(self)@, key.pair()),
            final(self)@ == Self::inserted(old(self)@, key.pair(), rec),
    {
        let k = (key.row, key.col);
        if pressed_get(&self.map, &k).is_some() {
            InsertOutcome::AlreadyPresent
        } else {
            match pressed_insert(&mut self.map, k, rec) {
                Ok(_) => InsertOutcome::Inserted,
                Err(_) => InsertOutcome::Rejected,
            }
        }
    }

    /// Moves a held key to another lifecycle state.
    pub fn set_lifecycle(&mut self, key: &Key, state: LifecycleState)
        requires
            old(self).wf(),
            old(self)@.contains_key(key.pair()),
        ensures
            final(self).wf(),
            final(self)@ == old(self)@.insert(
                key.pair(),
                with_lifecycle(old(self)@[key.pair()], state),
            ),
    {
        self.set_lifecycle_at((key.row, key.col), state);
    }

    fn set_lifecycle_at(&mut self, k: (i8, i8), state: LifecycleState)
        requires
            old(self).wf(),
            old(self)@.contains_key(k),
        ensures
            final(self).wf(),
            final(self)@ == old(self)@.insert(k, with_lifecycle(old(self)@[k], state)),
    {
        let current = pressed_get(&self.map, &k);
        match current {
            Some(rec) => {
                let _ = pressed_insert(
                    &mut self.map,
                    k,
                    Debounce { pressed_at: rec.pressed_at, lifecycle: state },
                );
                proof {
                    assert(old(self)@.insert(k, with_lifecycle(old(self)@[k], state)).dom()
                        =~= old(self)@.dom());
                }
            },
            None => {},
        }
    }

    /// Takes a key out of the store, returning its record if it was held.
    pub fn remove(&mut self, key: &Key) -> (r: Option<Debounce>)
        requires
            old(self).wf(),
        ensures
            final(self).wf(),
            r == old(self)@.index_opt(key.pair()),
            final(self)@ == old(self)@.remove(key.pair()),
    {
        let r = pressed_remove(&mut self.map, &(key.row, key.col));
        proof {
            if old(self)@.contains_key(key.pair()) {
                assert(final(self)@.len() < old(self)@.len()) by {
                    vstd::set::axiom_set_remove_len(old(self)@.dom(), key.pair());
                }
            } else {
                assert(old(self)@.remove(key.pair()) =~= old(self)@);
            }
        }
        r
    }

    /// Each key held, once.
    pub(crate) fn key_pairs(&self) -> (r: Vec<(i8, i8)>)
        ensures
            r@.to_set() == self@.dom(),
            r@.no_duplicates(),
    {
        pressed_keys(&self.map)
    }
}

/// The store as one aging pass at `now` leaves it.
pub open spec fn aged_store(m: Map<(i8, i8), Debounce>, now: u64) -> Map<(i8, i8), Debounce> {
    Map::new(|k: (i8, i8)| m.contains_key(k), |k: (i8, i8)| aged(k, m[k], now))
}

/// The store without the keys whose release has been reported.
pub open spec fn without_resolved(m: Map<(i8, i8), Debounce>) -> Map<(i8, i8), Debounce> {
    Map::new(
        |k: (i8, i8)| m.contains_key(k) && m[k].lifecycle != LifecycleState::ReadyForRemoval,
        |k: (i8, i8)| m[k],
    )
}

/// One pass of the aging task: every pressed key whose debounce window has
/// passed at `now` becomes released. Nothing enters or leaves the store.
pub fn calculate_debounce(store: &mut Store, now: u64)
    requires
        old(store).wf(),
    ensures
        final(store).wf(),
        final(store)@ == aged_store(old(store)@, now),
{
    let keys = store.key_pairs();
    let ghost start = store@;
    let mut i: usize = 0;
    while i < keys.len()
        invariant
            store.wf(),
            0 <= i <= keys.len(),
            keys@.to_set() == start.dom(),
            keys@.no_duplicates(),
            store@.dom() == start.dom(),
            forall|j: int|
                0 <= j < i ==> #[trigger] store@[keys@[j]] == aged(keys@[j], start[keys@[j]], now),
            forall|j: int| i <= j < keys.len() ==> #[trigger] store@[keys@[j]] == start[keys@[j]],
        decreases keys.len() - i,
    {
        let k = keys[i];
        proof {
            assert(keys@.contains(k));
            assert(keys@.to_set().contains(k));
        }
        let ghost before = store@;
        let current = pressed_get(&store.map, &k);
        match current {
            Some(rec) => {
                let delay = debounce_delay(&Key::new(k.0, k.1));
                if rec.lifecycle == LifecycleState::Pressed && now >= rec.pressed_at && now
                    - rec.pressed_at >= delay {
                    store.set_lifecycle_at(k, LifecycleState::Released);
                }
            },
            None => {},
        }
        proof {
            assert forall|j: int| 0 <= j < keys.len() && j != i implies store@[keys@[j]]
                == before[keys@[j]] by {
                assert(keys@[j] != keys@[i as int]);
            }
        }
        i += 1;
    }
    proof {
        assert forall|k: (i8, i8)| start.contains_key(k) implies store@[k] == aged(
            k,
            start[k],
            now,
        ) by {
            assert(keys@.to_set().contains(k));
            assert(keys@.contains(k));
            let j = choose|j: int| 0 <= j < keys.len() && keys@[j] == k;
            assert(store@[keys@[j]] == aged(keys@[j], start[keys@[j]], now));
        }
        assert(store@ =~= aged_store(start, now));
    }
}

/// Takes out of the store every key whose release has been reported.
pub fn remove_resolved(store: &mut Store)
    requires
        old(store).wf(),
    ensures
        final(store).wf(),
        final(store)@ == without_resolved(old(store)@),
{
    let keys = store.key_pairs();
    let ghost start = store@;
    let mut i: usize = 0;
    while i < keys.len()
        invariant
            store.wf(),
            0 <= i <= keys.len(),
            keys@.to_set() == start.dom(),
            keys@.no_duplicates(),
            store@.dom().subset_of(start.dom()),
            forall|k: (i8, i8)| #[trigger] store@.contains_key(k) ==> store@[k] == start[k],
            forall|j: int|
                0 <= j < i ==> (#[trigger] store@.contains_key(keys@[j]) <==> start[keys@[j]].lifecycle
                    != LifecycleState::ReadyForRemoval),
            forall|j: int| i <= j < keys.len() ==> #[trigger] store@.contains_key(keys@[j]),
        decreases keys.len() - i,
    {
        let k = keys[i];
        proof {
            assert(keys@.contains(k));
            assert(keys@.to_set().contains(k));
        }
        let ghost before = store@;
        let current = pressed_get(&store.map, &k);
        match current {
            Some(rec) => {
                if rec.lifecycle == LifecycleState::ReadyForRemoval {
                    store.remove(&Key::new(k.0, k.1));
                }
            },
            None => {},
        }
        proof {
            assert forall|j: int| 0 <= j < keys.len() && j != i implies store@.contains_key(
                keys@[j],
            ) == before.contains_key(keys@[j]) by {
                assert(keys@[j] != keys@[i as int]);
            }
        }
        i += 1;
    }
    proof {
        assert forall|k: (i8, i8)| #[trigger] store@.contains_key(k) == (start.contains_key(k)
            && start[k].lifecycle != LifecycleState::ReadyForRemoval) by {
            if start.contains_key(k) {
                assert(keys@.to_set().contains(k));
                assert(keys@.contains(k));
                let j = choose|j: int| 0 <= j < keys.len() && keys@[j] == k;
                assert(store@.contains_key(keys@[j]) <==> start[keys@[j]].lifecycle
                    != LifecycleState::ReadyForRemoval);
            }
        }
        assert(store@ =~= without_resolved(start));
    }
}

/// Draining: once every key in flight is past its debounce window, one round
/// of aging, reporting and removal empties the store; no key is left behind.
pub proof fn lemma_drain(m: Map<(i8, i8), Debounce>, now: u64)
    requires
        forall|k: (i8, i8)| #[trigger] m.contains_key(k) ==> debounce_elapsed(k, m[k], now),
    ensures
        without_resolved(reported_store(aged_store(m, now))).dom() == Set::<(i8, i8)>::empty(),
{
    assert(without_resolved(reported_store(aged_store(m, now))).dom() =~= Set::<
        (i8, i8),
    >::empty());
}

} // verus!
