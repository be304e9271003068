//! The report transmitter's logic: the boot-keyboard report, how each key in
//! flight changes it, and when transmit power is reduced.
use vstd::prelude::*;

use crate::config::GUARDED_LAYER_TOGGLE;
use crate::debounce::{
    layer_key, layer_key_pair, reported, reported_store, Debounce, LifecycleState, Store,
};
use crate::layers::{resolve_of, toggled, HidKeyOrModifier, Layers, LayersView};
use crate::matrix::Key;

verus! {

/// The input report of a boot keyboard: a modifier byte, a reserved byte and
/// six keycode slots, a zero slot being free.
#[derive(Clone, Copy, Debug)]
pub struct KeyReport {
    pub modifiers: u8,
    pub reserved: u8,
    pub keys: [u8; 6],
}

/// A report as the contracts see it.
pub struct ReportView {
    pub modifiers: u8,
    pub keys: Seq<u8>,
}

impl View for KeyReport {
    type V = ReportView;

    open spec fn view(&self) -> ReportView {
        ReportView { modifiers: self.modifiers, keys: self.keys@ }
    }
}

/// The report with no key and no modifier.
pub open spec fn empty_report() -> ReportView {
    ReportView { modifiers: 0, keys: Seq::new(6, |i: int| 0u8) }
}

/// No key and no modifier is held.
pub open spec fn report_is_empty(v: ReportView) -> bool {
    v.modifiers == 0 && forall|i: int| 0 <= i < v.keys.len() ==> v.keys[i] == 0
}

/// No keycode stands in two slots.
pub open spec fn keys_distinct(s: Seq<u8>) -> bool {
    forall|i: int, j: int| 0 <= i < j < s.len() && s[i] != 0 ==> s[i] != s[j]
}

/// The first slot that holds `v`, or -1.
pub open spec fn first_index(s: Seq<u8>, v: u8) -> int
    decreases s.len(),
{
    if s.len() == 0 {
        -1
    } else if first_index(s.drop_last(), v) >= 0 {
        first_index(s.drop_last(), v)
    } else if s.last() == v {
        s.len() - 1
    } else {
        -1
    }
}

/// The slots after a key press: a keycode already held stays once; a new one
/// takes the first free slot; with no slot free it is dropped (the first six
/// keys win).
pub open spec fn keys_with(s: Seq<u8>, code: u8) -> Seq<u8> {
    if s.contains(code) || first_index(s, 0) < 0 {
        s
    } else {
        s.update(first_index(s, 0), code)
    }
}

/// The slots after a key release: the slot of the keycode is freed.
pub open spec fn keys_without(s: Seq<u8>, code: u8) -> Seq<u8> {
    if first_index(s, code) < 0 {
        s
    } else {
        s.update(first_index(s, code), 0)
    }
}

/// The report after the switch standing for `res` is pressed.
pub open spec fn press_into(v: ReportView, res: HidKeyOrModifier) -> ReportView {
    match res {
        HidKeyOrModifier::Modifier(b) => ReportView { modifiers: v.modifiers | b, ..v },
        HidKeyOrModifier::Key(c) => ReportView { keys: keys_with(v.keys, c), ..v },
        HidKeyOrModifier::Nothing => v,
    }
}

/// The report after the switch standing for `res` is released.
pub open spec fn release_from(v: ReportView, res: HidKeyOrModifier) -> ReportView {
    match res {
        HidKeyOrModifier::Modifier(b) => ReportView { modifiers: v.modifiers & !b, ..v },
        HidKeyOrModifier::Key(c) => ReportView { keys: keys_without(v.keys, c), ..v },
        HidKeyOrModifier::Nothing => v,
    }
}

/// Whether the layer key may flip the layer with the report as it is.
pub open spec fn toggle_allowed(v: ReportView) -> bool {
    !GUARDED_LAYER_TOGGLE || report_is_empty(v)
}

/// What one key in flight does to the layers and the report.
///
/// A pressed key enters the report, as its entry in the active layer says, on
/// the first pass that sees it, and leaves it once its debounce window has
/// passed and the aging task has marked it released. The window thus holds
/// the key in the report while contact bounce dies down; the press cannot
/// wait for the end of the window instead, because the scanner sees only
/// switches going down, and the end of the window is the only event from
/// which the release can be reported.
///
/// The layer key never enters the report. The first pass that sees it
/// pressed flips the layer, where the toggle policy allows it, and notes the
/// press as handled, so later passes over the same record flip nothing; its
/// release clears that note.
pub open spec fn entry_step(
    lv: LayersView,
    rv: ReportView,
    k: (i8, i8),
    lc: LifecycleState,
) -> (LayersView, ReportView) {
    match lc {
        LifecycleState::Pressed => if k == layer_key_pair() {
            if lv.layer_key_down {
                (lv, rv)
            } else if toggle_allowed(rv) {
                (LayersView { state: toggled(lv.state), layer_key_down: true, ..lv }, rv)
            } else {
                (LayersView { layer_key_down: true, ..lv }, rv)
            }
        } else {
            (lv, press_into(rv, resolve_of(lv, k, lv.state)))
        },
        LifecycleState::Released => if k == layer_key_pair() {
            (LayersView { layer_key_down: false, ..lv }, rv)
        } else {
            (lv, release_from(rv, resolve_of(lv, k, lv.state)))
        },
        LifecycleState::ReadyForRemoval => (lv, rv),
    }
}

/// The layers and report after the keys of `m` are taken in `order`.
pub open spec fn pass_of(
    lv: LayersView,
    rv: ReportView,
    m: Map<(i8, i8), Debounce>,
    order: Seq<(i8, i8)>,
) -> (LayersView, ReportView)
    decreases order.len(),
{
    if order.len() == 0 {
        (lv, rv)
    } else {
        let prev = pass_of(lv, rv, m, order.drop_last());
        entry_step(prev.0, prev.1, order.last(), m[order.last()].lifecycle)
    }
}

proof fn lemma_first_index_found(s: Seq<u8>, v: u8, i: int)
    requires
        0 <= i < s.len(),
        s[i] == v,
        forall|j: int| 0 <= j < i ==> s[j] != v,
    ensures
        first_index(s, v) == i,
    decreases s.len(),
{
    if i < s.len() - 1 {
        lemma_first_index_found(s.drop_last(), v, i);
    } else {
        lemma_first_index_absent(s.drop_last(), v);
    }
}

proof fn lemma_first_index_absent(s: Seq<u8>, v: u8)
    requires
        forall|j: int| 0 <= j < s.len() ==> s[j] != v,
    ensures
        first_index(s, v) == -1,
    decreases s.len(),
{
    if s.len() > 0 {
        lemma_first_index_absent(s.drop_last(), v);
    }
}

impl KeyReport {
    /// No keycode stands twice and the reserved byte is zero.
    pub open spec fn wf(&self) -> bool {
        self.reserved == 0 && keys_distinct(self.keys@)
    }

    /// The all-released report.
    pub fn new() -> (r: KeyReport)
        ensures
            r.wf(),
            r@ == empty_report(),
    {
        let r = KeyReport { modifiers: 0, reserved: 0, keys: [0u8; 6] };
        proof {
            assert(r.keys@ =~= Seq::new(6, |i: int| 0u8));
        }
        r
    }

    /// The first slot that holds `v`, if any.
    fn position(&self, v: u8) -> (r: Option<usize>)
        ensures
            r is Some ==> r->Some_0 < 6 && r->Some_0 == first_index(self.keys@, v)
                && self.keys@[r->Some_0 as int] == v,
            r is None ==> first_index(self.keys@, v) == -1 && !self.keys@.contains(v),
    {
        let mut i: usize = 0;
        while i < 6
            invariant
                i <= 6,
                forall|j: int| 0 <= j < i ==> self.keys@[j] != v,
            decreases 6 - i,
        {
            if self.keys[i] == v {
                proof {
                    lemma_first_index_found(self.keys@, v, i as int);
                }
                return Some(i);
            }
            i += 1;
        }
        proof {
            lemma_first_index_absent(self.keys@, v);
        }
        None
    }

    /// Puts a keycode in the first free slot, unless it is held already or no
    /// slot is free.
    pub fn press_key(&mut self, code: u8)
        requires
            old(self).wf(),
        ensures
            final(self).wf(),
            final(self)@ == (ReportView { keys: keys_with(old(self)@.keys, code), ..old(self)@ }),
    {
        let held = self.position(code);
        proof {
            if held is Some {
                assert(self.keys@[held->Some_0 as int] == code);
                assert(self.keys@.contains(code));
            }
        }
        if held.is_none() {
            let free = self.position(0);
            match free {
                Some(i) => {
                    proof {
                        if self.keys@.contains(code) {
                            let j = choose|j: int| 0 <= j < 6 && self.keys@[j] == code;
                            lemma_first_index_found(self.keys@, code, j);
                        }
                    }
                    self.keys[i] = code;
                },
                None => {},
            }
        }
        proof {
            assert(self@.keys =~= keys_with(old(self)@.keys, code));
        }
    }

    /// Frees the slot that holds a keycode, if one does.
    pub fn release_key(&mut self, code: u8)
        requires
            old(self).wf(),
        ensures
            final(self).wf(),
            final(self)@ == (ReportView { keys: keys_without(old(self)@.keys, code), ..old(self)@ }),
    {
        match self.position(code) {
            Some(i) => {
                self.keys[i] = 0;
            },
            None => {},
        }
        proof {
            assert(self@.keys =~= keys_without(old(self)@.keys, code));
        }
    }

    /// Sets a modifier bit.
    pub fn press_modifier(&mut self, bit: u8)
        requires
            old(self).wf(),
        ensures
            final(self).wf(),
            final(self)@ == (ReportView { modifiers: old(self)@.modifiers | bit, ..old(self)@ }),
    {
        self.modifiers = self.modifiers | bit;
    }

    /// Clears a modifier bit.
    pub fn release_modifier(&mut self, bit: u8)
        requires
            old(self).wf(),
        ensures
            final(self).wf(),
            final(self)@ == (ReportView { modifiers: old(self)@.modifiers & !bit, ..old(self)@ }),
    {
        self.modifiers = self.modifiers & !bit;
    }

    /// Enters what a pressed switch stands for.
    pub fn press(&mut self, res: HidKeyOrModifier)
        requires
            old(self).wf(),
        ensures
            final(self).wf(),
            final(self)@ == press_into(old(self)@, res),
    {
        match res {
            HidKeyOrModifier::Modifier(b) => self.press_modifier(b),
            HidKeyOrModifier::Key(c) => self.press_key(c),
            HidKeyOrModifier::Nothing => {},
        }
    }

    /// Takes out what a released switch stands for.
    pub fn release_entry(&mut self, res: HidKeyOrModifier)
        requires
            old(self).wf(),
        ensures
            final(self).wf(),
            final(self)@ == release_from(old(self)@, res),
    {
        match res {
            HidKeyOrModifier::Modifier(b) => self.release_modifier(b),
            HidKeyOrModifier::Key(c) => self.release_key(c),
            HidKeyOrModifier::Nothing => {},
        }
    }

    /// Clears every key and modifier.
    pub fn release(&mut self)
        ensures
            final(self).wf(),
            final(self)@ == empty_report(),
    {
        self.modifiers = 0;
        self.reserved = 0;
        self.keys = [0u8; 6];
        proof {
            assert(self.keys@ =~= Seq::new(6, |i: int| 0u8));
        }
    }

    /// Whether no key and no modifier is held.
    pub fn is_empty(&self) -> (r: bool)
        ensures
            r == report_is_empty(self@),
    {
        if self.modifiers != 0 {
            return false;
        }
        let mut i: usize = 0;
        while i < 6
            invariant
                i <= 6,
                forall|j: int| 0 <= j < i ==> self.keys@[j] == 0,
            decreases 6 - i,
        {
            if self.keys[i] != 0 {
                proof {
                    assert(self@.keys[i as int] != 0);
                    assert(!report_is_empty(self@));
                }
                return false;
            }
            i += 1;
        }
        true
    }

    /// The eight bytes sent on the wire: modifiers, reserved, six keycodes.
    pub fn to_bytes(&self) -> (r: [u8; 8])
        ensures
            r@ == seq![self.modifiers, self.reserved] + self.keys@,
    {
        let r = [
            self.modifiers,
            self.reserved,
            self.keys[0],
            self.keys[1],
            self.keys[2],
            self.keys[3],
            self.keys[4],
            self.keys[5],
        ];
        proof {
            assert(r@ =~= seq![self.modifiers, self.reserved] + self.keys@);
        }
        r
    }
}

/// Applies one key in flight to the layers and the report, as `entry_step`
/// says.
pub fn process_entry(
    layers: &mut Layers,
    report: &mut KeyReport,
    key: &Key,
    lifecycle: LifecycleState,
)
    requires
        old(report).wf(),
    ensures
        final(report).wf(),
        (final(layers)@, final(report)@) == entry_step(
            old(layers)@,
            old(report)@,
            key.pair(),
            lifecycle,
        ),
{
    let lk = layer_key();
    let is_layer_key = key.row == lk.row && key.col == lk.col;
    match lifecycle {
        LifecycleState::Pressed => {
            if is_layer_key {
                if !layers.layer_key_down {
                    if !GUARDED_LAYER_TOGGLE || report.is_empty() {
                        layers.set_layer(key.row, key.col);
                    }
                    layers.layer_key_down = true;
                }
            } else {
                let res = layers.resolve(key, layers.state);
                report.press(res);
            }
        },
        LifecycleState::Released => {
            if is_layer_key {
                layers.layer_key_down = false;
            } else {
                let res = layers.resolve(key, layers.state);
                report.release_entry(res);
            }
        },
        LifecycleState::ReadyForRemoval => {},
    }
}

/// One pass of the transmitter over the store: every key in flight, taken in
/// the store's order, goes into or out of the report (and the layer key flips
/// the layer), and every released key is marked ready for removal. The
/// report is then sent, and `remove_resolved` takes the marked keys out.
pub fn update_report(store: &mut Store, layers: &mut Layers, report: &mut KeyReport)
    requires
        old(store).wf(),
        old(report).wf(),
    ensures
        final(store).wf(),
        final(report).wf(),
        final(store)@ == reported_store(old(store)@),
        exists|order: Seq<(i8, i8)>|
            order.no_duplicates() && order.to_set() == old(store)@.dom() && #[trigger] pass_of(
                old(layers)@,
                old(report)@,
                old(store)@,
                order,
            ) == (final(layers)@, final(report)@),
{
    let keys = store.key_pairs();
    let ghost start = store@;
    let ghost lv0 = layers@;
    let ghost rv0 = report@;
    let mut i: usize = 0;
    proof {
        assert(keys@.take(0) =~= Seq::<(i8, i8)>::empty());
    }
    while i < keys.len()
        invariant
            store.wf(),
            report.wf(),
            0 <= i <= keys.len(),
            keys@.to_set() == start.dom(),
            keys@.no_duplicates(),
            store@.dom() == start.dom(),
            forall|j: int|
                0 <= j < i ==> #[trigger] store@[keys@[j]] == reported(start[keys@[j]]),
            forall|j: int| i <= j < keys.len() ==> #[trigger] store@[keys@[j]] == start[keys@[j]],
            pass_of(lv0, rv0, start, keys@.take(i as int)) == (layers@, report@),
        decreases keys.len() - i,
    {
        let k = keys[i];
        proof {
            assert(keys@.contains(k));
            assert(keys@.to_set().contains(k));
            assert(keys@.take(i as int + 1).drop_last() =~= keys@.take(i as int));
            assert(keys@.take(i as int + 1).last() == k);
        }
        let ghost before = store@;
        let key = Key::new(k.0, k.1);
        match store.get(&key) {
            Some(rec) => {
                process_entry(layers, report, &key, rec.lifecycle);
                if rec.lifecycle == LifecycleState::Released {
                    store.set_lifecycle(&key, LifecycleState::ReadyForRemoval);
                }
            },
            None => {},
        }
        proof {
            assert forall|j: int| 0 <= j < keys.len() && j != i implies store@[keys@[j]]
                == before[keys@[j]] by {
                assert(keys@[j] != keys@[i as int]);
            }
        }
        i += 1;
    }
    proof {
        assert(keys@.take(keys.len() as int) =~= keys@);
        assert forall|k: (i8, i8)| start.contains_key(k) implies store@[k] == reported(
            start[k],
        ) by {
            assert(keys@.to_set().contains(k));
            assert(keys@.contains(k));
            let j = choose|j: int| 0 <= j < keys.len() && keys@[j] == k;
            assert(store@[keys@[j]] == reported(start[keys@[j]]));
        }
        assert(store@ =~= reported_store(start));
    }
}

/// Whether the link is up, and whether transmit power has been reduced for
/// the current connection.
#[derive(Clone, Copy, Debug, PartialEq, Eq, Structural)]
pub struct PowerState {
    pub connected: bool,
    pub tx_power_reduced: bool,
}

/// The power state after the link is seen up or down, and whether transmit
/// power is to be reduced now: on the first sight of a connection only; a
/// disconnection re-arms it.
pub open spec fn power_step(s: PowerState, connected: bool) -> (PowerState, bool) {
    (
        PowerState { connected, tx_power_reduced: connected },
        connected && !s.tx_power_reduced,
    )
}

impl PowerState {
    /// Disconnected, with power not reduced.
    pub fn new() -> (r: PowerState)
        ensures
            !r.connected,
            !r.tx_power_reduced,
    {
        PowerState { connected: false, tx_power_reduced: false }
    }

    /// Records the link status; returns whether transmit power is to be
    /// reduced now.
    pub fn update(&mut self, connected: bool) -> (reduce_now: bool)
        ensures
            (*final(self), reduce_now) == power_step(*old(self), connected),
    {
        let reduce_now = connected && !self.tx_power_reduced;
        self.connected = connected;
        self.tx_power_reduced = connected;
        reduce_now
    }
}

/// The keycodes that the slots hold.
pub open spec fn held_codes(s: Seq<u8>) -> Set<u8> {
    s.to_set().filter(|c: u8| c != 0)
}

proof fn lemma_first_index_bounds(s: Seq<u8>, v: u8)
    ensures
        -1 <= first_index(s, v) < s.len(),
        first_index(s, v) >= 0 ==> s[first_index(s, v)] == v,
        first_index(s, v) < 0 ==> !s.contains(v),
    decreases s.len(),
{
    if s.len() > 0 {
        lemma_first_index_bounds(s.drop_last(), v);
        if first_index(s, v) < 0 {
            assert forall|j: int| 0 <= j < s.len() implies s[j] != v by {
                if j < s.len() - 1 {
                    assert(s.drop_last()[j] == s[j]);
                }
            }
        }
    }
}

/// Rollover: the six slots hold at most six distinct keycodes, none twice. A
/// key press keeps this so, and when all six slots hold other keys the new
/// keycode is dropped with the slots left as they were (the first six win).
pub proof fn lemma_rollover_bound(s: Seq<u8>, code: u8)
    requires
        s.len() == 6,
        keys_distinct(s),
    ensures
        keys_with(s, code).len() == 6,
        keys_distinct(keys_with(s, code)),
        held_codes(keys_with(s, code)).len() <= 6,
        !s.contains(code) && !s.contains(0) ==> keys_with(s, code) == s,
{
    lemma_first_index_bounds(s, 0);
    let t = keys_with(s, code);
    if !s.contains(code) && first_index(s, 0) >= 0 {
        assert forall|a: int, b: int| 0 <= a < b < t.len() && t[a] != 0 implies t[a] != t[b] by {
            assert(s[a] != code);
            assert(s[b] != code);
        }
    }
    broadcast use vstd::seq_lib::seq_to_set_is_finite;
    t.to_set().lemma_len_filter(|c: u8| c != 0);
    t.lemma_cardinality_of_set();
}

/// Toggling twice: starting with the layer key up, pressing and releasing it
/// twice, with no other key in flight, brings back the layer it started from
/// and leaves the report exactly as it was. The first press flips the layer
/// whenever the toggle policy allows it, and further passes over the same
/// press flip nothing.
pub proof fn lemma_layer_toggle_twice(lv: LayersView, rv: ReportView)
    requires
        !lv.layer_key_down,
    ensures
        ({
            let k = layer_key_pair();
            let s1 = entry_step(lv, rv, k, LifecycleState::Pressed);
            let s2 = entry_step(s1.0, s1.1, k, LifecycleState::Released);
            let s3 = entry_step(s2.0, s2.1, k, LifecycleState::Pressed);
            let s4 = entry_step(s3.0, s3.1, k, LifecycleState::Released);
            &&& s1.1 == rv
            &&& toggle_allowed(rv) ==> s1.0.state == toggled(lv.state)
            &&& entry_step(s1.0, s1.1, k, LifecycleState::Pressed) == s1
            &&& s4.0 == lv
            &&& s4.1 == rv
        }),
{
}

/// The power state and the number of power reductions after the link is
/// seen up or down as `events` lists it.
pub open spec fn power_run(s: PowerState, events: Seq<bool>) -> (PowerState, nat)
    decreases events.len(),
{
    if events.len() == 0 {
        (s, 0)
    } else {
        let prev = power_run(s, events.drop_last());
        let step = power_step(prev.0, events.last());
        (step.0, prev.1 + if step.1 {
            1nat
        } else {
            0nat
        })
    }
}

/// The number of connection sessions that begin in `events`: each link-up
/// that follows a link-down (the first follows `was_connected`).
pub open spec fn sessions_started(was_connected: bool, events: Seq<bool>) -> nat
    decreases events.len(),
{
    if events.len() == 0 {
        0
    } else {
        let before = if events.len() == 1 {
            was_connected
        } else {
            events[events.len() - 2]
        };
        sessions_started(was_connected, events.drop_last()) + if events.last() && !before {
            1nat
        } else {
            0nat
        }
    }
}

/// Power save once per session: over any run of link observations, transmit
/// power is reduced exactly once for each connection session, and is re-armed
/// only by a disconnection.
pub proof fn lemma_power_save_once_per_session(s: PowerState, events: Seq<bool>)
    requires
        s.tx_power_reduced == s.connected,
    ensures
        power_run(s, events).1 == sessions_started(s.connected, events),
        power_run(s, events).0.tx_power_reduced == power_run(s, events).0.connected,
        power_run(s, events).0.connected == if events.len() == 0 {
            s.connected
        } else {
            events.last()
        },
    decreases events.len(),
{
    if events.len() > 0 {
        lemma_power_save_once_per_session(s, events.drop_last());
        if events.len() > 1 {
            assert(events.drop_last().last() == events[events.len() - 2]);
        }
    }
}

/// First six win: while all six slots hold keys, a pass over presses of
/// other switches, none of them the layer key or a modifier, leaves the
/// layers and the report exactly as they were; every new keycode is dropped.
pub proof fn lemma_full_report_keeps_first_six(
    lv: LayersView,
    rv: ReportView,
    m: Map<(i8, i8), Debounce>,
    order: Seq<(i8, i8)>,
)
    requires
        rv.keys.len() == 6,
        !rv.keys.contains(0),
        forall|i: int|
            0 <= i < order.len() ==> m[#[trigger] order[i]].lifecycle == LifecycleState::Pressed
                && order[i] != layer_key_pair() && !(resolve_of(
                lv,
                order[i],
                lv.state,
            ) is Modifier),
    ensures
        pass_of(lv, rv, m, order) == (lv, rv),
    decreases order.len(),
{
    if order.len() > 0 {
        let init = order.drop_last();
        assert forall|i: int| 0 <= i < init.len() implies m[#[trigger] init[i]].lifecycle
            == LifecycleState::Pressed && init[i] != layer_key_pair() && !(resolve_of(
            lv,
            init[i],
            lv.state,
        ) is Modifier) by {
            assert(init[i] == order[i]);
        }
        lemma_full_report_keeps_first_six(lv, rv, m, init);
        let k = order.last();
        assert(order[order.len() - 1] == k);
        lemma_first_index_bounds(rv.keys, 0);
        let res = resolve_of(lv, k, lv.state);
        match res {
            HidKeyOrModifier::Key(c) => {
                assert(keys_with(rv.keys, c) == rv.keys);
            },
            _ => {},
        }
    }
}

} // verus!
