//! The matrix scanner's logic: which switches become keys in flight, and the
//! idle-sleep state machine that the scanning drives.
use vstd::prelude::*;

use crate::config::{COLS, PRESSED_KEYS_INDEXMAP_SIZE, SLEEP_DELAY_INIT_MS, SLEEP_DELAY_MS};
use crate::debounce::{Debounce, InsertOutcome, LifecycleState, Store};

verus! {

/// A physical switch, by the row line and column line it sits on.
#[derive(Clone, Copy, Debug, PartialEq, Eq, Hash, Structural)]
pub struct Key {
    pub row: i8,
    pub col: i8,
}

impl Key {
    pub fn new(row: i8, col: i8) -> (r: Key)
        ensures
            r.row == row,
            r.col == col,
    {
        Key { row, col }
    }

    /// The coordinate by which the store and the keymaps index this key.
    pub open spec fn pair(&self) -> (i8, i8) {
        (self.row, self.col)
    }
}

/// The record of a switch seen down at `now`.
pub open spec fn fresh_record(now: u64) -> Debounce {
    Debounce { pressed_at: now, lifecycle: LifecycleState::Pressed }
}

/// Records a switch seen down: a key already in flight is left as it is (a
/// key held over many passes is recorded once); a new one enters the store as
/// pressed at `now` while there is room, and is dropped otherwise.
pub fn store_key(store: &mut Store, key: &Key, now: u64) -> (r: InsertOutcome)
    requires
        old(store).wf(),
    ensures
        final(store).wf(),
        r == Store::insert_outcome(old(store)@, key.pair()),
        final(store)@ == Store::inserted(old(store)@, key.pair(), fresh_record(now)),
{
    store.insert_if_absent(key, Debounce { pressed_at: now, lifecycle: LifecycleState::Pressed })
}

/// The store after one row is sampled: each active column, left to right,
/// is recorded as `store_key` records it.
pub open spec fn row_scanned(
    m: Map<(i8, i8), Debounce>,
    row: i8,
    cols: Seq<bool>,
    now: u64,
) -> Map<(i8, i8), Debounce>
    decreases cols.len(),
{
    if cols.len() == 0 {
        m
    } else {
        let prev = row_scanned(m, row, cols.drop_last(), now);
        if cols.last() {
            Store::inserted(prev, (row, (cols.len() - 1) as i8), fresh_record(now))
        } else {
            prev
        }
    }
}

/// Records the columns found active while `row` was driven high. Any active
/// column counts as activity for the idle-sleep timer, whether or not its key
/// found room in the store.
pub fn scan_row(
    store: &mut Store,
    sleep: &mut SleepState,
    row: i8,
    cols: &[bool; COLS],
    now: u64,
)
    requires
        old(store).wf(),
    ensures
        final(store).wf(),
        final(store)@ == row_scanned(old(store)@, row, cols@, now),
        final(sleep).activity_since_last_check == (old(sleep).activity_since_last_check
            || cols@.contains(true)),
        final(sleep).wake_deadline == old(sleep).wake_deadline,
{
    let ghost start = store@;
    let ghost active0 = sleep.activity_since_last_check;
    let mut c: usize = 0;
    proof {
        assert(cols@.take(0) =~= Seq::<bool>::empty());
    }
    while c < COLS
        invariant
            store.wf(),
            c <= COLS,
            store@ == row_scanned(start, row, cols@.take(c as int), now),
            sleep.activity_since_last_check == (active0 || cols@.take(c as int).contains(true)),
            sleep.wake_deadline == old(sleep).wake_deadline,
        decreases COLS - c,
    {
        proof {
            let t0 = cols@.take(c as int);
            let t1 = cols@.take(c as int + 1);
            assert(t1.drop_last() =~= t0);
            assert(t1.last() == cols@[c as int]);
            if cols@[c as int] {
                assert(t1[c as int] == true);
            }
            if t0.contains(true) {
                let j = choose|j: int| 0 <= j < t0.len() && #[trigger] t0[j] == true;
                assert(t1[j] == true);
            }
            if t1.contains(true) {
                let j = choose|j: int| 0 <= j < t1.len() && #[trigger] t1[j] == true;
                if j < c {
                    assert(t0[j] == true);
                }
            }
        }
        if cols[c] {
            sleep.record_activity();
            store_key(store, &Key::new(row, c as i8), now);
        }
        c += 1;
    }
    proof {
        assert(cols@.take(COLS as int) =~= cols@);
    }
}

/// The idle-sleep timer of the scanner.
#[derive(Clone, Copy, Debug, PartialEq, Eq, Structural)]
pub struct SleepState {
    /// When the scanner goes to sleep unless a key is seen first.
    pub wake_deadline: u64,
    /// Whether a key was seen since the timer was last pushed back.
    pub activity_since_last_check: bool,
}

/// `now + delay`, held at the largest time.
pub open spec fn deadline_after(now: u64, delay: u64) -> u64 {
    if now + delay > u64::MAX {
        u64::MAX
    } else {
        (now + delay) as u64
    }
}

/// What the scanner does next.
#[derive(Clone, Copy, Debug, PartialEq, Eq, Structural)]
pub enum ScanAction {
    /// Arm the column interrupts, drive the home row and sleep until a key.
    EnterSleep,
    /// Sweep the matrix.
    Scan,
}

impl SleepState {
    /// The timer at start-up or after a wake: the first sleep comes after the
    /// shorter initial delay.
    pub fn new(now: u64) -> (r: SleepState)
        ensures
            r.wake_deadline == deadline_after(now, SLEEP_DELAY_INIT_MS),
            !r.activity_since_last_check,
    {
        SleepState {
            wake_deadline: now.saturating_add(SLEEP_DELAY_INIT_MS),
            activity_since_last_check: false,
        }
    }

    /// Whether sleep is due at `now`.
    pub fn sleep_due(&self, now: u64) -> (r: bool)
        ensures
            r == (now >= self.wake_deadline),
    {
        now >= self.wake_deadline
    }

    /// Notes that a key was seen during the current sweep.
    pub fn record_activity(&mut self)
        ensures
            final(self).activity_since_last_check,
            final(self).wake_deadline == old(self).wake_deadline,
    {
        self.activity_since_last_check = true;
    }

    /// Ends a sweep: if a key was seen, sleep is pushed back to `now` plus
    /// the idle delay; the activity flag is cleared.
    pub fn finish_pass(&mut self, now: u64)
        ensures
            !final(self).activity_since_last_check,
            final(self).wake_deadline == if old(self).activity_since_last_check {
                deadline_after(now, SLEEP_DELAY_MS)
            } else {
                old(self).wake_deadline
            },
    {
        if self.activity_since_last_check {
            self.wake_deadline = now.saturating_add(SLEEP_DELAY_MS);
        }
        self.activity_since_last_check = false;
    }

    /// Resumes after a wake at `now`, as after start-up.
    pub fn wake(&mut self, now: u64)
        ensures
            final(self).wake_deadline == deadline_after(now, SLEEP_DELAY_INIT_MS),
            !final(self).activity_since_last_check,
    {
        *self = SleepState::new(now);
    }
}

/// The scanner's next step: sleep when it is due; otherwise sweep the
/// matrix. The link status plays no part: keys pressed while the link is down
/// are kept in the store for the transmitter to drain once it comes up.
pub fn next_scan_action(sleep: &SleepState, now: u64) -> (r: ScanAction)
    ensures
        r == if now >= sleep.wake_deadline {
            ScanAction::EnterSleep
        } else {
            ScanAction::Scan
        },
{
    if sleep.sleep_due(now) {
        ScanAction::EnterSleep
    } else {
        ScanAction::Scan
    }
}

/// The store after `store_key` records each key of `keys` in turn at `now`.
pub open spec fn stored_run(
    m: Map<(i8, i8), Debounce>,
    keys: Seq<(i8, i8)>,
    now: u64,
) -> Map<(i8, i8), Debounce>
    decreases keys.len(),
{
    if keys.len() == 0 {
        m
    } else {
        Store::inserted(stored_run(m, keys.drop_last(), now), keys.last(), fresh_record(now))
    }
}

/// The smaller of a count and the store's capacity.
pub open spec fn capped(n: nat) -> nat {
    if n < PRESSED_KEYS_INDEXMAP_SIZE {
        n
    } else {
        PRESSED_KEYS_INDEXMAP_SIZE as nat
    }
}

/// A burst of distinct keys into an empty store (as while the link is down
/// and nothing drains it): the first keys up to the capacity are kept, each
/// as pressed at `now`; each key past the capacity is rejected and leaves the
/// store as it was.
pub proof fn lemma_burst_keeps_first(keys: Seq<(i8, i8)>, now: u64)
    requires
        keys.no_duplicates(),
    ensures
        stored_run(Map::empty(), keys, now).dom() == keys.take(capped(keys.len()) as int).to_set(),
        stored_run(Map::empty(), keys, now).len() == capped(keys.len()),
        forall|k: (i8, i8)| #[trigger]
            stored_run(Map::empty(), keys, now).contains_key(k) ==> stored_run(
                Map::empty(),
                keys,
                now,
            )[k] == fresh_record(now),
        keys.len() > 0 ==> Store::insert_outcome(
            stored_run(Map::empty(), keys.drop_last(), now),
            keys.last(),
        ) == if keys.len() <= PRESSED_KEYS_INDEXMAP_SIZE {
            InsertOutcome::Inserted
        } else {
            InsertOutcome::Rejected
        },
    decreases keys.len(),
{
    broadcast use vstd::seq_lib::seq_to_set_is_finite;

    let empty = Map::<(i8, i8), Debounce>::empty();
    if keys.len() == 0 {
        assert(keys.take(0).to_set() =~= Set::<(i8, i8)>::empty());
        assert(empty.dom() =~= Set::<(i8, i8)>::empty());
    } else {
        let init = keys.drop_last();
        let n = init.len();
        assert(init.no_duplicates());
        lemma_burst_keeps_first(init, now);
        let prev = stored_run(empty, init, now);
        let last = keys.last();
        assert(init.take(capped(n) as int) =~= keys.take(capped(n) as int));
        assert(!prev.contains_key(last)) by {
            if prev.contains_key(last) {
                assert(keys.take(capped(n) as int).to_set().contains(last));
                let j = choose|j: int|
                    0 <= j < capped(n) && #[trigger] keys.take(capped(n) as int)[j] == last;
                assert(keys[j] == keys[keys.len() - 1]);
            }
        }
        if n < PRESSED_KEYS_INDEXMAP_SIZE {
            assert(keys.take(n as int + 1) =~= keys.take(n as int).push(last));
            keys.take(n as int).lemma_push_to_set_commute(last);
        }
    }
}

} // verus!
