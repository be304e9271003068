//! The fixed-capacity containers of `heapless` that hold the keys in flight,
//! the keymaps and macro sequences, and what this library relies on of them.
use vstd::prelude::*;

use crate::config::{LAYER_INDEXMAP_SIZE, PRESSED_KEYS_INDEXMAP_SIZE};
use crate::debounce::Debounce;
use crate::enums::HidKeys;

verus! {

#[verifier::external_type_specification]
#[verifier::external_body]
#[verifier::reject_recursive_types(K)]
#[verifier::reject_recursive_types(V)]
#[verifier::reject_recursive_types(S)]
pub struct ExIndexMap<K, V, S, const N: usize>(heapless::IndexMap<K, V, S, N>);

#[verifier::external_type_specification]
#[verifier::external_body]
#[verifier::reject_recursive_types(H)]
pub struct ExBuildHasherDefault<H>(hash32::BuildHasherDefault<H>);

#[verifier::external_type_specification]
#[verifier::external_body]
pub struct ExFnvHasher(hash32::FnvHasher);

#[verifier::external_type_specification]
#[verifier::external_body]
#[verifier::reject_recursive_types(T)]
pub struct ExVec<T, const N: usize>(heapless::Vec<T, N>);

/// Keys in flight, by (row, column), with their debounce records.
pub type PressedKeys = heapless::FnvIndexMap<(i8, i8), Debounce, PRESSED_KEYS_INDEXMAP_SIZE>;

/// One layer's keymap, by (row, column).
pub type LayerKeymap = heapless::FnvIndexMap<(i8, i8), HidKeys, LAYER_INDEXMAP_SIZE>;

/// The keys a macro key stands for, in the order they are pressed.
pub type MacroSequence = heapless::Vec<HidKeys, 16>;

/// What a map of keys in flight holds.
pub uninterp spec fn pressed_keys_contents(m: PressedKeys) -> Map<(i8, i8), Debounce>;

/// What a keymap holds.
pub uninterp spec fn keymap_contents(m: LayerKeymap) -> Map<(i8, i8), HidKeys>;

/// What a macro sequence holds, first to last.
pub uninterp spec fn macro_sequence_contents(v: MacroSequence) -> Seq<HidKeys>;

/// Relies on heapless::IndexMap::new: the new map is empty.
#[verifier::external_body]
pub(crate) fn pressed_new() -> (r: PressedKeys)
    ensures
        pressed_keys_contents(r).dom() == Set::<(i8, i8)>::empty(),
{
    heapless::FnvIndexMap::new()
}

/// Relies on heapless::IndexMap::insert: a key already present gets the new
/// value and its old one comes back; an absent key is added while fewer than
/// the capacity are held; otherwise the pair comes back in `Err` and the map
/// is left as it was.
#[verifier::external_body]
pub(crate) fn pressed_insert(m: &mut PressedKeys, k: (i8, i8), v: Debounce) -> (r: Result<
    Option<Debounce>,
    ((i8, i8), Debounce),
>)
    ensures
        pressed_keys_contents(*old(m)).contains_key(k) ==> r is Ok && r->Ok_0 == Some(
            pressed_keys_contents(*old(m))[k],
        ),
        !pressed_keys_contents(*old(m)).contains_key(k) && pressed_keys_contents(*old(m)).len()
            < PRESSED_KEYS_INDEXMAP_SIZE ==> r is Ok && r->Ok_0 is None,
        r is Ok ==> pressed_keys_contents(*final(m)) == pressed_keys_contents(*old(m)).insert(k, v),
        !pressed_keys_contents(*old(m)).contains_key(k) && pressed_keys_contents(*old(m)).len()
            >= PRESSED_KEYS_INDEXMAP_SIZE ==> r is Err && pressed_keys_contents(*final(m))
            == pressed_keys_contents(*old(m)),
{
    m.insert(k, v)
}

/// Relies on heapless::IndexMap::get: the value held for the key, if any.
#[verifier::external_body]
pub(crate) fn pressed_get(m: &PressedKeys, k: &(i8, i8)) -> (r: Option<Debounce>)
    ensures
        r == pressed_keys_contents(*m).index_opt(*k),
{
    m.get(k).copied()
}

/// Relies on heapless::IndexMap::remove: the key leaves the map and its value
/// comes back, if it was there.
#[verifier::external_body]
pub(crate) fn pressed_remove(m: &mut PressedKeys, k: &(i8, i8)) -> (r: Option<Debounce>)
    ensures
        r == pressed_keys_contents(*old(m)).index_opt(*k),
        pressed_keys_contents(*final(m)) == pressed_keys_contents(*old(m)).remove(*k),
{
    m.remove(k)
}

/// Relies on heapless::IndexMap::keys: each key held, once.
#[verifier::external_body]
pub(crate) fn pressed_keys(m: &PressedKeys) -> (r: Vec<(i8, i8)>)
    ensures
        r@.to_set() == pressed_keys_contents(*m).dom(),
        r@.no_duplicates(),
{
    m.keys().copied().collect()
}

/// Relies on heapless::IndexMap::len: the number of keys held.
#[verifier::external_body]
pub(crate) fn pressed_len(m: &PressedKeys) -> (r: usize)
    ensures
        r == pressed_keys_contents(*m).len(),
{
    m.len()
}

/// Relies on heapless::IndexMap::new: the new keymap is empty.
#[verifier::external_body]
pub(crate) fn keymap_new() -> (r: LayerKeymap)
    ensures
        keymap_contents(r).dom() == Set::<(i8, i8)>::empty(),
{
    heapless::FnvIndexMap::new()
}

/// Relies on heapless::IndexMap::insert, as `pressed_insert` does.
#[verifier::external_body]
pub(crate) fn keymap_insert(m: &mut LayerKeymap, k: (i8, i8), v: HidKeys) -> (r: Result<
    Option<HidKeys>,
    ((i8, i8), HidKeys),
>)
    ensures
        keymap_contents(*old(m)).contains_key(k) ==> r is Ok && r->Ok_0 == Some(
            keymap_contents(*old(m))[k],
        ),
        !keymap_contents(*old(m)).contains_key(k) && keymap_contents(*old(m)).len()
            < LAYER_INDEXMAP_SIZE ==> r is Ok && r->Ok_0 is None,
        r is Ok ==> keymap_contents(*final(m)) == keymap_contents(*old(m)).insert(k, v),
        !keymap_contents(*old(m)).contains_key(k) && keymap_contents(*old(m)).len()
            >= LAYER_INDEXMAP_SIZE ==> r is Err && keymap_contents(*final(m)) == keymap_contents(
            *old(m),
        ),
{
    m.insert(k, v)
}

/// Relies on heapless::IndexMap::get: the key mapped at a position, if any.
#[verifier::external_body]
pub(crate) fn keymap_get(m: &LayerKeymap, k: &(i8, i8)) -> (r: Option<HidKeys>)
    ensures
        r == keymap_contents(*m).index_opt(*k),
{
    m.get(k).copied()
}

/// Relies on heapless::Vec::new: the new sequence is empty.
#[verifier::external_body]
pub(crate) fn macro_new() -> (r: MacroSequence)
    ensures
        macro_sequence_contents(r) == Seq::<HidKeys>::empty(),
{
    heapless::Vec::new()
}

/// Relies on heapless::Vec::push: below the capacity the item goes last;
/// at the capacity it comes back in `Err` and nothing changes.
#[verifier::external_body]
pub(crate) fn macro_push(v: &mut MacroSequence, item: HidKeys) -> (r: Result<(), HidKeys>)
    ensures
        macro_sequence_contents(*old(v)).len() < 16 ==> r is Ok && macro_sequence_contents(
            *final(v),
        ) == macro_sequence_contents(*old(v)).push(item),
        macro_sequence_contents(*old(v)).len() >= 16 ==> r is Err && r->Err_0 == item
            && macro_sequence_contents(*final(v)) == macro_sequence_contents(*old(v)),
{
    v.push(item)
}

} // verus!
