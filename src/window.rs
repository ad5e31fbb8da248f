use crate::open_state::{state_from_flags, OpenState};
use indexmap::IndexMap;
use vstd::prelude::*;

verus! {

/// What the window-management protocol reports of one toplevel window.
#[derive(Debug, Clone)]
pub struct ToplevelInfo {
    pub id: usize,
    pub title: String,
    pub app_id: String,
    pub open: bool,
    pub focused: bool,
}

/// A toplevel window as the protocol has described it so far: its info is
/// absent when the handle was announced before its description arrived.
#[derive(Debug, Clone)]
pub struct ToplevelHandle {
    pub info: Option<ToplevelInfo>,
}

/// Failures of the aggregation operations.
#[derive(Debug, Clone, Copy, PartialEq, Eq, Structural)]
pub enum LauncherError {
    /// The handle carries no protocol info yet; retry on a later event.
    MissingInfo,
}

/// One toplevel window of an application.
#[derive(Debug, Clone)]
pub struct Window {
    pub id: usize,
    pub name: String,
    pub open_state: OpenState,
}

/// The window that protocol info describes.
pub open spec fn window_of(info: ToplevelInfo) -> Window {
    Window { id: info.id, name: info.title, open_state: state_from_flags(info.open, info.focused) }
}

impl Window {
    /// Builds the window that `info` describes.
    pub fn from_info(info: &ToplevelInfo) -> (r: Window)
        ensures
            r == window_of(*info),
    {
        Window {
            id: info.id,
            name: info.title.clone(),
            open_state: OpenState::from_flags(info.open, info.focused),
        }
    }

    /// Builds the window that a handle describes, or fails when the handle
    /// has no info yet.
    pub fn from_handle(handle: &ToplevelHandle) -> (r: Result<Window, LauncherError>)
        ensures
            match handle.info {
                Some(info) => r == Ok::<Window, LauncherError>(window_of(info)),
                None => r == Err::<Window, LauncherError>(LauncherError::MissingInfo),
            },
    {
        match &handle.info {
            Some(info) => Ok(Window::from_info(info)),
            None => Err(LauncherError::MissingInfo),
        }
    }

    /// A copy of this window.
    pub fn duplicate(&self) -> (r: Window)
        ensures
            r == *self,
    {
        Window { id: self.id, name: self.name.clone(), open_state: self.open_state }
    }
}

/// `indexmap::IndexMap`, the insertion-ordered map that holds an item's
/// windows; seen only through `window_entries` and the wrappers below.
#[verifier::external_type_specification]
#[verifier::external_body]
#[verifier::reject_recursive_types(K)]
#[verifier::reject_recursive_types(V)]
#[verifier::reject_recursive_types(S)]
pub struct ExIndexMap<K, V, S>(IndexMap<K, V, S>);

/// The entries of a window map, keyed by window id, in insertion order.
pub uninterp spec fn window_entries(m: IndexMap<usize, Window>) -> Seq<(usize, Window)>;

pub open spec fn has_key(s: Seq<(usize, Window)>, k: usize) -> bool {
    exists|i: int| 0 <= i < s.len() && s[i].0 == k
}

/// The entries after inserting `w` under `k`: a present key keeps its place
/// and takes the new value, a new key goes last.
pub open spec fn upsert(s: Seq<(usize, Window)>, k: usize, w: Window) -> Seq<(usize, Window)> {
    if has_key(s, k) {
        s.map_values(|e: (usize, Window)| if e.0 == k { (k, w) } else { e })
    } else {
        s.push((k, w))
    }
}

/// The entries without key `k`, the others in their order.
pub open spec fn without_key(s: Seq<(usize, Window)>, k: usize) -> Seq<(usize, Window)> {
    s.filter(|e: (usize, Window)| e.0 != k)
}

/// Relies on `IndexMap::new`: a new map holds no entries.
#[verifier::external_body]
pub(crate) fn window_map_new() -> (r: IndexMap<usize, Window>)
    ensures
        window_entries(r) == Seq::<(usize, Window)>::empty(),
{
    IndexMap::new()
}

/// Relies on `IndexMap::len`: the number of entries.
#[verifier::external_body]
pub(crate) fn window_map_len(m: &IndexMap<usize, Window>) -> (r: usize)
    ensures
        r == window_entries(*m).len(),
{
    m.len()
}

/// Relies on `IndexMap::insert`: an existing key keeps its place in the order
/// and its value is replaced; a new key is inserted last.
#[verifier::external_body]
pub(crate) fn window_map_insert(m: &mut IndexMap<usize, Window>, k: usize, w: Window)
    ensures
        window_entries(*final(m)) == upsert(window_entries(*old(m)), k, w),
{
    m.insert(k, w);
}

/// Relies on `IndexMap::shift_remove`: the entry of the key, if any, is
/// removed and the entries after it keep their relative order.
#[verifier::external_body]
pub(crate) fn window_map_shift_remove(m: &mut IndexMap<usize, Window>, k: usize)
    ensures
        window_entries(*final(m)) == without_key(window_entries(*old(m)), k),
{
    m.shift_remove(&k);
}

/// Relies on `IndexMap::get`: the value stored under the key, if present
/// (a key occurs at most once in the map).
#[verifier::external_body]
pub(crate) fn window_map_get(m: &IndexMap<usize, Window>, k: usize) -> (r: Option<&Window>)
    ensures
        r.is_some() == has_key(window_entries(*m), k),
        r.is_some() ==> forall|i: int|
            0 <= i < window_entries(*m).len() && window_entries(*m)[i].0 == k
                ==> window_entries(*m)[i].1 == *r.unwrap(),
{
    m.get(&k)
}

/// Relies on `IndexMap::get_index`: the value of the entry at a position in
/// the order, if the position is within the map.
#[verifier::external_body]
pub(crate) fn window_map_value_at(m: &IndexMap<usize, Window>, i: usize) -> (r: Option<&Window>)
    ensures
        r.is_some() == (i < window_entries(*m).len()),
        r.is_some() ==> *r.unwrap() == window_entries(*m)[i as int].1,
{
    m.get_index(i).map(|(_, w)| w)
}

} // verus!
