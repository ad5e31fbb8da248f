use crate::open_state::{merge_seq, state_from_flags, with_focus, OpenState};
use crate::window::{
    has_key, upsert, window_entries, window_map_get, window_map_insert, window_map_len,
    window_map_new, window_map_shift_remove, window_map_value_at, window_of, without_key,
    LauncherError, ToplevelHandle, Window,
};
use indexmap::IndexMap;
use vstd::prelude::*;

verus! {

/// One application in the launcher: its windows, keyed by window id in the
/// order they were discovered, and their merged state.
#[derive(Debug)]
pub struct Item {
    pub app_id: String,
    pub favorite: bool,
    pub open_state: OpenState,
    pub windows: IndexMap<usize, Window>,
    pub name: String,
}

/// The states of the windows of some entries, in order.
pub open spec fn states_of(s: Seq<(usize, Window)>) -> Seq<OpenState> {
    s.map_values(|e: (usize, Window)| e.1.open_state)
}

/// The item's name after merging a window titled `title`: the title names an
/// item that had no window, and an item already named keeps its name.
pub open spec fn merged_name(entries: Seq<(usize, Window)>, name: String, title: String) -> String {
    if entries.len() == 0 {
        title
    } else {
        name
    }
}

/// Whether the window under key `k` is open and focused.
pub open spec fn focused_at(s: Seq<(usize, Window)>, k: usize) -> bool {
    exists|i: int| 0 <= i < s.len() && s[i].0 == k && s[i].1.open_state.focus()
}

/// The entries with the window under key `k` renamed.
pub open spec fn renamed_at(s: Seq<(usize, Window)>, k: usize, name: String) -> Seq<(usize, Window)> {
    s.map_values(
        |e: (usize, Window)|
            if e.0 == k {
                (e.0, Window { id: e.1.id, name: name, open_state: e.1.open_state })
            } else {
                e
            },
    )
}

/// The entries with the focus of the window under key `k` replaced.
pub open spec fn refocused_at(s: Seq<(usize, Window)>, k: usize, focused: bool) -> Seq<(usize, Window)> {
    s.map_values(
        |e: (usize, Window)|
            if e.0 == k {
                (e.0, Window { id: e.1.id, name: e.1.name, open_state: with_focus(e.1.open_state, focused) })
            } else {
                e
            },
    )
}

impl Item {
    /// The item's windows, keyed by id, in discovery order.
    pub open spec fn entries(&self) -> Seq<(usize, Window)> {
        window_entries(self.windows)
    }

    /// The item's state is the merge of its windows' states.
    pub open spec fn wf(&self) -> bool {
        self.open_state == merge_seq(states_of(self.entries()))
    }

    /// An item with no windows.
    pub fn new(app_id: String, open_state: OpenState, favorite: bool) -> (r: Item)
        ensures
            r.app_id == app_id,
            r.open_state == open_state,
            r.favorite == favorite,
            r.entries().len() == 0,
            r.name@.len() == 0,
            open_state == OpenState::Closed ==> r.wf(),
    {
        Item { app_id, favorite, open_state, windows: window_map_new(), name: String::new() }
    }

    /// The item of the application that a handle belongs to, holding that one
    /// window; fails when the handle has no info yet.
    pub fn from_handle(handle: ToplevelHandle) -> (r: Result<Item, LauncherError>)
        ensures
            match handle.info {
                None => r == Err::<Item, LauncherError>(LauncherError::MissingInfo),
                Some(info) => {
                    &&& r matches Ok(item)
                    &&& r->Ok_0.app_id == info.app_id
                    &&& r->Ok_0.name == info.title
                    &&& !r->Ok_0.favorite
                    &&& r->Ok_0.open_state == state_from_flags(info.open, info.focused)
                    &&& r->Ok_0.entries() == seq![(info.id, window_of(info))]
                    &&& r->Ok_0.wf()
                },
            },
    {
        match &handle.info {
            None => Err(LauncherError::MissingInfo),
            Some(info) => {
                let window = Window::from_info(info);
                let mut windows = window_map_new();
                window_map_insert(&mut windows, info.id, window);
                let ghost e = window_entries(windows);
                proof {
                    assert(e == seq![(info.id, window_of(*info))]);
                    assert(states_of(e) =~= seq![window_of(*info).open_state]);
                    assert(states_of(e).drop_last() =~= Seq::<OpenState>::empty());
                    assert(merge_seq(Seq::<OpenState>::empty()) == OpenState::Closed);
                    assert(merge_seq(states_of(e)) == window_of(*info).open_state);
                }
                Ok(Item {
                    app_id: info.app_id.clone(),
                    favorite: false,
                    open_state: OpenState::from_flags(info.open, info.focused),
                    windows,
                    name: info.title.clone(),
                })
            },
        }
    }

    /// Merges the window of a handle into this item, replacing a window of the
    /// same id; the item takes the window's title as its name when it had no
    /// window. Returns the merged window, or fails when the handle has no info.
    pub fn merge_toplevel(&mut self, handle: ToplevelHandle) -> (r: Result<Window, LauncherError>)
        ensures
            handle.info is None ==> r == Err::<Window, LauncherError>(LauncherError::MissingInfo)
                && *final(self) == *old(self),
            handle.info matches Some(info) ==> r == Ok::<Window, LauncherError>(window_of(info))
                && final(self).entries() == upsert(old(self).entries(), info.id, window_of(info))
                && final(self).name == merged_name(old(self).entries(), old(self).name, info.title)
                && final(self).wf() && final(self).entries().len() > 0
                && final(self).app_id == old(self).app_id
                && final(self).favorite == old(self).favorite,
    {
        let info = match &handle.info {
            Some(info) => info,
            None => {
                return Err(LauncherError::MissingInfo);
            },
        };
        if window_map_len(&self.windows) == 0 {
            self.name = info.title.clone();
        }
        let window = Window::from_info(info);
        window_map_insert(&mut self.windows, info.id, window.duplicate());
        proof {
            lemma_upsert_nonempty(old(self).entries(), info.id, window_of(*info));
        }
        self.recalculate_open_state();
        Ok(window)
    }

    /// Removes the window of a handle, if the item holds it; a handle without
    /// info leaves the item as it is.
    pub fn unmerge_toplevel(&mut self, handle: &ToplevelHandle)
        ensures
            handle.info is None ==> *final(self) == *old(self),
            handle.info matches Some(info) ==> final(self).entries() == without_key(
                old(self).entries(),
                info.id,
            ) && final(self).wf() && final(self).name == old(self).name
                && final(self).app_id == old(self).app_id
                && final(self).favorite == old(self).favorite,
    {
        if let Some(info) = &handle.info {
            window_map_shift_remove(&mut self.windows, info.id);
            self.recalculate_open_state();
        }
    }

    /// Renames a window; the item follows the name when that window is the
    /// focused one.
    pub fn set_window_name(&mut self, window_id: usize, name: String)
        ensures
            final(self).entries() == renamed_at(old(self).entries(), window_id, name),
            final(self).name == (if focused_at(old(self).entries(), window_id) {
                name
            } else {
                old(self).name
            }),
            final(self).open_state == old(self).open_state,
            final(self).app_id == old(self).app_id,
            final(self).favorite == old(self).favorite,
            old(self).wf() ==> final(self).wf(),
    {
        let ghost s = old(self).entries();
        match window_map_get(&self.windows, window_id) {
            Some(window) => {
                let focused = window.open_state.is_focused();
                let renamed = Window { id: window.id, name: name.clone(), open_state: window.open_state };
                proof {
                    let i = choose|i: int| 0 <= i < s.len() && s[i].0 == window_id;
                    assert(s[i].1 == *window);
                    assert(focused == focused_at(s, window_id));
                }
                if focused {
                    self.name = name;
                }
                window_map_insert(&mut self.windows, window_id, renamed);
                proof {
                    assert(upsert(s, window_id, renamed) =~= renamed_at(s, window_id, name));
                }
            },
            None => {
                proof {
                    assert(renamed_at(s, window_id, name) =~= s);
                }
            },
        }
        proof {
            assert(states_of(self.entries()) =~= states_of(s));
        }
    }

    /// Replaces the focus of a window, keeping it open or closed as it was,
    /// and recomputes the item's state.
    pub fn set_window_focused(&mut self, window_id: usize, focused: bool)
        ensures
            final(self).entries() == refocused_at(old(self).entries(), window_id, focused),
            has_key(old(self).entries(), window_id) ==> final(self).wf(),
            !has_key(old(self).entries(), window_id) ==> *final(self) == *old(self),
            old(self).wf() ==> final(self).wf(),
            final(self).name == old(self).name,
            final(self).app_id == old(self).app_id,
            final(self).favorite == old(self).favorite,
    {
        let ghost s = old(self).entries();
        match window_map_get(&self.windows, window_id) {
            Some(window) => {
                let refocused = Window {
                    id: window.id,
                    name: window.name.clone(),
                    open_state: window.open_state.with_focus(focused),
                };
                window_map_insert(&mut self.windows, window_id, refocused);
                proof {
                    assert(upsert(s, window_id, refocused) =~= refocused_at(s, window_id, focused));
                }
                self.recalculate_open_state();
            },
            None => {
                proof {
                    assert(refocused_at(s, window_id, focused) =~= s);
                }
            },
        }
    }

    /// Sets the item's state to the merge of its windows' states.
    fn recalculate_open_state(&mut self)
        ensures
            final(self).wf(),
            final(self).windows == old(self).windows,
            final(self).name == old(self).name,
            final(self).app_id == old(self).app_id,
            final(self).favorite == old(self).favorite,
    {
        let ghost states = states_of(self.entries());
        let n = window_map_len(&self.windows);
        let mut merged = OpenState::Closed;
        let mut i: usize = 0;
        while i < n
            invariant
                n == states.len(),
                i <= n,
                states == states_of(self.entries()),
                merged == merge_seq(states.take(i as int)),
            decreases n - i,
        {
            let window = window_map_value_at(&self.windows, i).unwrap();
            proof {
                assert(states.take(i as int + 1).drop_last() =~= states.take(i as int));
            }
            merged = OpenState::max(merged, window.open_state);
            i = i + 1;
        }
        proof {
            assert(states.take(i as int) =~= states);
        }
        self.open_state = merged;
    }
}

/// Merging a window leaves an item with at least one window.
pub proof fn lemma_upsert_nonempty(s: Seq<(usize, Window)>, k: usize, w: Window)
    ensures
        upsert(s, k, w).len() > 0,
{
    if has_key(s, k) {
        let i = choose|i: int| 0 <= i < s.len() && s[i].0 == k;
        assert(s.len() > 0);
    }
}

/// The first window merged into an empty item names it, and a second merge
/// keeps that name.
pub proof fn lemma_second_merge_keeps_name(
    s: Seq<(usize, Window)>,
    name: String,
    k1: usize,
    w1: Window,
    k2: usize,
    w2: Window,
)
    requires
        s.len() == 0,
    ensures
        merged_name(s, name, w1.name) == w1.name,
        merged_name(upsert(s, k1, w1), merged_name(s, name, w1.name), w2.name) == w1.name,
{
    lemma_upsert_nonempty(s, k1, w1);
}

/// Focusing a window and then unfocusing it leaves every window of the item
/// open or closed as it was, under the same key and name.
pub proof fn lemma_focus_toggle_keeps_windows_open(s: Seq<(usize, Window)>, k: usize)
    ensures
        refocused_at(refocused_at(s, k, true), k, false).len() == s.len(),
        forall|i: int|
            0 <= i < s.len() ==> {
                let e = #[trigger] refocused_at(refocused_at(s, k, true), k, false)[i];
                &&& e.0 == s[i].0
                &&& e.1.name == s[i].1.name
                &&& e.1.open_state.open() == s[i].1.open_state.open()
            },
{
    assert forall|i: int| 0 <= i < s.len() implies {
        let e = #[trigger] refocused_at(refocused_at(s, k, true), k, false)[i];
        &&& e.0 == s[i].0
        &&& e.1.name == s[i].1.name
        &&& e.1.open_state.open() == s[i].1.open_state.open()
    } by {
        crate::open_state::lemma_focus_toggle_keeps_open(s[i].1.open_state);
    }
}

} // verus!
