use vstd::prelude::*;

verus! {

/// Whether a window (or an application's windows together) is closed, open,
/// or open and holding focus.
#[derive(Debug, Clone, Copy, PartialEq, Eq, Structural)]
pub enum OpenState {
    Closed,
    Open { focused: bool },
}

/// Importance of a state: `Closed < Open { focused: false } < Open { focused: true }`.
pub open spec fn rank(s: OpenState) -> nat {
    match s {
        OpenState::Closed => 0,
        OpenState::Open { focused: false } => 1,
        OpenState::Open { focused: true } => 2,
    }
}

/// The more important of two states.
pub open spec fn max_state(a: OpenState, b: OpenState) -> OpenState {
    if rank(b) > rank(a) {
        b
    } else {
        a
    }
}

/// The merge of a sequence of states: its maximum by `rank`, `Closed` when empty.
pub open spec fn merge_seq(s: Seq<OpenState>) -> OpenState
    decreases s.len(),
{
    if s.len() == 0 {
        OpenState::Closed
    } else {
        max_state(merge_seq(s.drop_last()), s.last())
    }
}

/// The state reported by the protocol's open and focused flags.
pub open spec fn state_from_flags(open: bool, focused: bool) -> OpenState {
    if open {
        OpenState::Open { focused }
    } else {
        OpenState::Closed
    }
}

/// A state with its focus replaced, its open/closed bit carried over.
pub open spec fn with_focus(s: OpenState, focused: bool) -> OpenState {
    match s {
        OpenState::Closed => OpenState::Closed,
        OpenState::Open { .. } => OpenState::Open { focused },
    }
}

impl OpenState {
    pub open spec fn open(self) -> bool {
        self is Open
    }

    pub open spec fn focus(self) -> bool {
        self == (OpenState::Open { focused: true })
    }

    /// An open state with the given focus.
    pub fn focused(focused: bool) -> (r: OpenState)
        ensures
            r == (OpenState::Open { focused }),
    {
        OpenState::Open { focused }
    }

    /// The state for a window whose protocol info reports these flags.
    pub fn from_flags(open: bool, focused: bool) -> (r: OpenState)
        ensures
            r == state_from_flags(open, focused),
    {
        if open {
            OpenState::Open { focused }
        } else {
            OpenState::Closed
        }
    }

    pub fn is_open(&self) -> (r: bool)
        ensures
            r == self.open(),
    {
        match self {
            OpenState::Closed => false,
            OpenState::Open { .. } => true,
        }
    }

    pub fn is_focused(&self) -> (r: bool)
        ensures
            r == self.focus(),
    {
        match self {
            OpenState::Open { focused } => *focused,
            OpenState::Closed => false,
        }
    }

    /// This state with its focus replaced; an open window stays open and a
    /// closed one stays closed.
    pub fn with_focus(&self, focused: bool) -> (r: OpenState)
        ensures
            r == with_focus(*self, focused),
    {
        match self {
            OpenState::Closed => OpenState::Closed,
            OpenState::Open { .. } => OpenState::Open { focused },
        }
    }

    /// The more important of two states.
    pub fn max(a: OpenState, b: OpenState) -> (r: OpenState)
        ensures
            r == max_state(a, b),
    {
        let ra: u8 = match a {
            OpenState::Closed => 0,
            OpenState::Open { focused: false } => 1,
            OpenState::Open { focused: true } => 2,
        };
        let rb: u8 = match b {
            OpenState::Closed => 0,
            OpenState::Open { focused: false } => 1,
            OpenState::Open { focused: true } => 2,
        };
        if rb > ra {
            b
        } else {
            a
        }
    }

    /// Merges states into the most important one among them; `Closed` for none.
    pub fn merge_states(states: &[OpenState]) -> (r: OpenState)
        ensures
            r == merge_seq(states@),
    {
        let mut merged = OpenState::Closed;
        let mut i: usize = 0;
        while i < states.len()
            invariant
                i <= states@.len(),
                merged == merge_seq(states@.take(i as int)),
            decreases states@.len() - i,
        {
            proof {
                assert(states@.take(i as int + 1).drop_last() == states@.take(i as int));
            }
            merged = OpenState::max(merged, states[i]);
            i = i + 1;
        }
        proof {
            assert(states@.take(i as int) == states@);
        }
        merged
    }
}

/// Merging yields `Closed` exactly when every merged state is `Closed`, and an
/// open and focused state exactly when some merged state is open and focused.
pub proof fn lemma_merge_closed_and_focused(s: Seq<OpenState>)
    ensures
        (merge_seq(s) == OpenState::Closed) <==> (forall|i: int|
            0 <= i < s.len() ==> s[i] == OpenState::Closed),
        merge_seq(s).focus() <==> (exists|i: int| 0 <= i < s.len() && s[i].focus()),
    decreases s.len(),
{
    if s.len() > 0 {
        let p = s.drop_last();
        lemma_merge_closed_and_focused(p);
        assert forall|i: int| 0 <= i < p.len() implies p[i] == s[i] by {}
        if merge_seq(s) == OpenState::Closed {
            assert forall|i: int| 0 <= i < s.len() implies s[i] == OpenState::Closed by {
                if i < s.len() - 1 {
                    assert(p[i] == s[i]);
                }
            }
        }
        if exists|i: int| 0 <= i < s.len() && s[i].focus() {
            let i = choose|i: int| 0 <= i < s.len() && s[i].focus();
            if i < s.len() - 1 {
                assert(p[i].focus());
            }
        }
        if merge_seq(s).focus() && !s.last().focus() {
            let j = choose|j: int| 0 <= j < p.len() && p[j].focus();
            assert(s[j].focus());
        }
        if !(merge_seq(s) == OpenState::Closed) && s.last() == OpenState::Closed {
            let j = choose|j: int| 0 <= j < p.len() && !(p[j] == OpenState::Closed);
            assert(!(s[j] == OpenState::Closed));
        }
    }
}

/// Toggling focus on and then off leaves the open/closed bit as it was.
pub proof fn lemma_focus_toggle_keeps_open(s: OpenState)
    ensures
        with_focus(with_focus(s, true), false).open() == s.open(),
        with_focus(s, true).open() == s.open(),
{
}

} // verus!
