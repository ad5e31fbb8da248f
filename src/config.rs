use vstd::prelude::*;

verus! {

/// How a module's container is shown and hidden.
#[derive(Debug, Clone, Copy, PartialEq, Eq, Structural)]
pub enum TransitionType {
    Instant,
    Crossfade,
    SlideStart,
    SlideEnd,
}

#[derive(Debug, Clone, Copy, PartialEq, Eq, Structural)]
pub enum Orientation {
    Horizontal,
    Vertical,
}

/// The animation a revealer plays.
#[derive(Debug, Clone, Copy, PartialEq, Eq, Structural)]
pub enum RevealerTransitionType {
    Instant,
    Crossfade,
    SlideRight,
    SlideLeft,
    SlideUp,
    SlideDown,
}

/// The revealer animation of a transition along a bar of the given
/// orientation: sliding from the start is leftwards or upwards, from the end
/// rightwards or downwards.
pub open spec fn revealer_transition(t: TransitionType, o: Orientation) -> RevealerTransitionType {
    match t {
        TransitionType::SlideStart => if o == Orientation::Horizontal {
            RevealerTransitionType::SlideLeft
        } else {
            RevealerTransitionType::SlideUp
        },
        TransitionType::SlideEnd => if o == Orientation::Horizontal {
            RevealerTransitionType::SlideRight
        } else {
            RevealerTransitionType::SlideDown
        },
        TransitionType::Crossfade => RevealerTransitionType::Crossfade,
        TransitionType::Instant => RevealerTransitionType::Instant,
    }
}

impl TransitionType {
    pub fn to_revealer_transition_type(&self, orientation: Orientation) -> (r: RevealerTransitionType)
        ensures
            r == revealer_transition(*self, orientation),
    {
        match (self, orientation) {
            (TransitionType::SlideStart, Orientation::Horizontal) => RevealerTransitionType::SlideLeft,
            (TransitionType::SlideStart, Orientation::Vertical) => RevealerTransitionType::SlideUp,
            (TransitionType::SlideEnd, Orientation::Horizontal) => RevealerTransitionType::SlideRight,
            (TransitionType::SlideEnd, Orientation::Vertical) => RevealerTransitionType::SlideDown,
            (TransitionType::Crossfade, _) => RevealerTransitionType::Crossfade,
            _ => RevealerTransitionType::Instant,
        }
    }
}

/// The mouse button whose script a click runs.
#[derive(Debug, Clone, Copy, PartialEq, Eq, Structural)]
pub enum ClickButton {
    Left,
    Middle,
    Right,
}

/// The button that a click event's button number names: 1 left, 2 middle,
/// 3 right; other buttons run no script.
pub fn click_button(button: u32) -> (r: Option<ClickButton>)
    ensures
        button == 1 ==> r == Some(ClickButton::Left),
        button == 2 ==> r == Some(ClickButton::Middle),
        button == 3 ==> r == Some(ClickButton::Right),
        !(1 <= button <= 3) ==> r is None,
{
    match button {
        1 => Some(ClickButton::Left),
        2 => Some(ClickButton::Middle),
        3 => Some(ClickButton::Right),
        _ => None,
    }
}

/// Whether a container is shown, and whether its revealer reveals it.
/// Without a condition the container is always shown; with one, each result
/// of the condition drives the revealer, and the container is hidden only once
/// the revealer has finished hiding it.
#[derive(Debug, Clone, Copy, PartialEq, Eq, Structural)]
pub struct Visibility {
    pub conditional: bool,
    pub container_visible: bool,
    pub reveal_child: bool,
}

impl Visibility {
    /// A container with no condition: shown and revealed for good.
    pub fn unconditional() -> (r: Visibility)
        ensures
            !r.conditional,
            r.container_visible,
            r.reveal_child,
    {
        Visibility { conditional: false, container_visible: true, reveal_child: true }
    }

    /// A container whose condition has not reported yet: hidden.
    pub fn conditional() -> (r: Visibility)
        ensures
            r.conditional,
            !r.container_visible,
            !r.reveal_child,
    {
        Visibility { conditional: true, container_visible: false, reveal_child: false }
    }

    /// A result of the condition: `true` shows the container at once and
    /// reveals it; `false` only starts hiding it.
    pub fn on_condition_result(&mut self, success: bool)
        ensures
            old(self).conditional ==> *final(self) == (Visibility {
                conditional: true,
                container_visible: old(self).container_visible || success,
                reveal_child: success,
            }),
            !old(self).conditional ==> *final(self) == *old(self),
    {
        if self.conditional {
            if success {
                self.container_visible = true;
            }
            self.reveal_child = success;
        }
    }

    /// The revealer finished an animation: when it was hiding, the container
    /// is hidden now; when it was revealing, nothing changes.
    pub fn on_reveal_finished(&mut self)
        ensures
            old(self).conditional ==> *final(self) == (Visibility {
                conditional: true,
                container_visible: old(self).container_visible && old(self).reveal_child,
                reveal_child: old(self).reveal_child,
            }),
            !old(self).conditional ==> *final(self) == *old(self),
    {
        if self.conditional && !self.reveal_child {
            self.container_visible = false;
        }
    }
}

} // verus!
