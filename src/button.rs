use crate::item::Item;
use crate::window::window_map_len;
use vstd::prelude::*;

verus! {

/// What the hover handler of a button reads: how many windows its item has.
#[derive(Debug, Clone, Copy, PartialEq, Eq, Structural)]
pub struct MenuState {
    pub num_windows: usize,
}

#[derive(Debug, Clone, Copy, PartialEq, Eq, Structural)]
pub struct AppearanceOptions {
    pub show_names: bool,
    pub show_icons: bool,
    pub icon_size: i32,
}

/// An intent sent from a button to the controller.
#[derive(Debug, Clone, PartialEq, Eq)]
pub enum ItemEvent {
    FocusItem(String),
    OpenItem(String),
}

/// What hovering a button asks of the popup.
#[derive(Debug, Clone, Copy, PartialEq, Eq, Structural)]
pub enum HoverAction {
    /// Show the item's window list.
    OpenPopup,
    ClosePopup,
}

/// The state of one item's button: its label, its style classes and the
/// cached window count.
#[derive(Debug, Clone)]
pub struct ItemButton {
    pub app_id: String,
    pub label: Option<String>,
    pub persistent: bool,
    pub show_names: bool,
    pub show_icon: bool,
    pub icon_size: i32,
    pub open: bool,
    pub focused: bool,
    pub menu_state: MenuState,
}

impl ItemButton {
    /// The button for an item: labelled with the item's name when names are
    /// shown, styled after the item's state.
    pub fn new(item: &Item, appearance: AppearanceOptions) -> (r: ItemButton)
        ensures
            r.app_id == item.app_id,
            r.label == (if appearance.show_names {
                Some(item.name)
            } else {
                None::<String>
            }),
            r.persistent == item.favorite,
            r.show_names == appearance.show_names,
            r.show_icon == appearance.show_icons,
            r.icon_size == appearance.icon_size,
            r.open == item.open_state.open(),
            r.focused == item.open_state.focus(),
            r.menu_state.num_windows == item.entries().len(),
    {
        let label = if appearance.show_names {
            Some(item.name.clone())
        } else {
            None
        };
        ItemButton {
            app_id: item.app_id.clone(),
            label,
            persistent: item.favorite,
            show_names: appearance.show_names,
            show_icon: appearance.show_icons,
            icon_size: appearance.icon_size,
            open: item.open_state.is_open(),
            focused: item.open_state.is_focused(),
            menu_state: MenuState { num_windows: window_map_len(&item.windows) },
        }
    }

    /// Marks the button open or not; a button that is no longer open is no
    /// longer focused either.
    pub fn set_open(&mut self, open: bool)
        ensures
            *final(self) == (ItemButton { open, focused: open && old(self).focused, ..*old(self) }),
    {
        self.open = open;
        if !open {
            self.set_focused(false);
        }
    }

    pub fn set_focused(&mut self, focused: bool)
        ensures
            *final(self) == (ItemButton { focused, ..*old(self) }),
    {
        self.focused = focused;
    }

    /// Refreshes the cached window count after the item's windows changed.
    pub fn set_window_count(&mut self, num_windows: usize)
        ensures
            *final(self) == (ItemButton { menu_state: MenuState { num_windows }, ..*old(self) }),
    {
        self.menu_state = MenuState { num_windows };
    }

    /// The intent of a click: focus the application when it is open, open it
    /// otherwise.
    pub fn click_event(&self) -> (r: ItemEvent)
        ensures
            r == (if self.open {
                ItemEvent::FocusItem(self.app_id)
            } else {
                ItemEvent::OpenItem(self.app_id)
            }),
    {
        if self.open {
            ItemEvent::FocusItem(self.app_id.clone())
        } else {
            ItemEvent::OpenItem(self.app_id.clone())
        }
    }

    /// What hovering asks for: the window list when the item has more than
    /// one window, else the popup closed.
    pub fn hover_action(&self) -> (r: HoverAction)
        ensures
            r == (if self.menu_state.num_windows > 1 {
                HoverAction::OpenPopup
            } else {
                HoverAction::ClosePopup
            }),
    {
        if self.menu_state.num_windows > 1 {
            HoverAction::OpenPopup
        } else {
            HoverAction::ClosePopup
        }
    }
}

} // verus!
