use launcher_core::button::{AppearanceOptions, HoverAction, ItemButton, ItemEvent};
use launcher_core::config::{
    click_button, ClickButton, Orientation, RevealerTransitionType, TransitionType, Visibility,
};
use launcher_core::item::Item;
use launcher_core::open_state::OpenState;
use launcher_core::window::{LauncherError, ToplevelHandle, ToplevelInfo, Window};

fn handle(id: usize, title: &str, open: bool, focused: bool) -> ToplevelHandle {
    ToplevelHandle {
        info: Some(ToplevelInfo {
            id,
            title: title.to_string(),
            app_id: "firefox".to_string(),
            open,
            focused,
        }),
    }
}

fn pending() -> ToplevelHandle {
    ToplevelHandle { info: None }
}

fn window_ids(item: &Item) -> Vec<usize> {
    item.windows.keys().copied().collect()
}

#[test]
fn merge_of_no_states_is_closed() {
    assert_eq!(OpenState::merge_states(&[]), OpenState::Closed);
}

#[test]
fn merge_takes_most_important_state() {
    let closed = OpenState::Closed;
    let open = OpenState::Open { focused: false };
    let focused = OpenState::Open { focused: true };
    assert_eq!(OpenState::merge_states(&[closed, closed]), closed);
    assert_eq!(OpenState::merge_states(&[closed, open, closed]), open);
    assert_eq!(OpenState::merge_states(&[open, focused, closed]), focused);
    assert_eq!(OpenState::merge_states(&[focused, open]), focused);
}

#[test]
fn state_flags_and_queries() {
    assert_eq!(OpenState::from_flags(false, true), OpenState::Closed);
    assert_eq!(OpenState::from_flags(true, false), OpenState::Open { focused: false });
    assert_eq!(OpenState::from_flags(true, true), OpenState::focused(true));
    assert!(OpenState::focused(false).is_open());
    assert!(!OpenState::focused(false).is_focused());
    assert!(OpenState::focused(true).is_focused());
    assert!(!OpenState::Closed.is_open());
}

#[test]
fn focus_toggle_keeps_open_bit() {
    let open = OpenState::Open { focused: false };
    assert_eq!(open.with_focus(true).with_focus(false), open);
    assert_eq!(OpenState::Closed.with_focus(true), OpenState::Closed);
    assert_eq!(OpenState::Closed.with_focus(true).with_focus(false), OpenState::Closed);
}

#[test]
fn favorite_item_lifecycle() {
    let mut item = Item::new("firefox".to_string(), OpenState::Closed, true);
    assert_eq!(item.open_state, OpenState::Closed);
    assert!(item.favorite);
    assert_eq!(item.name, "");

    let first = item.merge_toplevel(handle(1, "Mozilla Firefox", true, false)).unwrap();
    assert_eq!(first.id, 1);
    assert_eq!(first.name, "Mozilla Firefox");
    assert_eq!(item.open_state, OpenState::Open { focused: false });
    assert_eq!(item.name, "Mozilla Firefox");

    item.merge_toplevel(handle(2, "Private Browsing", true, true)).unwrap();
    assert_eq!(item.open_state, OpenState::Open { focused: true });
    assert_eq!(item.name, "Mozilla Firefox");
    assert_eq!(window_ids(&item), vec![1, 2]);

    item.unmerge_toplevel(&handle(1, "Mozilla Firefox", true, false));
    assert_eq!(item.open_state, OpenState::Open { focused: true });
    assert_eq!(window_ids(&item), vec![2]);

    item.unmerge_toplevel(&handle(2, "Private Browsing", true, true));
    assert_eq!(item.open_state, OpenState::Closed);
    assert!(item.windows.is_empty());
    assert!(item.favorite);
}

#[test]
fn merge_without_info_fails() {
    let mut item = Item::new("firefox".to_string(), OpenState::Closed, false);
    let r = item.merge_toplevel(pending());
    assert!(matches!(r, Err(LauncherError::MissingInfo)));
    assert!(item.windows.is_empty());
    assert_eq!(item.name, "");
}

#[test]
fn unmerge_without_info_is_noop() {
    let mut item = Item::new("firefox".to_string(), OpenState::Closed, false);
    item.merge_toplevel(handle(4, "Docs", true, true)).unwrap();
    item.unmerge_toplevel(&pending());
    assert_eq!(window_ids(&item), vec![4]);
    assert_eq!(item.open_state, OpenState::Open { focused: true });
}

#[test]
fn unmerge_of_unknown_window_keeps_windows() {
    let mut item = Item::new("firefox".to_string(), OpenState::Closed, false);
    item.merge_toplevel(handle(4, "Docs", true, false)).unwrap();
    item.unmerge_toplevel(&handle(9, "Other", true, false));
    assert_eq!(window_ids(&item), vec![4]);
    assert_eq!(item.open_state, OpenState::Open { focused: false });
}

#[test]
fn merge_same_id_replaces_in_place() {
    let mut item = Item::new("firefox".to_string(), OpenState::Closed, false);
    item.merge_toplevel(handle(1, "One", true, false)).unwrap();
    item.merge_toplevel(handle(2, "Two", true, false)).unwrap();
    item.merge_toplevel(handle(1, "One again", true, true)).unwrap();
    assert_eq!(window_ids(&item), vec![1, 2]);
    assert_eq!(item.windows.get(&1).unwrap().name, "One again");
    assert_eq!(item.open_state, OpenState::Open { focused: true });
    assert_eq!(item.name, "One");
}

#[test]
fn removal_keeps_discovery_order() {
    let mut item = Item::new("term".to_string(), OpenState::Closed, false);
    for id in [5usize, 3, 8, 1] {
        item.merge_toplevel(handle(id, "t", true, false)).unwrap();
    }
    item.unmerge_toplevel(&handle(3, "t", true, false));
    assert_eq!(window_ids(&item), vec![5, 8, 1]);
}

#[test]
fn item_from_handle() {
    let item = Item::from_handle(handle(7, "Inbox", true, true)).unwrap();
    assert_eq!(item.app_id, "firefox");
    assert_eq!(item.name, "Inbox");
    assert!(!item.favorite);
    assert_eq!(item.open_state, OpenState::Open { focused: true });
    assert_eq!(window_ids(&item), vec![7]);
    assert!(matches!(Item::from_handle(pending()), Err(LauncherError::MissingInfo)));
}

#[test]
fn window_from_handle() {
    let w = Window::from_handle(&handle(3, "Editor", false, false)).unwrap();
    assert_eq!(w.id, 3);
    assert_eq!(w.name, "Editor");
    assert_eq!(w.open_state, OpenState::Closed);
    assert!(matches!(Window::from_handle(&pending()), Err(LauncherError::MissingInfo)));
}

#[test]
fn focused_window_rename_renames_item() {
    let mut item = Item::new("firefox".to_string(), OpenState::Closed, false);
    item.merge_toplevel(handle(1, "One", true, false)).unwrap();
    item.merge_toplevel(handle(2, "Two", true, true)).unwrap();

    item.set_window_name(1, "Renamed one".to_string());
    assert_eq!(item.windows.get(&1).unwrap().name, "Renamed one");
    assert_eq!(item.name, "One");

    item.set_window_name(2, "Renamed two".to_string());
    assert_eq!(item.windows.get(&2).unwrap().name, "Renamed two");
    assert_eq!(item.name, "Renamed two");

    item.set_window_name(9, "Nobody".to_string());
    assert_eq!(item.name, "Renamed two");
    assert_eq!(window_ids(&item), vec![1, 2]);
}

#[test]
fn focus_changes_recompute_item_state() {
    let mut item = Item::new("firefox".to_string(), OpenState::Closed, false);
    item.merge_toplevel(handle(1, "One", true, false)).unwrap();
    item.merge_toplevel(handle(2, "Two", true, false)).unwrap();
    assert_eq!(item.open_state, OpenState::Open { focused: false });

    item.set_window_focused(2, true);
    assert_eq!(item.windows.get(&2).unwrap().open_state, OpenState::Open { focused: true });
    assert_eq!(item.open_state, OpenState::Open { focused: true });

    item.set_window_focused(2, false);
    assert_eq!(item.windows.get(&2).unwrap().open_state, OpenState::Open { focused: false });
    assert_eq!(item.open_state, OpenState::Open { focused: false });

    item.set_window_focused(9, true);
    assert_eq!(item.open_state, OpenState::Open { focused: false });
}

#[test]
fn focus_does_not_open_closed_window() {
    let mut item = Item::new("firefox".to_string(), OpenState::Closed, false);
    item.merge_toplevel(handle(1, "One", false, false)).unwrap();
    item.set_window_focused(1, true);
    assert_eq!(item.windows.get(&1).unwrap().open_state, OpenState::Closed);
    assert_eq!(item.open_state, OpenState::Closed);
}

fn appearance(show_names: bool) -> AppearanceOptions {
    AppearanceOptions { show_names, show_icons: true, icon_size: 32 }
}

#[test]
fn button_reflects_item() {
    let mut item = Item::new("firefox".to_string(), OpenState::Closed, true);
    item.merge_toplevel(handle(1, "One", true, true)).unwrap();
    let button = ItemButton::new(&item, appearance(true));
    assert_eq!(button.label.as_deref(), Some("One"));
    assert!(button.persistent);
    assert!(button.open);
    assert!(button.focused);
    assert_eq!(button.menu_state.num_windows, 1);
    assert_eq!(button.icon_size, 32);

    let unnamed = ItemButton::new(&item, appearance(false));
    assert_eq!(unnamed.label, None);
}

#[test]
fn button_click_and_hover() {
    let mut item = Item::new("firefox".to_string(), OpenState::Closed, true);
    let mut button = ItemButton::new(&item, appearance(true));
    assert_eq!(button.click_event(), ItemEvent::OpenItem("firefox".to_string()));
    assert_eq!(button.hover_action(), HoverAction::ClosePopup);

    item.merge_toplevel(handle(1, "One", true, false)).unwrap();
    item.merge_toplevel(handle(2, "Two", true, false)).unwrap();
    button.set_open(item.open_state.is_open());
    button.set_window_count(item.windows.len());
    assert_eq!(button.click_event(), ItemEvent::FocusItem("firefox".to_string()));
    assert_eq!(button.hover_action(), HoverAction::OpenPopup);
}

#[test]
fn closing_button_clears_focus() {
    let mut item = Item::new("firefox".to_string(), OpenState::Closed, false);
    item.merge_toplevel(handle(1, "One", true, true)).unwrap();
    let mut button = ItemButton::new(&item, appearance(true));
    button.set_open(true);
    assert!(button.focused);
    button.set_open(false);
    assert!(!button.open);
    assert!(!button.focused);
    button.set_focused(true);
    assert!(button.focused);
}

#[test]
fn transition_types_per_orientation() {
    let h = Orientation::Horizontal;
    let v = Orientation::Vertical;
    assert_eq!(TransitionType::SlideStart.to_revealer_transition_type(h), RevealerTransitionType::SlideLeft);
    assert_eq!(TransitionType::SlideStart.to_revealer_transition_type(v), RevealerTransitionType::SlideUp);
    assert_eq!(TransitionType::SlideEnd.to_revealer_transition_type(h), RevealerTransitionType::SlideRight);
    assert_eq!(TransitionType::SlideEnd.to_revealer_transition_type(v), RevealerTransitionType::SlideDown);
    assert_eq!(TransitionType::Crossfade.to_revealer_transition_type(v), RevealerTransitionType::Crossfade);
    assert_eq!(TransitionType::Instant.to_revealer_transition_type(h), RevealerTransitionType::Instant);
}

#[test]
fn click_buttons() {
    assert_eq!(click_button(1), Some(ClickButton::Left));
    assert_eq!(click_button(2), Some(ClickButton::Middle));
    assert_eq!(click_button(3), Some(ClickButton::Right));
    assert_eq!(click_button(0), None);
    assert_eq!(click_button(8), None);
}

#[test]
fn condition_true_false_true_ends_visible() {
    let mut v = Visibility::conditional();
    assert!(!v.container_visible);
    v.on_condition_result(true);
    v.on_condition_result(false);
    v.on_condition_result(true);
    // the revealer reports the end of an animation that started while hiding
    v.on_reveal_finished();
    assert!(v.container_visible);
    assert!(v.reveal_child);
}

#[test]
fn condition_false_hides_after_animation() {
    let mut v = Visibility::conditional();
    v.on_condition_result(true);
    v.on_reveal_finished();
    assert!(v.container_visible && v.reveal_child);
    v.on_condition_result(false);
    assert!(v.container_visible);
    assert!(!v.reveal_child);
    v.on_reveal_finished();
    assert!(!v.container_visible);
}

#[test]
fn unconditional_stays_visible() {
    let mut v = Visibility::unconditional();
    v.on_condition_result(false);
    v.on_reveal_finished();
    assert!(v.container_visible && v.reveal_child);
}
