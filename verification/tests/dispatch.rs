use squri::dispatch::{activate, dispatch, AppState, Effect};

fn expect_plain_emit(e: Effect, name: &str) {
    match e {
        Effect::Emit { event } => {
            assert_eq!(event.name, name);
            assert!(event.payload.is_none());
        }
        _ => panic!("expected a plain emission of {}", name),
    }
}

fn expect_navigate(e: Effect, target: &str) {
    match e {
        Effect::Emit { event } => {
            assert_eq!(event.name, "menu-navigate");
            assert_eq!(event.payload.as_deref(), Some(target));
        }
        _ => panic!("expected a navigation to {}", target),
    }
}

#[test]
fn quit_maps_to_exit_zero() {
    match dispatch("quit") {
        Effect::Exit { code } => assert_eq!(code, 0),
        _ => panic!("expected an exit"),
    }
}

#[test]
fn file_items_map_to_their_events() {
    expect_plain_emit(dispatch("new"), "menu-new");
    expect_plain_emit(dispatch("open"), "menu-open");
    expect_plain_emit(dispatch("save"), "menu-save");
}

#[test]
fn view_items_map_to_navigation_events() {
    expect_navigate(dispatch("home"), "home");
    expect_navigate(dispatch("about"), "about");
    expect_navigate(dispatch("settings"), "settings");
    expect_navigate(dispatch("profile"), "profile");
}

#[test]
fn toggles_and_help_items_map_to_their_events() {
    expect_plain_emit(dispatch("toggle_theme"), "menu-toggle-theme");
    expect_plain_emit(dispatch("toggle_devtools"), "menu-toggle-devtools");
    expect_plain_emit(dispatch("about_app"), "menu-about-app");
    expect_plain_emit(dispatch("documentation"), "menu-documentation");
}

#[test]
fn reload_maps_to_reload() {
    assert!(matches!(dispatch("reload"), Effect::Reload));
}

#[test]
fn unmapped_identifiers_have_no_effect() {
    for id in ["undo", "redo", "cut", "copy", "paste", "select_all", "", "QUIT", "menu-save"] {
        assert!(matches!(dispatch(id), Effect::NoOp));
    }
}

#[test]
fn activating_home_emits_exactly_one_navigation() {
    let mut st = AppState::new(true);
    activate("home", &mut st);
    assert_eq!(st.emitted.len(), 1);
    assert_eq!(st.emitted[0].name, "menu-navigate");
    assert_eq!(st.emitted[0].payload.as_deref(), Some("home"));
    assert!(st.exit_code.is_none());
    assert_eq!(st.reloads, 0);
}

#[test]
fn activating_profile_emits_exactly_one_navigation() {
    let mut st = AppState::new(true);
    activate("profile", &mut st);
    assert_eq!(st.emitted.len(), 1);
    assert_eq!(st.emitted[0].name, "menu-navigate");
    assert_eq!(st.emitted[0].payload.as_deref(), Some("profile"));
    assert!(st.exit_code.is_none());
    assert_eq!(st.reloads, 0);
}

#[test]
fn activating_save_emits_only_menu_save() {
    let mut st = AppState::new(true);
    activate("save", &mut st);
    assert_eq!(st.emitted.len(), 1);
    assert_eq!(st.emitted[0].name, "menu-save");
    assert!(st.emitted[0].payload.is_none());
    assert!(st.exit_code.is_none());
    assert_eq!(st.reloads, 0);
}

#[test]
fn quit_exits_with_code_zero_and_no_prior_emission() {
    let mut st = AppState::new(true);
    activate("quit", &mut st);
    assert_eq!(st.exit_code, Some(0));
    assert!(st.emitted.is_empty());
    assert_eq!(st.reloads, 0);
}

#[test]
fn reload_without_a_window_changes_nothing() {
    let mut st = AppState::new(false);
    activate("reload", &mut st);
    assert!(st.emitted.is_empty());
    assert!(st.exit_code.is_none());
    assert_eq!(st.reloads, 0);
    assert!(!st.window_exists);
}

#[test]
fn reload_with_a_window_only_reloads() {
    let mut st = AppState::new(true);
    activate("reload", &mut st);
    assert!(st.emitted.is_empty());
    assert!(st.exit_code.is_none());
    assert_eq!(st.reloads, 1);
}

#[test]
fn a_session_accumulates_its_effects_in_order() {
    let mut st = AppState::new(true);
    activate("home", &mut st);
    activate("undo", &mut st);
    activate("save", &mut st);
    activate("quit", &mut st);
    assert_eq!(st.emitted.len(), 2);
    assert_eq!(st.emitted[0].name, "menu-navigate");
    assert_eq!(st.emitted[0].payload.as_deref(), Some("home"));
    assert_eq!(st.emitted[1].name, "menu-save");
    assert!(st.emitted[1].payload.is_none());
    assert_eq!(st.exit_code, Some(0));
    assert_eq!(st.reloads, 0);
}
