use cosmic_applet_minimize::protocol::{ToplevelInfo, ToplevelState, ToplevelUpdate, WindowHandle};
use cosmic_applet_minimize::registry::WindowRegistry;

fn info(app_id: &str, title: &str) -> ToplevelInfo {
    ToplevelInfo { app_id: app_id.to_string(), title: title.to_string(), states: Vec::new() }
}

/// Applies `update`, calling the fake resolver only when the registry asks,
/// and records every resolution.
fn deliver(reg: &mut WindowRegistry<String>, update: ToplevelUpdate, calls: &mut Vec<String>) {
    let resolved = if reg.needs_metadata(&update) {
        let app_id = match &update {
            ToplevelUpdate::Add(_, i) | ToplevelUpdate::Update(_, i) => i.app_id.clone(),
            ToplevelUpdate::Remove(_) => unreachable!(),
        };
        calls.push(app_id.clone());
        Some(format!("meta:{app_id}"))
    } else {
        None
    };
    reg.apply(update, resolved);
}

fn handles(reg: &WindowRegistry<String>) -> Vec<u64> {
    reg.entries().iter().map(|e| e.handle.0).collect()
}

#[test]
fn scenario_add_add_remove() {
    let mut reg = WindowRegistry::new();
    let mut calls = Vec::new();
    deliver(&mut reg, ToplevelUpdate::Add(WindowHandle(1), info("a", "")), &mut calls);
    assert_eq!(handles(&reg), vec![1]);
    assert_eq!(calls, vec!["a".to_string()]);
    assert_eq!(reg.entries()[0].metadata, "meta:a");
    deliver(&mut reg, ToplevelUpdate::Add(WindowHandle(2), info("b", "")), &mut calls);
    assert_eq!(handles(&reg), vec![1, 2]);
    deliver(&mut reg, ToplevelUpdate::Remove(WindowHandle(1)), &mut calls);
    assert_eq!(handles(&reg), vec![2]);
    assert_eq!(reg.entries()[0].metadata, "meta:b");
}

#[test]
fn scenario_update_same_app_id_resolves_once() {
    let mut reg = WindowRegistry::new();
    let mut calls = Vec::new();
    deliver(&mut reg, ToplevelUpdate::Add(WindowHandle(1), info("a", "")), &mut calls);
    deliver(&mut reg, ToplevelUpdate::Update(WindowHandle(1), info("a", "new")), &mut calls);
    assert_eq!(calls.len(), 1);
    assert_eq!(reg.entries()[0].info.title, "new");
    assert_eq!(reg.entries()[0].metadata, "meta:a");
}

#[test]
fn scenario_app_id_changes_resolve_each_time() {
    let mut reg = WindowRegistry::new();
    let mut calls = Vec::new();
    deliver(&mut reg, ToplevelUpdate::Add(WindowHandle(1), info("a", "")), &mut calls);
    deliver(&mut reg, ToplevelUpdate::Update(WindowHandle(1), info("b", "")), &mut calls);
    deliver(&mut reg, ToplevelUpdate::Update(WindowHandle(1), info("c", "")), &mut calls);
    assert_eq!(calls, vec!["a".to_string(), "b".to_string(), "c".to_string()]);
    assert_eq!(reg.len(), 1);
    assert_eq!(reg.entries()[0].metadata, "meta:c");
    assert_eq!(reg.entries()[0].info.app_id, "c");
}

#[test]
fn repeated_adds_keep_one_entry_per_handle() {
    let mut reg = WindowRegistry::new();
    let mut calls = Vec::new();
    for (h, app) in [(1, "a"), (2, "b"), (1, "a"), (3, "c"), (2, "b"), (1, "x")] {
        deliver(&mut reg, ToplevelUpdate::Add(WindowHandle(h), info(app, "")), &mut calls);
    }
    assert_eq!(handles(&reg), vec![1, 2, 3]);
    // the repeated Add with the same application identifier resolved nothing
    assert_eq!(calls, vec!["a".to_string(), "b".to_string(), "c".to_string(), "x".to_string()]);
    assert_eq!(reg.entries()[0].info.app_id, "x");
    assert_eq!(reg.entries()[0].metadata, "meta:x");
}

#[test]
fn survivors_keep_insertion_order() {
    let mut reg = WindowRegistry::new();
    let mut calls = Vec::new();
    for h in 1..=4 {
        deliver(&mut reg, ToplevelUpdate::Add(WindowHandle(h), info("a", "")), &mut calls);
    }
    deliver(&mut reg, ToplevelUpdate::Remove(WindowHandle(2)), &mut calls);
    deliver(&mut reg, ToplevelUpdate::Add(WindowHandle(5), info("a", "")), &mut calls);
    deliver(&mut reg, ToplevelUpdate::Remove(WindowHandle(1)), &mut calls);
    deliver(&mut reg, ToplevelUpdate::Add(WindowHandle(1), info("a", "")), &mut calls);
    assert_eq!(handles(&reg), vec![3, 4, 5, 1]);
}

#[test]
fn update_with_same_app_id_needs_no_metadata() {
    let mut reg = WindowRegistry::new();
    let mut calls = Vec::new();
    deliver(&mut reg, ToplevelUpdate::Add(WindowHandle(7), info("term", "one")), &mut calls);
    let mut changed = info("term", "two");
    changed.states.push(ToplevelState::Activated);
    let u = ToplevelUpdate::Update(WindowHandle(7), changed);
    assert!(!reg.needs_metadata(&u));
    deliver(&mut reg, u, &mut calls);
    assert_eq!(calls.len(), 1);
    assert_eq!(reg.entries()[0].info.states, vec![ToplevelState::Activated]);
    assert!(reg.needs_metadata(&ToplevelUpdate::Update(WindowHandle(7), info("other", "two"))));
}

#[test]
fn update_of_unknown_window_is_ignored() {
    let mut reg = WindowRegistry::new();
    let mut calls = Vec::new();
    deliver(&mut reg, ToplevelUpdate::Add(WindowHandle(1), info("a", "")), &mut calls);
    deliver(&mut reg, ToplevelUpdate::Update(WindowHandle(9), info("b", "")), &mut calls);
    assert_eq!(handles(&reg), vec![1]);
    assert_eq!(calls.len(), 1);
    assert_eq!(reg.entries()[0].info.app_id, "a");
}

#[test]
fn remove_on_empty_registry_is_a_no_op() {
    let mut reg: WindowRegistry<String> = WindowRegistry::new();
    let mut calls = Vec::new();
    deliver(&mut reg, ToplevelUpdate::Remove(WindowHandle(1)), &mut calls);
    assert_eq!(reg.len(), 0);
    assert!(calls.is_empty());
}

#[test]
fn remove_twice_equals_remove_once() {
    let mut calls = Vec::new();
    let mut once = WindowRegistry::new();
    let mut twice = WindowRegistry::new();
    for reg in [&mut once, &mut twice] {
        deliver(reg, ToplevelUpdate::Add(WindowHandle(1), info("a", "")), &mut calls);
        deliver(reg, ToplevelUpdate::Add(WindowHandle(2), info("b", "")), &mut calls);
        deliver(reg, ToplevelUpdate::Remove(WindowHandle(1)), &mut calls);
    }
    deliver(&mut twice, ToplevelUpdate::Remove(WindowHandle(1)), &mut calls);
    assert_eq!(handles(&once), handles(&twice));
    assert_eq!(handles(&once), vec![2]);
}

#[test]
fn position_finds_known_windows_only() {
    let mut reg = WindowRegistry::new();
    let mut calls = Vec::new();
    deliver(&mut reg, ToplevelUpdate::Add(WindowHandle(10), info("a", "")), &mut calls);
    deliver(&mut reg, ToplevelUpdate::Add(WindowHandle(20), info("b", "")), &mut calls);
    assert_eq!(reg.position(WindowHandle(20)), Some(1));
    assert_eq!(reg.position(WindowHandle(10)), Some(0));
    assert_eq!(reg.position(WindowHandle(30)), None);
    assert_eq!(ToplevelUpdate::Remove(WindowHandle(30)).handle(), WindowHandle(30));
}
