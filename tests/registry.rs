use musicboom::buttons::{route_message, ThumbAction, BUTTON_NEXT, BUTTON_PLAY_OR_PAUSE, BUTTON_PREV, THUMB_BUTTON_EVENT, WM_COMMAND, WM_NCDESTROY};
use musicboom::error::TaskbarError;
use musicboom::registry::{window_labels, WindowRegistry};

#[test]
fn recorded_window_is_known_by_label() {
    let mut reg = WindowRegistry::new();
    assert!(!reg.is_registered(10));
    reg.record(10, "main".to_string());
    assert!(reg.is_registered(10));
    assert_eq!(reg.label_of(10).as_deref(), Some("main"));
    assert_eq!(reg.label_of(11), None);
    assert!(!reg.buttons_ready(10));
    reg.mark_buttons_ready(10);
    assert!(reg.buttons_ready(10));
}

#[test]
fn recreated_window_replaces_the_stale_one() {
    let mut reg = WindowRegistry::new();
    reg.record(10, "main".to_string());
    reg.record(20, "mini-player".to_string());
    reg.mark_buttons_ready(10);
    reg.record(30, "main".to_string());
    assert!(!reg.is_registered(10));
    assert!(!reg.buttons_ready(10));
    assert!(!reg.buttons_ready(30));
    assert_eq!(reg.label_of(30).as_deref(), Some("main"));
    assert_eq!(reg.label_of(20).as_deref(), Some("mini-player"));
    let labels = window_labels(&reg);
    assert_eq!(labels.len(), 2);
    assert_eq!(labels.get(&30).map(|s| s.as_str()), Some("main"));
    assert_eq!(labels.get(&20).map(|s| s.as_str()), Some("mini-player"));
}

#[test]
fn play_pause_click_sends_one_toggle_and_forwards() {
    let mut reg = WindowRegistry::new();
    reg.record(42, "main".to_string());
    let route = route_message(&reg, 42, WM_COMMAND, BUTTON_PLAY_OR_PAUSE as usize);
    assert!(route.forward);
    let click = route.click.expect("a click");
    assert_eq!(click.label, "main");
    assert_eq!(click.action, ThumbAction::Toggle);
    assert_eq!(click.action.payload(), "toggle");
    assert_eq!(THUMB_BUTTON_EVENT, "windows-thumb-button");
}

#[test]
fn command_id_is_the_low_sixteen_bits() {
    let mut reg = WindowRegistry::new();
    reg.record(42, "main".to_string());
    let r = route_message(&reg, 42, WM_COMMAND, 0x7_0000 + BUTTON_PREV as usize);
    assert_eq!(r.click.map(|c| c.action), Some(ThumbAction::Prev));
    let r = route_message(&reg, 42, WM_COMMAND, BUTTON_NEXT as usize);
    assert_eq!(r.click.map(|c| c.action.payload()), Some("next"));
}

#[test]
fn other_messages_send_nothing_but_forward() {
    let mut reg = WindowRegistry::new();
    reg.record(42, "main".to_string());
    let r = route_message(&reg, 42, WM_COMMAND + 1, BUTTON_PREV as usize);
    assert!(r.click.is_none() && r.forward);
    let r = route_message(&reg, 42, WM_COMMAND, 4);
    assert!(r.click.is_none() && r.forward);
    let r = route_message(&reg, 43, WM_COMMAND, BUTTON_PREV as usize);
    assert!(r.click.is_none() && r.forward);
    assert_eq!(ThumbAction::Prev.payload(), "prev");
}

#[test]
fn destroyed_window_is_forgotten() {
    let mut reg = WindowRegistry::new();
    reg.record(42, "main".to_string());
    reg.mark_buttons_ready(42);
    let r = route_message(&reg, 42, WM_NCDESTROY, 0);
    assert!(r.destroyed && r.forward && r.click.is_none());
    reg.forget(42);
    assert!(!reg.is_registered(42));
    assert!(!reg.buttons_ready(42));
    reg.forget(42);
    assert_eq!(window_labels(&reg).len(), 0);
    assert!(!route_message(&reg, 42, WM_COMMAND, 1).destroyed);
}

#[test]
fn registration_completes_only_with_an_installed_filter() {
    let mut reg = WindowRegistry::new();
    assert_eq!(reg.complete_registration(5, "main".to_string(), false), Err(TaskbarError::SubclassInstallFailed));
    assert!(!reg.is_registered(5));
    assert_eq!(reg.complete_registration(5, "main".to_string(), true), Ok(()));
    assert_eq!(reg.label_of(5).as_deref(), Some("main"));
    assert_eq!(reg.complete_registration(5, "other".to_string(), false), Ok(()));
    assert_eq!(reg.label_of(5).as_deref(), Some("main"));
}
