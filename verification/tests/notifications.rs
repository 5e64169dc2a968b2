use zalo_tauri::notifications::{
    decide_permission, is_handled, native_notification, notification_permissions,
    on_notification_action, PermissionDecision, PermissionKind, APP_NAME, DEFAULT_TITLE,
    NOTIFICATION_ICON, NOTIFICATION_ORIGIN, OPEN_ACTION, OPEN_ACTION_LABEL,
};
use zalo_tauri::tray::on_menu_event;
use zalo_tauri::window::show_main;

#[test]
fn notification_keeps_title_and_body() {
    let n = native_notification(Some("An".to_string()), Some("Xin chào".to_string()));
    assert_eq!(n.summary, "An");
    assert_eq!(n.body, "Xin chào");
    assert_eq!(n.appname, "Zalo");
    assert_eq!(n.icon, "zalo-tauri");
    assert_eq!(n.action, "default");
    assert_eq!(n.action_label, "Mở Zalo");
}

#[test]
fn missing_title_and_body_get_defaults() {
    let n = native_notification(None, None);
    assert_eq!(n.summary, "Zalo");
    assert_eq!(n.body, "");
}

#[test]
fn empty_title_is_kept() {
    let n = native_notification(Some(String::new()), None);
    assert_eq!(n.summary, "");
}

#[test]
fn notification_constants() {
    assert_eq!(APP_NAME, "Zalo");
    assert_eq!(DEFAULT_TITLE, "Zalo");
    assert_eq!(NOTIFICATION_ICON, "zalo-tauri");
    assert_eq!(OPEN_ACTION, "default");
    assert_eq!(OPEN_ACTION_LABEL, "Mở Zalo");
    assert_eq!(NOTIFICATION_ORIGIN, "https://chat.zalo.me");
}

#[test]
fn clicking_a_notification_opens_the_window() {
    assert_eq!(on_notification_action("default", true), show_main(true));
    assert_eq!(on_notification_action("default", true), on_menu_event("open", true));
    assert!(on_notification_action("default", false).is_empty());
}

#[test]
fn other_notification_actions_do_nothing() {
    assert!(on_notification_action("__closed", true).is_empty());
    assert!(on_notification_action("Default", true).is_empty());
    assert!(on_notification_action("", true).is_empty());
}

#[test]
fn only_notification_permission_is_granted() {
    assert_eq!(decide_permission(PermissionKind::Notification), PermissionDecision::Grant);
    assert_eq!(decide_permission(PermissionKind::Other), PermissionDecision::Pass);
    assert!(is_handled(PermissionDecision::Grant));
    assert!(!is_handled(PermissionDecision::Pass));
}

#[test]
fn only_the_chat_origin_is_allowed() {
    let (allowed, denied) = notification_permissions();
    assert_eq!(allowed, vec!["https://chat.zalo.me"]);
    assert!(denied.is_empty());
}
