//! Web notifications of the chat page turned into desktop notifications,
//! and the permission that the page is given to send them.

use vstd::prelude::*;
use crate::text::str_equal;
use crate::window::{Command, show_main_commands, show_main};
use crate::tray::{menu_commands, MENU_OPEN, lemma_menu_ids_distinct};

verus! {

/// The application name under which desktop notifications are sent.
pub const APP_NAME: &'static str = "Zalo";

/// The summary of a notification whose web notification has no title.
pub const DEFAULT_TITLE: &'static str = "Zalo";

/// The icon name of desktop notifications.
pub const NOTIFICATION_ICON: &'static str = "zalo-tauri";

/// The key of the notification action that opens the main window; it is
/// the action of a click on the notification itself.
pub const OPEN_ACTION: &'static str = "default";

/// The label of the action that opens the main window.
pub const OPEN_ACTION_LABEL: &'static str = "Mở Zalo";

/// The web origin that is allowed to send notifications.
pub const NOTIFICATION_ORIGIN: &'static str = "https://chat.zalo.me";

/// A desktop notification, ready to be sent.
#[derive(Debug)]
pub struct NativeNotification {
    pub appname: &'static str,
    pub summary: String,
    pub body: String,
    pub icon: &'static str,
    pub action: &'static str,
    pub action_label: &'static str,
}

/// The desktop notification for a web notification with the given title
/// and body: an absent title becomes the application's name, an absent body
/// the empty text; the notification carries the application's name and icon
/// and one action, which opens the main window.
pub fn native_notification(title: Option<String>, body: Option<String>) -> (n: NativeNotification)
    ensures
        n.summary@ == (match title {
            Some(t) => t@,
            None => DEFAULT_TITLE@,
        }),
        n.body@ == (match body {
            Some(b) => b@,
            None => Seq::<char>::empty(),
        }),
        n.appname@ == APP_NAME@,
        n.icon@ == NOTIFICATION_ICON@,
        n.action@ == OPEN_ACTION@,
        n.action_label@ == OPEN_ACTION_LABEL@,
{
    let summary = match title {
        Some(t) => t,
        None => String::from_str(DEFAULT_TITLE),
    };
    let body = match body {
        Some(b) => b,
        None => String::new(),
    };
    NativeNotification {
        appname: APP_NAME,
        summary,
        body,
        icon: NOTIFICATION_ICON,
        action: OPEN_ACTION,
        action_label: OPEN_ACTION_LABEL,
    }
}

/// The commands that answer an action invoked on a notification.
pub open spec fn action_commands(action: Seq<char>, main_window_exists: bool) -> Seq<Command> {
    if action == OPEN_ACTION@ && main_window_exists {
        show_main_commands()
    } else {
        Seq::empty()
    }
}

/// Answers an action invoked on a notification: the open action brings the
/// main window to the front; any other action, such as the notification
/// being closed, does nothing.
pub fn on_notification_action(action: &str, main_window_exists: bool) -> (cmds: Vec<Command>)
    ensures
        cmds@ == action_commands(action@, main_window_exists),
{
    if str_equal(action, OPEN_ACTION) {
        show_main(main_window_exists)
    } else {
        Vec::new()
    }
}

/// The kind of a permission that the web page asks for.
#[derive(Clone, Copy, Debug, PartialEq, Eq, Structural)]
pub enum PermissionKind {
    Notification,
    Other,
}

/// The answer to a permission request.
#[derive(Clone, Copy, Debug, PartialEq, Eq, Structural)]
pub enum PermissionDecision {
    /// Allow the request; the request is handled.
    Grant,
    /// Leave the request to the web view's default handling.
    Pass,
}

/// Answers a permission request of the web page: notifications are
/// allowed, everything else is left to the web view.
pub fn decide_permission(kind: PermissionKind) -> (decision: PermissionDecision)
    ensures
        decision == (if kind == PermissionKind::Notification {
            PermissionDecision::Grant
        } else {
            PermissionDecision::Pass
        }),
{
    match kind {
        PermissionKind::Notification => PermissionDecision::Grant,
        PermissionKind::Other => PermissionDecision::Pass,
    }
}

/// Whether a permission decision handles the request, so that no other
/// handler sees it.
pub fn is_handled(decision: PermissionDecision) -> (handled: bool)
    ensures
        handled == (decision == PermissionDecision::Grant),
{
    match decision {
        PermissionDecision::Grant => true,
        PermissionDecision::Pass => false,
    }
}

/// The origins whose notifications are allowed and those whose are denied,
/// set in the web context before the page asks.
pub fn notification_permissions() -> (origins: (Vec<&'static str>, Vec<&'static str>))
    ensures
        origins.0@.len() == 1,
        origins.0@[0]@ == NOTIFICATION_ORIGIN@,
        origins.1@.len() == 0,
{
    let mut allowed: Vec<&'static str> = Vec::new();
    allowed.push(NOTIFICATION_ORIGIN);
    (allowed, Vec::new())
}

/// A click on a notification does what the tray's "open" entry does.
pub proof fn lemma_click_opens_like_tray(main_window_exists: bool)
    ensures
        action_commands(OPEN_ACTION@, main_window_exists) == menu_commands(MENU_OPEN@, main_window_exists),
{
    lemma_menu_ids_distinct();
}

/// Only the open action brings the window to the front; every other action
/// leaves everything as it is.
pub proof fn lemma_only_open_action_acts(action: Seq<char>, main_window_exists: bool)
    ensures
        action != OPEN_ACTION@ ==> action_commands(action, main_window_exists).len() == 0,
{
}

} // verus!
