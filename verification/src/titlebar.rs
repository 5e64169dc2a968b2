//! The compact title bar: its title, its three window buttons, and what
//! clicking each of them does.

use vstd::prelude::*;
use crate::window::{Command, AppView, apply, apply_all, event_commands, toggle_command, toggle_maximized, WindowEvent};

verus! {

/// The text of the title bar.
pub const TITLE: &'static str = "Zalo";

/// The style class of the header bar.
pub const HEADER_CLASS: &'static str = "zalo-compact-titlebar";

/// The style class of the title label.
pub const TITLE_CLASS: &'static str = "zalo-title";

/// The style class of the box that holds the window buttons.
pub const CONTROLS_CLASS: &'static str = "zalo-window-controls";

/// The spacing, in pixels, between the window buttons.
pub const CONTROLS_SPACING: i32 = 2;

/// The style class of every window button.
pub const BUTTON_CLASS: &'static str = "zalo-window-button";

/// The extra style class of the close button.
pub const CLOSE_BUTTON_CLASS: &'static str = "zalo-close-button";

/// A window button of the title bar.
#[derive(Clone, Copy, Debug, PartialEq, Eq, Structural)]
pub enum TitlebarButton {
    Minimize,
    Maximize,
    Close,
}

/// How a window button looks: its icon, its tooltip, and whether it takes
/// the close button's style besides the common one.
#[derive(Clone, Copy, Debug)]
pub struct ButtonSpec {
    pub icon: &'static str,
    pub tooltip: &'static str,
    pub close_style: bool,
}

/// The window buttons, in the order in which they stand in the title bar.
pub open spec fn control_order() -> Seq<TitlebarButton> {
    seq![TitlebarButton::Minimize, TitlebarButton::Maximize, TitlebarButton::Close]
}

/// The window buttons, from left to right.
pub fn window_controls() -> (buttons: Vec<TitlebarButton>)
    ensures
        buttons@ == control_order(),
{
    let mut buttons: Vec<TitlebarButton> = Vec::new();
    buttons.push(TitlebarButton::Minimize);
    buttons.push(TitlebarButton::Maximize);
    buttons.push(TitlebarButton::Close);
    buttons
}

/// The look of a window button.
pub fn button_spec(button: TitlebarButton) -> (spec: ButtonSpec)
    ensures
        spec.close_style == (button == TitlebarButton::Close),
        spec.icon@ == (match button {
            TitlebarButton::Minimize => "window-minimize-symbolic"@,
            TitlebarButton::Maximize => "window-maximize-symbolic"@,
            TitlebarButton::Close => "window-close-symbolic"@,
        }),
        spec.tooltip@ == (match button {
            TitlebarButton::Minimize => "Thu nhỏ"@,
            TitlebarButton::Maximize => "Phóng to / Khôi phục"@,
            TitlebarButton::Close => "Đóng xuống khay hệ thống"@,
        }),
{
    match button {
        TitlebarButton::Minimize => ButtonSpec {
            icon: "window-minimize-symbolic",
            tooltip: "Thu nhỏ",
            close_style: false,
        },
        TitlebarButton::Maximize => ButtonSpec {
            icon: "window-maximize-symbolic",
            tooltip: "Phóng to / Khôi phục",
            close_style: false,
        },
        TitlebarButton::Close => ButtonSpec {
            icon: "window-close-symbolic",
            tooltip: "Đóng xuống khay hệ thống",
            close_style: true,
        },
    }
}

/// The command that a click on a window button gives.
pub open spec fn click_command(button: TitlebarButton, is_maximized: bool) -> Command {
    match button {
        TitlebarButton::Minimize => Command::Iconify,
        TitlebarButton::Maximize => toggle_command(is_maximized),
        TitlebarButton::Close => Command::Hide,
    }
}

/// Answers a click on a window button: minimize minimizes, maximize
/// switches between maximized and normal size, and close hides the window
/// into the tray.
pub fn on_button_clicked(button: TitlebarButton, is_maximized: bool) -> (cmd: Command)
    ensures
        cmd == click_command(button, is_maximized),
{
    match button {
        TitlebarButton::Minimize => Command::Iconify,
        TitlebarButton::Maximize => toggle_maximized(is_maximized),
        TitlebarButton::Close => Command::Hide,
    }
}

/// The close button of the title bar does to the window what a close
/// request does: it hides it, and the application keeps running.
pub proof fn lemma_close_button_hides_to_tray(app: AppView, is_maximized: bool)
    ensures
        apply(app, click_command(TitlebarButton::Close, is_maximized))
            == apply_all(app, event_commands(WindowEvent::CloseRequested)),
        apply(app, click_command(TitlebarButton::Close, is_maximized)).running == app.running,
        !apply(app, click_command(TitlebarButton::Close, is_maximized)).visible,
{
    reveal_with_fuel(apply_all, 3);
}

/// The minimize button minimizes the window, whether it is maximized or
/// not: the window ends minimized and unfocused, keeps its size and its
/// visibility, and the application keeps running.
pub proof fn lemma_minimize_button_minimizes(app: AppView, is_maximized: bool)
    ensures
        click_command(TitlebarButton::Minimize, is_maximized) == Command::Iconify,
        apply(app, click_command(TitlebarButton::Minimize, is_maximized)).minimized,
        !apply(app, click_command(TitlebarButton::Minimize, is_maximized)).focused,
        apply(app, click_command(TitlebarButton::Minimize, is_maximized)).maximized == app.maximized,
        apply(app, click_command(TitlebarButton::Minimize, is_maximized)).visible == app.visible,
        apply(app, click_command(TitlebarButton::Minimize, is_maximized)).running == app.running,
{
}

/// The maximize button switches the window between maximized and normal
/// size, and changes nothing else.
pub proof fn lemma_maximize_button_toggles_size(app: AppView)
    ensures
        apply(app, click_command(TitlebarButton::Maximize, app.maximized)).maximized == !app.maximized,
        apply(app, click_command(TitlebarButton::Maximize, app.maximized)).minimized == app.minimized,
        apply(app, click_command(TitlebarButton::Maximize, app.maximized)).visible == app.visible,
        apply(app, click_command(TitlebarButton::Maximize, app.maximized)).focused == app.focused,
        apply(app, click_command(TitlebarButton::Maximize, app.maximized)).running == app.running,
{
}

} // verus!
