//! What happens to the main window: showing it, hiding it, maximizing it,
//! and answering a request to close it.
//!
//! The functions here decide; the shell around the library reads the window
//! (whether it exists, whether it is maximized) and carries out the
//! commands in the order given.

use vstd::prelude::*;

verus! {

/// The label under which the shell registers its main window.
pub const MAIN_WINDOW_LABEL: &'static str = "main";

/// An operation on the main window or on the application.
#[derive(Clone, Copy, Debug, PartialEq, Eq, Structural)]
pub enum Command {
    /// Restore the window from the minimized state.
    Unminimize,
    /// Make the window visible.
    Show,
    /// Give the window the input focus.
    SetFocus,
    /// Hide the window (it stays alive behind the tray icon).
    Hide,
    /// Minimize the window.
    Iconify,
    /// Maximize the window.
    Maximize,
    /// Restore the window from the maximized state.
    Unmaximize,
    /// Cancel the close request that is being handled.
    PreventClose,
    /// End the application with the given exit code.
    Exit(i32),
}

/// What the shell knows of the application: whether it still runs, and the
/// state of its main window.
pub struct AppView {
    pub running: bool,
    pub visible: bool,
    pub minimized: bool,
    pub maximized: bool,
    pub focused: bool,
}

/// The effect of one command on the application.
pub open spec fn apply(app: AppView, cmd: Command) -> AppView {
    match cmd {
        Command::Unminimize => AppView { minimized: false, ..app },
        Command::Show => AppView { visible: true, ..app },
        Command::SetFocus => AppView { focused: true, ..app },
        Command::Hide => AppView { visible: false, focused: false, ..app },
        Command::Iconify => AppView { minimized: true, focused: false, ..app },
        Command::Maximize => AppView { maximized: true, ..app },
        Command::Unmaximize => AppView { maximized: false, ..app },
        Command::PreventClose => app,
        Command::Exit(_) => AppView { running: false, ..app },
    }
}

/// The effect of a list of commands carried out from first to last.
pub open spec fn apply_all(app: AppView, cmds: Seq<Command>) -> AppView
    decreases cmds.len(),
{
    if cmds.len() == 0 {
        app
    } else {
        apply_all(apply(app, cmds[0]), cmds.drop_first())
    }
}

/// The commands that bring the main window to the front.
pub open spec fn show_main_commands() -> Seq<Command> {
    seq![Command::Unminimize, Command::Show, Command::SetFocus]
}

/// Brings the main window to the front: restores it, shows it and focuses
/// it. Without a main window there is nothing to do.
pub fn show_main(main_window_exists: bool) -> (cmds: Vec<Command>)
    ensures
        cmds@ == (if main_window_exists { show_main_commands() } else { Seq::empty() }),
{
    let mut cmds: Vec<Command> = Vec::new();
    if main_window_exists {
        cmds.push(Command::Unminimize);
        cmds.push(Command::Show);
        cmds.push(Command::SetFocus);
    }
    cmds
}

/// Hides the main window, if there is one.
pub fn hide_main(main_window_exists: bool) -> (cmds: Vec<Command>)
    ensures
        cmds@ == (if main_window_exists { seq![Command::Hide] } else { Seq::empty() }),
{
    let mut cmds: Vec<Command> = Vec::new();
    if main_window_exists {
        cmds.push(Command::Hide);
    }
    cmds
}

/// The command that switches a window between the maximized and the normal
/// size.
pub open spec fn toggle_command(is_maximized: bool) -> Command {
    if is_maximized {
        Command::Unmaximize
    } else {
        Command::Maximize
    }
}

/// Switches between the maximized and the normal size.
pub fn toggle_maximized(is_maximized: bool) -> (cmd: Command)
    ensures
        cmd == toggle_command(is_maximized),
{
    if is_maximized {
        Command::Unmaximize
    } else {
        Command::Maximize
    }
}

/// The window events that the shell reacts to.
#[derive(Clone, Copy, Debug, PartialEq, Eq, Structural)]
pub enum WindowEvent {
    /// The user asked to close the window.
    CloseRequested,
    /// Any other window event.
    Other,
}

/// The commands that answer a window event.
pub open spec fn event_commands(event: WindowEvent) -> Seq<Command> {
    match event {
        WindowEvent::CloseRequested => seq![Command::PreventClose, Command::Hide],
        WindowEvent::Other => Seq::empty(),
    }
}

/// Answers a window event: a close request is cancelled and the window is
/// hidden instead, so that the application keeps running in the tray.
pub fn handle_event(event: WindowEvent) -> (cmds: Vec<Command>)
    ensures
        cmds@ == event_commands(event),
{
    let mut cmds: Vec<Command> = Vec::new();
    match event {
        WindowEvent::CloseRequested => {
            cmds.push(Command::PreventClose);
            cmds.push(Command::Hide);
        },
        WindowEvent::Other => {},
    }
    cmds
}

/// Answers a second launch of the application: the running instance brings
/// its window to the front.
pub fn on_second_instance(main_window_exists: bool) -> (cmds: Vec<Command>)
    ensures
        cmds@ == (if main_window_exists { show_main_commands() } else { Seq::empty() }),
{
    show_main(main_window_exists)
}

/// Whether a list of commands ends the application.
pub open spec fn exits(cmds: Seq<Command>) -> bool {
    exists|i: int| 0 <= i < cmds.len() && cmds[i] is Exit
}

/// Bringing the main window to the front leaves it visible, restored and
/// focused, whatever state it was in; its size and the application are
/// left as they were.
pub proof fn lemma_show_main_brings_to_front(app: AppView)
    ensures
        apply_all(app, show_main_commands()).visible,
        !apply_all(app, show_main_commands()).minimized,
        apply_all(app, show_main_commands()).focused,
        apply_all(app, show_main_commands()).maximized == app.maximized,
        apply_all(app, show_main_commands()).running == app.running,
        !exits(show_main_commands()),
{
    reveal_with_fuel(apply_all, 4);
}

/// Closing the main window does not end the application: the close is
/// cancelled, the window is hidden, and the application keeps running.
pub proof fn lemma_close_hides_to_tray(app: AppView)
    ensures
        event_commands(WindowEvent::CloseRequested).contains(Command::PreventClose),
        !exits(event_commands(WindowEvent::CloseRequested)),
        !apply_all(app, event_commands(WindowEvent::CloseRequested)).visible,
        apply_all(app, event_commands(WindowEvent::CloseRequested)).running == app.running,
{
    reveal_with_fuel(apply_all, 3);
    assert(event_commands(WindowEvent::CloseRequested)[0] == Command::PreventClose);
}

/// Toggling the size switches between maximized and normal, and toggling
/// twice gives back the window as it was.
pub proof fn lemma_toggle_twice_restores(app: AppView)
    ensures
        apply(app, toggle_command(app.maximized)).maximized == !app.maximized,
        apply(
            apply(app, toggle_command(app.maximized)),
            toggle_command(apply(app, toggle_command(app.maximized)).maximized),
        ) == app,
{
}

} // verus!
