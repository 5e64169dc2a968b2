//! The tray icon and its menu: which entries the menu holds and what
//! choosing one of them does.

use vstd::prelude::*;
use crate::text::str_equal;
use crate::window::{Command, AppView, apply_all, exits, show_main_commands, show_main, hide_main};

verus! {

/// The identifier of the tray icon.
pub const TRAY_ID: &'static str = "zalo-tray";

/// The tooltip of the tray icon.
pub const TRAY_TOOLTIP: &'static str = "Zalo";

/// Whether a left click on the tray icon opens its menu.
pub const MENU_ON_LEFT_CLICK: bool = true;

/// The identifier of the menu entry that opens the main window.
pub const MENU_OPEN: &'static str = "open";

/// The identifier of the menu entry that hides the main window.
pub const MENU_HIDE: &'static str = "hide";

/// The identifier of the menu entry that ends the application.
pub const MENU_QUIT: &'static str = "quit";

/// What a menu entry does.
#[derive(Clone, Copy, Debug, PartialEq, Eq, Structural)]
pub enum TrayAction {
    OpenMain,
    HideMain,
    Quit,
}

/// One entry of the tray menu.
#[derive(Clone, Copy, Debug)]
pub struct MenuEntry {
    pub id: &'static str,
    pub label: &'static str,
    pub enabled: bool,
    pub action: TrayAction,
}

/// The identifiers of the menu entries, in menu order.
pub open spec fn menu_ids() -> Seq<Seq<char>> {
    seq![MENU_OPEN@, MENU_HIDE@, MENU_QUIT@]
}

/// The actions of the menu entries, in menu order.
pub open spec fn menu_actions() -> Seq<TrayAction> {
    seq![TrayAction::OpenMain, TrayAction::HideMain, TrayAction::Quit]
}

/// The entries of the tray menu, in the order in which they are shown.
pub fn tray_menu() -> (entries: Vec<MenuEntry>)
    ensures
        entries@.len() == 3,
        forall|i: int| 0 <= i < 3 ==> #[trigger] entries@[i].id@ == menu_ids()[i],
        forall|i: int| 0 <= i < 3 ==> #[trigger] entries@[i].action == menu_actions()[i],
        forall|i: int| 0 <= i < 3 ==> #[trigger] entries@[i].enabled,
        entries@[0].label@ == "Mở Zalo"@,
        entries@[1].label@ == "Ẩn Zalo"@,
        entries@[2].label@ == "Thoát hoàn toàn"@,
{
    let mut entries: Vec<MenuEntry> = Vec::new();
    entries.push(MenuEntry { id: MENU_OPEN, label: "Mở Zalo", enabled: true, action: TrayAction::OpenMain });
    entries.push(MenuEntry { id: MENU_HIDE, label: "Ẩn Zalo", enabled: true, action: TrayAction::HideMain });
    entries.push(MenuEntry { id: MENU_QUIT, label: "Thoát hoàn toàn", enabled: true, action: TrayAction::Quit });
    entries
}

/// The action of the menu entry with the given identifier, if any entry
/// has it.
pub open spec fn menu_action(id: Seq<char>) -> Option<TrayAction> {
    if id == MENU_OPEN@ {
        Some(TrayAction::OpenMain)
    } else if id == MENU_HIDE@ {
        Some(TrayAction::HideMain)
    } else if id == MENU_QUIT@ {
        Some(TrayAction::Quit)
    } else {
        None
    }
}

/// Looks up the action of a menu entry by its identifier.
pub fn action_for_id(id: &str) -> (action: Option<TrayAction>)
    ensures
        action == menu_action(id@),
{
    if str_equal(id, MENU_OPEN) {
        Some(TrayAction::OpenMain)
    } else if str_equal(id, MENU_HIDE) {
        Some(TrayAction::HideMain)
    } else if str_equal(id, MENU_QUIT) {
        Some(TrayAction::Quit)
    } else {
        None
    }
}

/// The commands that answer the choice of the menu entry `id`.
pub open spec fn menu_commands(id: Seq<char>, main_window_exists: bool) -> Seq<Command> {
    match menu_action(id) {
        Some(TrayAction::OpenMain) => if main_window_exists { show_main_commands() } else { Seq::empty() },
        Some(TrayAction::HideMain) => if main_window_exists { seq![Command::Hide] } else { Seq::empty() },
        Some(TrayAction::Quit) => seq![Command::Exit(0)],
        None => Seq::empty(),
    }
}

/// Answers the choice of a menu entry: "open" brings the main window to the
/// front, "hide" hides it, "quit" ends the application with exit code 0,
/// and any other identifier is ignored.
pub fn on_menu_event(id: &str, main_window_exists: bool) -> (cmds: Vec<Command>)
    ensures
        cmds@ == menu_commands(id@, main_window_exists),
{
    match action_for_id(id) {
        Some(TrayAction::OpenMain) => show_main(main_window_exists),
        Some(TrayAction::HideMain) => hide_main(main_window_exists),
        Some(TrayAction::Quit) => {
            let mut cmds: Vec<Command> = Vec::new();
            cmds.push(Command::Exit(0));
            cmds
        },
        None => Vec::new(),
    }
}

/// The menu identifiers are distinct.
pub proof fn lemma_menu_ids_distinct()
    ensures
        MENU_OPEN@ != MENU_HIDE@,
        MENU_OPEN@ != MENU_QUIT@,
        MENU_HIDE@ != MENU_QUIT@,
{
    reveal_strlit("open");
    reveal_strlit("hide");
    reveal_strlit("quit");
    assert(MENU_OPEN@[0] != MENU_HIDE@[0]);
    assert(MENU_OPEN@[0] != MENU_QUIT@[0]);
    assert(MENU_HIDE@[0] != MENU_QUIT@[0]);
}

/// Each entry of the tray menu, chosen, does what the entry says.
pub proof fn lemma_entries_dispatch_to_their_action(i: int)
    requires
        0 <= i < 3,
    ensures
        menu_action(menu_ids()[i]) == Some(menu_actions()[i]),
{
    lemma_menu_ids_distinct();
}

/// Of all menu identifiers, only "quit" ends the application, and it ends
/// it whether or not the main window exists.
pub proof fn lemma_only_quit_exits(id: Seq<char>, main_window_exists: bool)
    ensures
        exits(menu_commands(id, main_window_exists)) <==> id == MENU_QUIT@,
{
    lemma_menu_ids_distinct();
    if id == MENU_QUIT@ {
        assert(menu_commands(id, main_window_exists)[0] is Exit);
    }
}

/// The "quit" entry ends the application with exit code 0 and does nothing
/// else.
pub proof fn lemma_quit_exits_with_zero(main_window_exists: bool)
    ensures
        menu_commands(MENU_QUIT@, main_window_exists) == seq![Command::Exit(0)],
{
    lemma_menu_ids_distinct();
}

/// Hiding the window from the tray and opening it again shows it restored
/// and focused; opening it and hiding it again leaves it hidden. Neither
/// ends the application.
pub proof fn lemma_hide_then_open(app: AppView)
    ensures
        apply_all(apply_all(app, menu_commands(MENU_HIDE@, true)), menu_commands(MENU_OPEN@, true)).visible,
        apply_all(apply_all(app, menu_commands(MENU_HIDE@, true)), menu_commands(MENU_OPEN@, true)).focused,
        !apply_all(apply_all(app, menu_commands(MENU_HIDE@, true)), menu_commands(MENU_OPEN@, true)).minimized,
        !apply_all(apply_all(app, menu_commands(MENU_OPEN@, true)), menu_commands(MENU_HIDE@, true)).visible,
        apply_all(apply_all(app, menu_commands(MENU_OPEN@, true)), menu_commands(MENU_HIDE@, true)).running == app.running,
        apply_all(apply_all(app, menu_commands(MENU_HIDE@, true)), menu_commands(MENU_OPEN@, true)).running == app.running,
{
    lemma_menu_ids_distinct();
    reveal_with_fuel(apply_all, 4);
}

} // verus!
