//! The static application menu and tray menu, and identifier dispatch.
//!
//! Menus are built once at start-up as plain data: every entry carries a
//! stable identifier used as a dispatch key, a display label, an enabled flag
//! and an optional accelerator. The shell turns this data into host menu
//! objects; when the host reports a click it hands the identifier back to the
//! dispatch functions here, which decide what happens: a quit entry
//! terminates the process, every other known entry is forwarded to the front
//! end as a named notification carrying the identifier.
use vstd::prelude::*;
use vstd::string::*;
use crate::strutil::str_eq;

verus! {

/// One menu entry.
pub struct MenuEntry {
    pub id: String,
    pub label: String,
    pub enabled: bool,
    pub accelerator: Option<String>,
}

/// The mathematical value of a `MenuEntry`.
#[verifier::ext_equal]
pub struct MenuEntryView {
    pub id: Seq<char>,
    pub label: Seq<char>,
    pub enabled: bool,
    pub accelerator: Option<Seq<char>>,
}

impl View for MenuEntry {
    type V = MenuEntryView;

    open spec fn view(&self) -> MenuEntryView {
        MenuEntryView {
            id: self.id@,
            label: self.label@,
            enabled: self.enabled,
            accelerator: match self.accelerator {
                Some(a) => Some(a@),
                None => None,
            },
        }
    }
}

/// A named group of entries of the application menu.
pub struct SubmenuDef {
    pub title: String,
    pub entries: Vec<MenuEntry>,
}

/// The mathematical value of a `SubmenuDef`.
#[verifier::ext_equal]
pub struct SubmenuView {
    pub title: Seq<char>,
    pub entries: Seq<MenuEntryView>,
}

impl View for SubmenuDef {
    type V = SubmenuView;

    open spec fn view(&self) -> SubmenuView {
        SubmenuView { title: self.title@, entries: self.entries@.map_values(|e: MenuEntry| e@) }
    }
}

/// An enabled entry with the given identifier, label and accelerator.
pub open spec fn entry_view(
    id: Seq<char>,
    label: Seq<char>,
    accelerator: Option<Seq<char>>,
) -> MenuEntryView {
    MenuEntryView { id, label, enabled: true, accelerator }
}

/// The view of an optional accelerator argument.
pub open spec fn opt_str_view(a: Option<&str>) -> Option<Seq<char>> {
    match a {
        Some(s) => Some(s@),
        None => None,
    }
}

/// The file submenu.
pub open spec fn spec_file_menu() -> SubmenuView {
    SubmenuView {
        title: "文件"@,
        entries: seq![
            entry_view("new"@, "新建"@, Some("CmdOrCtrl+N"@)),
            entry_view("open"@, "打开"@, Some("CmdOrCtrl+O"@)),
            entry_view("save"@, "保存"@, Some("CmdOrCtrl+S"@)),
            entry_view("save_as"@, "另存为"@, None),
            entry_view("quit_app"@, "退出"@, Some("CmdOrCtrl+Q"@)),
        ],
    }
}

/// The edit submenu.
pub open spec fn spec_edit_menu() -> SubmenuView {
    SubmenuView {
        title: "编辑"@,
        entries: seq![
            entry_view("undo"@, "撤销"@, Some("CmdOrCtrl+Z"@)),
            entry_view("redo"@, "重做"@, Some("CmdOrCtrl+Shift+Z"@)),
            entry_view("cut"@, "剪切"@, Some("CmdOrCtrl+X"@)),
            entry_view("copy"@, "复制"@, Some("CmdOrCtrl+C"@)),
            entry_view("paste"@, "粘贴"@, Some("CmdOrCtrl+V"@)),
        ],
    }
}

/// The view submenu.
pub open spec fn spec_view_menu() -> SubmenuView {
    SubmenuView {
        title: "视图"@,
        entries: seq![
            entry_view("zoom_in"@, "放大"@, Some("CmdOrCtrl+Plus"@)),
            entry_view("zoom_out"@, "缩小"@, Some("CmdOrCtrl+-"@)),
            entry_view("zoom_reset"@, "重置缩放"@, Some("CmdOrCtrl+0"@)),
        ],
    }
}

/// The help submenu.
pub open spec fn spec_help_menu() -> SubmenuView {
    SubmenuView { title: "帮助"@, entries: seq![entry_view("about"@, "关于"@, None)] }
}

/// The whole application menu, in order.
pub open spec fn spec_app_menu() -> Seq<SubmenuView> {
    seq![spec_file_menu(), spec_edit_menu(), spec_view_menu(), spec_help_menu()]
}

/// The tray context menu, in order.
pub open spec fn spec_tray_menu() -> Seq<MenuEntryView> {
    seq![
        entry_view("show"@, "显示窗口"@, None),
        entry_view("hide"@, "隐藏窗口"@, None),
        entry_view("quit"@, "退出"@, None),
    ]
}

/// An enabled entry from its parts.
fn entry(id: &str, label: &str, accelerator: Option<&str>) -> (e: MenuEntry)
    ensures
        e@ == entry_view(id@, label@, opt_str_view(accelerator)),
{
    let e = MenuEntry {
        id: id.to_owned(),
        label: label.to_owned(),
        enabled: true,
        accelerator: match accelerator {
            Some(a) => Some(a.to_owned()),
            None => None,
        },
    };
    proof {
        assert(e@ =~= entry_view(id@, label@, opt_str_view(accelerator)));
    }
    e
}

/// Build the application menu.
pub fn app_menu() -> (m: Vec<SubmenuDef>)
    ensures
        m@.map_values(|s: SubmenuDef| s@) == spec_app_menu(),
{
    let mut m: Vec<SubmenuDef> = Vec::new();

    let mut file_entries: Vec<MenuEntry> = Vec::new();
    file_entries.push(entry("new", "新建", Some("CmdOrCtrl+N")));
    file_entries.push(entry("open", "打开", Some("CmdOrCtrl+O")));
    file_entries.push(entry("save", "保存", Some("CmdOrCtrl+S")));
    file_entries.push(entry("save_as", "另存为", None));
    file_entries.push(entry("quit_app", "退出", Some("CmdOrCtrl+Q")));
    let file_menu = SubmenuDef { title: String::from_str("文件"), entries: file_entries };
    proof {
        assert(file_menu@ =~~= spec_file_menu());
    }
    m.push(file_menu);

    let mut edit_entries: Vec<MenuEntry> = Vec::new();
    edit_entries.push(entry("undo", "撤销", Some("CmdOrCtrl+Z")));
    edit_entries.push(entry("redo", "重做", Some("CmdOrCtrl+Shift+Z")));
    edit_entries.push(entry("cut", "剪切", Some("CmdOrCtrl+X")));
    edit_entries.push(entry("copy", "复制", Some("CmdOrCtrl+C")));
    edit_entries.push(entry("paste", "粘贴", Some("CmdOrCtrl+V")));
    let edit_menu = SubmenuDef { title: String::from_str("编辑"), entries: edit_entries };
    proof {
        assert(edit_menu@ =~~= spec_edit_menu());
    }
    m.push(edit_menu);

    let mut view_entries: Vec<MenuEntry> = Vec::new();
    view_entries.push(entry("zoom_in", "放大", Some("CmdOrCtrl+Plus")));
    view_entries.push(entry("zoom_out", "缩小", Some("CmdOrCtrl+-")));
    view_entries.push(entry("zoom_reset", "重置缩放", Some("CmdOrCtrl+0")));
    let view_menu = SubmenuDef { title: String::from_str("视图"), entries: view_entries };
    proof {
        assert(view_menu@ =~~= spec_view_menu());
    }
    m.push(view_menu);

    let mut help_entries: Vec<MenuEntry> = Vec::new();
    help_entries.push(entry("about", "关于", None));
    let help_menu = SubmenuDef { title: String::from_str("帮助"), entries: help_entries };
    proof {
        assert(help_menu@ =~~= spec_help_menu());
    }
    m.push(help_menu);

    proof {
        assert(m@.map_values(|s: SubmenuDef| s@) =~~= spec_app_menu());
    }
    m
}

/// Build the tray context menu.
pub fn tray_menu() -> (m: Vec<MenuEntry>)
    ensures
        m@.map_values(|e: MenuEntry| e@) == spec_tray_menu(),
{
    let mut m: Vec<MenuEntry> = Vec::new();
    m.push(entry("show", "显示窗口", None));
    m.push(entry("hide", "隐藏窗口", None));
    m.push(entry("quit", "退出", None));
    proof {
        assert(m@.map_values(|e: MenuEntry| e@) =~~= spec_tray_menu());
    }
    m
}

/// The tooltip of the tray icon.
pub fn tray_tooltip() -> (r: String)
    ensures
        r@ == "我的TAURI学习应用"@,
{
    String::from_str("我的TAURI学习应用")
}

/// The name of the notification that forwards a menu entry to the front end.
pub fn menu_event_name() -> (r: String)
    ensures
        r@ == "menu-action"@,
{
    String::from_str("menu-action")
}

/// What an application-menu identifier leads to.
#[derive(Clone, Copy, PartialEq, Eq, Structural, Debug)]
pub enum MenuDispatch {
    /// Emit the menu notification, carrying the identifier, to the main
    /// window; the front end decides the concrete behaviour.
    EmitAction,
    /// Terminate the process immediately.
    Quit,
    /// Not an identifier of this menu; only logged.
    Unknown,
}

/// The identifiers forwarded to the front end.
pub open spec fn is_emit_id(id: Seq<char>) -> bool {
    ||| id == "new"@
    ||| id == "open"@
    ||| id == "save"@
    ||| id == "save_as"@
    ||| id == "undo"@
    ||| id == "redo"@
    ||| id == "cut"@
    ||| id == "copy"@
    ||| id == "paste"@
    ||| id == "zoom_in"@
    ||| id == "zoom_out"@
    ||| id == "zoom_reset"@
    ||| id == "about"@
}

/// The action an application-menu identifier leads to.
pub open spec fn spec_dispatch_menu(id: Seq<char>) -> MenuDispatch {
    if id == "quit_app"@ {
        MenuDispatch::Quit
    } else if is_emit_id(id) {
        MenuDispatch::EmitAction
    } else {
        MenuDispatch::Unknown
    }
}

/// Decide what a clicked application-menu identifier leads to.
pub fn dispatch_menu(id: &str) -> (r: MenuDispatch)
    ensures
        r == spec_dispatch_menu(id@),
{
    if str_eq(id, "quit_app") {
        MenuDispatch::Quit
    } else if str_eq(id, "new") || str_eq(id, "open") || str_eq(id, "save") || str_eq(
        id,
        "save_as",
    ) || str_eq(id, "undo") || str_eq(id, "redo") || str_eq(id, "cut") || str_eq(id, "copy")
        || str_eq(id, "paste") || str_eq(id, "zoom_in") || str_eq(id, "zoom_out") || str_eq(
        id,
        "zoom_reset",
    ) || str_eq(id, "about") {
        MenuDispatch::EmitAction
    } else {
        MenuDispatch::Unknown
    }
}

/// What a tray-menu identifier leads to.
#[derive(Clone, Copy, PartialEq, Eq, Structural, Debug)]
pub enum TrayDispatch {
    /// Run the show procedure of the window-visibility reconciliation.
    ShowWindow,
    /// Run its hide procedure.
    HideWindow,
    /// Terminate the process immediately.
    Quit,
    /// Not an identifier of the tray menu; only logged.
    Unknown,
}

/// The action a tray-menu identifier leads to.
pub open spec fn spec_dispatch_tray(id: Seq<char>) -> TrayDispatch {
    if id == "show"@ {
        TrayDispatch::ShowWindow
    } else if id == "hide"@ {
        TrayDispatch::HideWindow
    } else if id == "quit"@ {
        TrayDispatch::Quit
    } else {
        TrayDispatch::Unknown
    }
}

/// Decide what a clicked tray-menu identifier leads to.
pub fn dispatch_tray(id: &str) -> (r: TrayDispatch)
    ensures
        r == spec_dispatch_tray(id@),
{
    if str_eq(id, "show") {
        TrayDispatch::ShowWindow
    } else if str_eq(id, "hide") {
        TrayDispatch::HideWindow
    } else if str_eq(id, "quit") {
        TrayDispatch::Quit
    } else {
        TrayDispatch::Unknown
    }
}

/// Every entry of the application menu dispatches to a defined action:
/// `quit_app` quits, every other identifier is forwarded to the front end;
/// none falls through to the unknown arm.
pub proof fn lemma_app_menu_ids_dispatch()
    ensures
        forall|i: int, j: int|
            0 <= i < spec_app_menu().len() && 0 <= j < spec_app_menu()[i].entries.len()
                ==> spec_dispatch_menu(#[trigger] spec_app_menu()[i].entries[j].id)
                != MenuDispatch::Unknown,
{
    reveal_strlit("new");
    reveal_strlit("open");
    reveal_strlit("save");
    reveal_strlit("save_as");
    reveal_strlit("quit_app");
    reveal_strlit("undo");
    reveal_strlit("redo");
    reveal_strlit("cut");
    reveal_strlit("copy");
    reveal_strlit("paste");
    reveal_strlit("zoom_in");
    reveal_strlit("zoom_out");
    reveal_strlit("zoom_reset");
    reveal_strlit("about");
    assert forall|i: int, j: int|
        0 <= i < spec_app_menu().len() && 0 <= j < spec_app_menu()[i].entries.len() implies
        spec_dispatch_menu(#[trigger] spec_app_menu()[i].entries[j].id)
        != MenuDispatch::Unknown by {
        let id = spec_app_menu()[i].entries[j].id;
        if i == 0 {
            assert(spec_app_menu()[0] == spec_file_menu());
            assert(spec_dispatch_menu(id) != MenuDispatch::Unknown);
        } else if i == 1 {
            assert(spec_app_menu()[1] == spec_edit_menu());
            assert(spec_dispatch_menu(id) != MenuDispatch::Unknown);
        } else if i == 2 {
            assert(spec_app_menu()[2] == spec_view_menu());
            assert(spec_dispatch_menu(id) != MenuDispatch::Unknown);
        } else {
            assert(spec_app_menu()[3] == spec_help_menu());
            assert(spec_dispatch_menu(id) != MenuDispatch::Unknown);
        }
    }
}

/// Every entry of the tray menu dispatches to a defined action.
pub proof fn lemma_tray_menu_ids_dispatch()
    ensures
        forall|j: int|
            0 <= j < spec_tray_menu().len() ==> spec_dispatch_tray(
                #[trigger] spec_tray_menu()[j].id,
            ) != TrayDispatch::Unknown,
{
    reveal_strlit("show");
    reveal_strlit("hide");
    reveal_strlit("quit");
    assert("show"@[0] == 's' && "hide"@[0] == 'h' && "quit"@[0] == 'q');
    assert("hide"@ != "show"@);
    assert("quit"@ != "show"@);
    assert("quit"@ != "hide"@);
    assert forall|j: int|
        0 <= j < spec_tray_menu().len() implies spec_dispatch_tray(
        #[trigger] spec_tray_menu()[j].id,
    ) != TrayDispatch::Unknown by {
        assert(spec_dispatch_tray(spec_tray_menu()[0].id) == TrayDispatch::ShowWindow);
        assert(spec_dispatch_tray(spec_tray_menu()[1].id) == TrayDispatch::HideWindow);
        assert(spec_dispatch_tray(spec_tray_menu()[2].id) == TrayDispatch::Quit);
    }
}

} // verus!
