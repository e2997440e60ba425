use tray_shell::menu::{
    app_menu, dispatch_menu, dispatch_tray, menu_event_name, tray_menu, tray_tooltip,
    MenuDispatch, TrayDispatch,
};

#[test]
fn app_menu_holds_the_four_submenus() {
    let menu = app_menu();
    let titles: Vec<&str> = menu.iter().map(|s| s.title.as_str()).collect();
    assert_eq!(titles, ["文件", "编辑", "视图", "帮助"]);
    let counts: Vec<usize> = menu.iter().map(|s| s.entries.len()).collect();
    assert_eq!(counts, [5, 5, 3, 1]);
}

#[test]
fn file_menu_entries_are_exact() {
    let menu = app_menu();
    let file = &menu[0];
    let ids: Vec<&str> = file.entries.iter().map(|e| e.id.as_str()).collect();
    assert_eq!(ids, ["new", "open", "save", "save_as", "quit_app"]);
    let labels: Vec<&str> = file.entries.iter().map(|e| e.label.as_str()).collect();
    assert_eq!(labels, ["新建", "打开", "保存", "另存为", "退出"]);
    let accelerators: Vec<Option<&str>> =
        file.entries.iter().map(|e| e.accelerator.as_deref()).collect();
    assert_eq!(
        accelerators,
        [
            Some("CmdOrCtrl+N"),
            Some("CmdOrCtrl+O"),
            Some("CmdOrCtrl+S"),
            None,
            Some("CmdOrCtrl+Q"),
        ]
    );
    assert!(file.entries.iter().all(|e| e.enabled));
}

#[test]
fn edit_view_and_help_entries_are_exact() {
    let menu = app_menu();
    let edit_ids: Vec<&str> = menu[1].entries.iter().map(|e| e.id.as_str()).collect();
    assert_eq!(edit_ids, ["undo", "redo", "cut", "copy", "paste"]);
    let view_ids: Vec<&str> = menu[2].entries.iter().map(|e| e.id.as_str()).collect();
    assert_eq!(view_ids, ["zoom_in", "zoom_out", "zoom_reset"]);
    let help_ids: Vec<&str> = menu[3].entries.iter().map(|e| e.id.as_str()).collect();
    assert_eq!(help_ids, ["about"]);
    assert_eq!(menu[1].entries[1].accelerator.as_deref(), Some("CmdOrCtrl+Shift+Z"));
    assert_eq!(menu[2].entries[2].label, "重置缩放");
    assert!(menu.iter().flat_map(|s| s.entries.iter()).all(|e| e.enabled));
}

#[test]
fn tray_menu_entries_are_exact() {
    let tray = tray_menu();
    let ids: Vec<&str> = tray.iter().map(|e| e.id.as_str()).collect();
    assert_eq!(ids, ["show", "hide", "quit"]);
    let labels: Vec<&str> = tray.iter().map(|e| e.label.as_str()).collect();
    assert_eq!(labels, ["显示窗口", "隐藏窗口", "退出"]);
    assert!(tray.iter().all(|e| e.enabled && e.accelerator.is_none()));
}

#[test]
fn tray_tooltip_and_event_name_are_fixed() {
    assert_eq!(tray_tooltip(), "我的TAURI学习应用");
    assert_eq!(menu_event_name(), "menu-action");
}

#[test]
fn every_app_menu_identifier_dispatches() {
    let menu = app_menu();
    for submenu in &menu {
        for entry in &submenu.entries {
            let d = dispatch_menu(entry.id.as_str());
            if entry.id == "quit_app" {
                assert_eq!(d, MenuDispatch::Quit);
            } else {
                assert_eq!(d, MenuDispatch::EmitAction);
            }
        }
    }
}

#[test]
fn unknown_menu_identifiers_fall_through() {
    assert_eq!(dispatch_menu("bogus"), MenuDispatch::Unknown);
    assert_eq!(dispatch_menu(""), MenuDispatch::Unknown);
    assert_eq!(dispatch_menu("quit"), MenuDispatch::Unknown);
}

#[test]
fn tray_identifiers_dispatch() {
    assert_eq!(dispatch_tray("show"), TrayDispatch::ShowWindow);
    assert_eq!(dispatch_tray("hide"), TrayDispatch::HideWindow);
    assert_eq!(dispatch_tray("quit"), TrayDispatch::Quit);
    assert_eq!(dispatch_tray("quit_app"), TrayDispatch::Unknown);
    assert_eq!(dispatch_tray(""), TrayDispatch::Unknown);
}
