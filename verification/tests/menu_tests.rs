use naqi_menu::builder::{build_default_tree, command, platform, separator};
use naqi_menu::menu::{MenuBuildError, MenuNode, MenuTree, PlatformActionKind};

fn expect_command(n: &MenuNode, id: &str, label: &str, accel: &str) {
    match n {
        MenuNode::CommandItem { id: i, label: l, enabled, accelerator } => {
            assert_eq!(i, id);
            assert_eq!(l, label);
            assert!(*enabled);
            assert_eq!(accelerator.as_deref(), Some(accel));
        },
        _ => panic!("expected a command item with id {}", id),
    }
}

fn expect_platform(n: &MenuNode, kind: PlatformActionKind) {
    match n {
        MenuNode::PlatformAction { kind: k } => assert_eq!(*k, kind),
        _ => panic!("expected a platform action"),
    }
}

fn expect_separator(n: &MenuNode) {
    assert!(matches!(n, MenuNode::Separator));
}

fn submenu_parts(n: &MenuNode) -> (&String, &Vec<MenuNode>) {
    match n {
        MenuNode::Submenu { label, children } => (label, children),
        _ => panic!("expected a submenu"),
    }
}

#[test]
fn default_tree_builds() {
    let tree = build_default_tree();
    assert!(tree.is_ok());
}

#[test]
fn default_tree_grouping_and_order() {
    let tree = build_default_tree().unwrap_or_else(|_| panic!("construction failed"));
    let roots = tree.roots();
    assert_eq!(roots.len(), 7);
    let labels: Vec<&String> = roots.iter().map(|n| submenu_parts(n).0).collect();
    assert_eq!(
        labels,
        vec!["荀爽纳气风水", "文件", "编辑", "工具", "视图", "窗口", "帮助"]
    );
}

#[test]
fn file_submenu_order() {
    let tree = build_default_tree().unwrap_or_else(|_| panic!("construction failed"));
    let (label, children) = submenu_parts(&tree.roots()[1]);
    assert_eq!(label, "文件");
    assert_eq!(children.len(), 7);
    expect_command(&children[0], "import_config", "导入项目文件…", "CmdOrCtrl+Shift+O");
    expect_command(&children[1], "export_config", "导出项目文件…", "CmdOrCtrl+Shift+S");
    expect_command(&children[2], "open_recent", "最近项目文件…", "CmdOrCtrl+Shift+L");
    expect_separator(&children[3]);
    expect_command(&children[4], "export_png", "导出 PNG", "CmdOrCtrl+E");
    expect_separator(&children[5]);
    expect_platform(&children[6], PlatformActionKind::CloseWindow);
}

#[test]
fn app_submenu_order() {
    let tree = build_default_tree().unwrap_or_else(|_| panic!("construction failed"));
    let (label, children) = submenu_parts(&tree.roots()[0]);
    assert_eq!(label, "荀爽纳气风水");
    assert_eq!(children.len(), 11);
    expect_platform(&children[0], PlatformActionKind::About);
    expect_separator(&children[1]);
    expect_command(&children[2], "preferences", "偏好设置…", "CmdOrCtrl+,");
    expect_separator(&children[3]);
    expect_platform(&children[4], PlatformActionKind::Services);
    expect_separator(&children[5]);
    expect_platform(&children[6], PlatformActionKind::Hide);
    expect_platform(&children[7], PlatformActionKind::HideOthers);
    expect_platform(&children[8], PlatformActionKind::ShowAll);
    expect_separator(&children[9]);
    expect_platform(&children[10], PlatformActionKind::Quit);
}

#[test]
fn edit_view_window_help_submenus() {
    let tree = build_default_tree().unwrap_or_else(|_| panic!("construction failed"));
    let (_, edit) = submenu_parts(&tree.roots()[2]);
    assert_eq!(edit.len(), 7);
    expect_platform(&edit[0], PlatformActionKind::Undo);
    expect_platform(&edit[1], PlatformActionKind::Redo);
    expect_separator(&edit[2]);
    expect_platform(&edit[3], PlatformActionKind::Cut);
    expect_platform(&edit[4], PlatformActionKind::CopyItem);
    expect_platform(&edit[5], PlatformActionKind::Paste);
    expect_platform(&edit[6], PlatformActionKind::SelectAll);
    let (_, view) = submenu_parts(&tree.roots()[4]);
    assert_eq!(view.len(), 1);
    expect_platform(&view[0], PlatformActionKind::Fullscreen);
    let (_, window) = submenu_parts(&tree.roots()[5]);
    assert_eq!(window.len(), 4);
    expect_platform(&window[0], PlatformActionKind::Minimize);
    expect_platform(&window[1], PlatformActionKind::Maximize);
    expect_separator(&window[2]);
    expect_platform(&window[3], PlatformActionKind::CloseWindow);
    let (_, help) = submenu_parts(&tree.roots()[6]);
    assert_eq!(help.len(), 1);
    expect_command(&help[0], "show_help", "使用说明", "CmdOrCtrl+/");
}

#[test]
fn tools_submenu_order() {
    let tree = build_default_tree().unwrap_or_else(|_| panic!("construction failed"));
    let (label, tools) = submenu_parts(&tree.roots()[3]);
    assert_eq!(label, "工具");
    assert_eq!(tools.len(), 4);
    expect_command(&tools[0], "manual_rect", "手动框选房屋", "CmdOrCtrl+Shift+M");
    expect_command(&tools[1], "reset_rect", "重置房屋框", "CmdOrCtrl+Shift+R");
    expect_separator(&tools[2]);
    expect_command(&tools[3], "clear_markers", "清空标记", "CmdOrCtrl+Shift+X");
}

#[test]
fn duplicate_id_fails() {
    let roots = vec![MenuNode::Submenu {
        label: String::from("File"),
        children: vec![
            command("export_png", "Export PNG", "CmdOrCtrl+E"),
            command("export_png", "Export PNG again", "CmdOrCtrl+Shift+E"),
        ],
    }];
    let r = MenuTree::new(roots);
    assert!(matches!(r, Err(MenuBuildError::DuplicateId)));
}

#[test]
fn duplicate_id_across_submenus_fails() {
    let roots = vec![
        MenuNode::Submenu {
            label: String::from("File"),
            children: vec![command("export_png", "Export PNG", "CmdOrCtrl+E")],
        },
        MenuNode::Submenu {
            label: String::from("Tools"),
            children: vec![command("export_png", "Export PNG", "CmdOrCtrl+P")],
        },
    ];
    let r = MenuTree::new(roots);
    assert!(matches!(r, Err(MenuBuildError::DuplicateId)));
}

#[test]
fn invalid_accelerator_fails() {
    let roots = vec![MenuNode::Submenu {
        label: String::from("File"),
        children: vec![command("export_png", "Export PNG", "Bogus+E")],
    }];
    let r = MenuTree::new(roots);
    assert!(matches!(r, Err(MenuBuildError::InvalidAccelerator)));
}

#[test]
fn invalid_accelerator_reported_over_duplicate_id() {
    let roots = vec![MenuNode::Submenu {
        label: String::from("File"),
        children: vec![
            command("export_png", "Export PNG", "CmdOrCtrl+"),
            command("export_png", "Export PNG again", "CmdOrCtrl+E"),
        ],
    }];
    let r = MenuTree::new(roots);
    assert!(matches!(r, Err(MenuBuildError::InvalidAccelerator)));
}

#[test]
fn valid_custom_tree_builds() {
    let roots = vec![
        MenuNode::Submenu {
            label: String::from("Extras"),
            children: vec![
                command("one", "One", "CmdOrCtrl+1"),
                separator(),
                MenuNode::CommandItem {
                    id: String::from("two"),
                    label: String::from("Two"),
                    enabled: false,
                    accelerator: None,
                },
                platform(PlatformActionKind::Quit),
            ],
        },
    ];
    let r = MenuTree::new(roots);
    assert!(r.is_ok());
}
