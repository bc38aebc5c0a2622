//! The menu tree builder: assembles the application's fixed menu tree. The
//! submenu grouping and the order of entries inside each submenu are part of
//! the contract, stated by the shape predicates below; construction always
//! succeeds and yields a well-formed tree.

use vstd::prelude::*;
use crate::accel::{
    lemma_accel_cmdorctrl_shift_single, lemma_accel_cmdorctrl_single, valid_accelerator,
};
use crate::menu::{
    accels_in, ids_in, lemma_accels_in_unroll, lemma_ids_in_unroll, node_accels, node_ids,
    unique_ids, unique_seq, MenuBuildError, MenuNode, MenuTree, PlatformActionKind,
};
use crate::registry::{lemma_registry_lookup_values, lookup_in, registry_table};

verus! {

/// `n` is an enabled command item with this id, label and accelerator.
pub open spec fn is_command(n: MenuNode, id: Seq<char>, label: Seq<char>, accel: Seq<char>) -> bool {
    n matches MenuNode::CommandItem { id: i, label: l, enabled, accelerator: Some(a) } && i@ == id
        && l@ == label && enabled && a@ == accel
}

/// `n` is the platform-standard action `kind`.
pub open spec fn is_platform(n: MenuNode, kind: PlatformActionKind) -> bool {
    n matches MenuNode::PlatformAction { kind: k } && k == kind
}

/// Builds an enabled command item.
pub fn command(id: &str, label: &str, accel: &str) -> (n: MenuNode)
    ensures
        is_command(n, id@, label@, accel@),
        node_ids(n) == seq![id@],
        node_accels(n) == seq![accel@],
{
    let n = MenuNode::CommandItem {
        id: id.to_owned(),
        label: label.to_owned(),
        enabled: true,
        accelerator: Some(accel.to_owned()),
    };
    proof {
        assert(node_ids(n) =~= seq![id@]);
        assert(node_accels(n) =~= seq![accel@]);
    }
    n
}

/// Builds a separator entry.
pub fn separator() -> (n: MenuNode)
    ensures
        n == MenuNode::Separator,
        node_ids(n) == Seq::<Seq<char>>::empty(),
        node_accels(n) == Seq::<Seq<char>>::empty(),
{
    let n = MenuNode::Separator;
    proof {
        assert(node_ids(n) =~= Seq::<Seq<char>>::empty());
        assert(node_accels(n) =~= Seq::<Seq<char>>::empty());
    }
    n
}

/// Builds a platform-standard action entry.
pub fn platform(kind: PlatformActionKind) -> (n: MenuNode)
    ensures
        is_platform(n, kind),
        node_ids(n) == Seq::<Seq<char>>::empty(),
        node_accels(n) == Seq::<Seq<char>>::empty(),
{
    let n = MenuNode::PlatformAction { kind };
    proof {
        assert(node_ids(n) =~= Seq::<Seq<char>>::empty());
        assert(node_accels(n) =~= Seq::<Seq<char>>::empty());
    }
    n
}

/// The application submenu, titled with the application's name: about,
/// preferences, services, hide/show, quit.
pub open spec fn app_submenu_shape(n: MenuNode) -> bool {
    n matches MenuNode::Submenu { label, children } && label@ == "荀爽纳气风水"@ && children@.len()
        == 11 && is_platform(children@[0], PlatformActionKind::About) && children@[1]
        is Separator && is_command(
        children@[2],
        "preferences"@,
        "偏好设置…"@,
        "CmdOrCtrl+,"@,
    ) && children@[3] is Separator && is_platform(children@[4], PlatformActionKind::Services)
        && children@[5] is Separator && is_platform(children@[6], PlatformActionKind::Hide)
        && is_platform(children@[7], PlatformActionKind::HideOthers) && is_platform(
        children@[8],
        PlatformActionKind::ShowAll,
    ) && children@[9] is Separator && is_platform(children@[10], PlatformActionKind::Quit)
}

/// The file submenu: import, export, recent, separator, export-png,
/// separator, close-window — in that order.
pub open spec fn file_submenu_shape(n: MenuNode) -> bool {
    n matches MenuNode::Submenu { label, children } && label@ == "文件"@ && children@.len() == 7
        && is_command(
        children@[0],
        "import_config"@,
        "导入项目文件…"@,
        "CmdOrCtrl+Shift+O"@,
    ) && is_command(
        children@[1],
        "export_config"@,
        "导出项目文件…"@,
        "CmdOrCtrl+Shift+S"@,
    ) && is_command(
        children@[2],
        "open_recent"@,
        "最近项目文件…"@,
        "CmdOrCtrl+Shift+L"@,
    ) && children@[3] is Separator && is_command(
        children@[4],
        "export_png"@,
        "导出 PNG"@,
        "CmdOrCtrl+E"@,
    ) && children@[5] is Separator && is_platform(children@[6], PlatformActionKind::CloseWindow)
}

/// The edit submenu: undo, redo, separator, cut, copy, paste, select-all.
pub open spec fn edit_submenu_shape(n: MenuNode) -> bool {
    n matches MenuNode::Submenu { label, children } && label@ == "编辑"@ && children@.len() == 7
        && is_platform(children@[0], PlatformActionKind::Undo) && is_platform(
        children@[1],
        PlatformActionKind::Redo,
    ) && children@[2] is Separator && is_platform(children@[3], PlatformActionKind::Cut)
        && is_platform(children@[4], PlatformActionKind::CopyItem) && is_platform(
        children@[5],
        PlatformActionKind::Paste,
    ) && is_platform(children@[6], PlatformActionKind::SelectAll)
}

/// The tools submenu: the outline commands, a separator, clear-markers.
pub open spec fn tools_submenu_shape(n: MenuNode) -> bool {
    n matches MenuNode::Submenu { label, children } && label@ == "工具"@ && children@.len() == 4
        && is_command(
        children@[0],
        "manual_rect"@,
        "手动框选房屋"@,
        "CmdOrCtrl+Shift+M"@,
    ) && is_command(
        children@[1],
        "reset_rect"@,
        "重置房屋框"@,
        "CmdOrCtrl+Shift+R"@,
    ) && children@[2] is Separator && is_command(
        children@[3],
        "clear_markers"@,
        "清空标记"@,
        "CmdOrCtrl+Shift+X"@,
    )
}

/// The view submenu: fullscreen only.
pub open spec fn view_submenu_shape(n: MenuNode) -> bool {
    n matches MenuNode::Submenu { label, children } && label@ == "视图"@ && children@.len() == 1
        && is_platform(children@[0], PlatformActionKind::Fullscreen)
}

/// The window submenu: minimize, maximize, separator, close-window.
pub open spec fn window_submenu_shape(n: MenuNode) -> bool {
    n matches MenuNode::Submenu { label, children } && label@ == "窗口"@ && children@.len() == 4
        && is_platform(children@[0], PlatformActionKind::Minimize) && is_platform(
        children@[1],
        PlatformActionKind::Maximize,
    ) && children@[2] is Separator && is_platform(children@[3], PlatformActionKind::CloseWindow)
}

/// The help submenu: the usage instructions command only.
pub open spec fn help_submenu_shape(n: MenuNode) -> bool {
    n matches MenuNode::Submenu { label, children } && label@ == "帮助"@ && children@.len() == 1
        && is_command(children@[0], "show_help"@, "使用说明"@, "CmdOrCtrl+/"@)
}

/// The whole fixed tree: the seven submenus, in order.
pub open spec fn default_tree_shape(roots: Seq<MenuNode>) -> bool {
    &&& roots.len() == 7
    &&& app_submenu_shape(roots[0])
    &&& file_submenu_shape(roots[1])
    &&& edit_submenu_shape(roots[2])
    &&& tools_submenu_shape(roots[3])
    &&& view_submenu_shape(roots[4])
    &&& window_submenu_shape(roots[5])
    &&& help_submenu_shape(roots[6])
}

fn build_app_submenu() -> (n: MenuNode)
    ensures
        app_submenu_shape(n),
        node_ids(n) == seq!["preferences"@],
        node_accels(n) == seq!["CmdOrCtrl+,"@],
{
    let mut children: Vec<MenuNode> = Vec::new();
    children.push(platform(PlatformActionKind::About));
    children.push(separator());
    children.push(command("preferences", "偏好设置…", "CmdOrCtrl+,"));
    children.push(separator());
    children.push(platform(PlatformActionKind::Services));
    children.push(separator());
    children.push(platform(PlatformActionKind::Hide));
    children.push(platform(PlatformActionKind::HideOthers));
    children.push(platform(PlatformActionKind::ShowAll));
    children.push(separator());
    children.push(platform(PlatformActionKind::Quit));
    let ghost c = children@;
    let n = MenuNode::Submenu { label: "荀爽纳气风水".to_owned(), children };
    proof {
        lemma_ids_in_unroll(c);
        lemma_accels_in_unroll(c);
        assert(node_ids(n) == ids_in(c));
        assert(ids_in(c) =~= seq!["preferences"@]);
        assert(node_accels(n) == accels_in(c));
        assert(accels_in(c) =~= seq!["CmdOrCtrl+,"@]);
    }
    n
}

fn build_file_submenu() -> (n: MenuNode)
    ensures
        file_submenu_shape(n),
        node_ids(n) == seq!["import_config"@, "export_config"@, "open_recent"@, "export_png"@],
        node_accels(n) == seq![
            "CmdOrCtrl+Shift+O"@,
            "CmdOrCtrl+Shift+S"@,
            "CmdOrCtrl+Shift+L"@,
            "CmdOrCtrl+E"@,
        ],
{
    let mut children: Vec<MenuNode> = Vec::new();
    children.push(command("import_config", "导入项目文件…", "CmdOrCtrl+Shift+O"));
    children.push(command("export_config", "导出项目文件…", "CmdOrCtrl+Shift+S"));
    children.push(command("open_recent", "最近项目文件…", "CmdOrCtrl+Shift+L"));
    children.push(separator());
    children.push(command("export_png", "导出 PNG", "CmdOrCtrl+E"));
    children.push(separator());
    children.push(platform(PlatformActionKind::CloseWindow));
    let ghost c = children@;
    let n = MenuNode::Submenu { label: "文件".to_owned(), children };
    proof {
        lemma_ids_in_unroll(c);
        lemma_accels_in_unroll(c);
        assert(node_ids(n) == ids_in(c));
        assert(ids_in(c) =~= seq![
            "import_config"@,
            "export_config"@,
            "open_recent"@,
            "export_png"@,
        ]);
        assert(node_accels(n) == accels_in(c));
        assert(accels_in(c) =~= seq![
            "CmdOrCtrl+Shift+O"@,
            "CmdOrCtrl+Shift+S"@,
            "CmdOrCtrl+Shift+L"@,
            "CmdOrCtrl+E"@,
        ]);
    }
    n
}

fn build_edit_submenu() -> (n: MenuNode)
    ensures
        edit_submenu_shape(n),
        node_ids(n) == Seq::<Seq<char>>::empty(),
        node_accels(n) == Seq::<Seq<char>>::empty(),
{
    let mut children: Vec<MenuNode> = Vec::new();
    children.push(platform(PlatformActionKind::Undo));
    children.push(platform(PlatformActionKind::Redo));
    children.push(separator());
    children.push(platform(PlatformActionKind::Cut));
    children.push(platform(PlatformActionKind::CopyItem));
    children.push(platform(PlatformActionKind::Paste));
    children.push(platform(PlatformActionKind::SelectAll));
    let ghost c = children@;
    let n = MenuNode::Submenu { label: "编辑".to_owned(), children };
    proof {
        lemma_ids_in_unroll(c);
        lemma_accels_in_unroll(c);
        assert(node_ids(n) == ids_in(c));
        assert(ids_in(c) =~= Seq::<Seq<char>>::empty());
        assert(node_accels(n) == accels_in(c));
        assert(accels_in(c) =~= Seq::<Seq<char>>::empty());
    }
    n
}

fn build_tools_submenu() -> (n: MenuNode)
    ensures
        tools_submenu_shape(n),
        node_ids(n) == seq!["manual_rect"@, "reset_rect"@, "clear_markers"@],
        node_accels(n) == seq![
            "CmdOrCtrl+Shift+M"@,
            "CmdOrCtrl+Shift+R"@,
            "CmdOrCtrl+Shift+X"@,
        ],
{
    let mut children: Vec<MenuNode> = Vec::new();
    children.push(command("manual_rect", "手动框选房屋", "CmdOrCtrl+Shift+M"));
    children.push(command("reset_rect", "重置房屋框", "CmdOrCtrl+Shift+R"));
    children.push(separator());
    children.push(command("clear_markers", "清空标记", "CmdOrCtrl+Shift+X"));
    let ghost c = children@;
    let n = MenuNode::Submenu { label: "工具".to_owned(), children };
    proof {
        lemma_ids_in_unroll(c);
        lemma_accels_in_unroll(c);
        assert(node_ids(n) == ids_in(c));
        assert(ids_in(c) =~= seq!["manual_rect"@, "reset_rect"@, "clear_markers"@]);
        assert(node_accels(n) == accels_in(c));
        assert(accels_in(c) =~= seq![
            "CmdOrCtrl+Shift+M"@,
            "CmdOrCtrl+Shift+R"@,
            "CmdOrCtrl+Shift+X"@,
        ]);
    }
    n
}

fn build_view_submenu() -> (n: MenuNode)
    ensures
        view_submenu_shape(n),
        node_ids(n) == Seq::<Seq<char>>::empty(),
        node_accels(n) == Seq::<Seq<char>>::empty(),
{
    let mut children: Vec<MenuNode> = Vec::new();
    children.push(platform(PlatformActionKind::Fullscreen));
    let ghost c = children@;
    let n = MenuNode::Submenu { label: "视图".to_owned(), children };
    proof {
        lemma_ids_in_unroll(c);
        lemma_accels_in_unroll(c);
        assert(node_ids(n) == ids_in(c));
        assert(ids_in(c) =~= Seq::<Seq<char>>::empty());
        assert(node_accels(n) == accels_in(c));
        assert(accels_in(c) =~= Seq::<Seq<char>>::empty());
    }
    n
}

fn build_window_submenu() -> (n: MenuNode)
    ensures
        window_submenu_shape(n),
        node_ids(n) == Seq::<Seq<char>>::empty(),
        node_accels(n) == Seq::<Seq<char>>::empty(),
{
    let mut children: Vec<MenuNode> = Vec::new();
    children.push(platform(PlatformActionKind::Minimize));
    children.push(platform(PlatformActionKind::Maximize));
    children.push(separator());
    children.push(platform(PlatformActionKind::CloseWindow));
    let ghost c = children@;
    let n = MenuNode::Submenu { label: "窗口".to_owned(), children };
    proof {
        lemma_ids_in_unroll(c);
        lemma_accels_in_unroll(c);
        assert(node_ids(n) == ids_in(c));
        assert(ids_in(c) =~= Seq::<Seq<char>>::empty());
        assert(node_accels(n) == accels_in(c));
        assert(accels_in(c) =~= Seq::<Seq<char>>::empty());
    }
    n
}

fn build_help_submenu() -> (n: MenuNode)
    ensures
        help_submenu_shape(n),
        node_ids(n) == seq!["show_help"@],
        node_accels(n) == seq!["CmdOrCtrl+/"@],
{
    let mut children: Vec<MenuNode> = Vec::new();
    children.push(command("show_help", "使用说明", "CmdOrCtrl+/"));
    let ghost c = children@;
    let n = MenuNode::Submenu { label: "帮助".to_owned(), children };
    proof {
        lemma_ids_in_unroll(c);
        lemma_accels_in_unroll(c);
        assert(node_ids(n) == ids_in(c));
        assert(ids_in(c) =~= seq!["show_help"@]);
        assert(node_accels(n) == accels_in(c));
        assert(accels_in(c) =~= seq!["CmdOrCtrl+/"@]);
    }
    n
}

/// Every accelerator of the fixed tree obeys the grammar.
proof fn lemma_default_accels_valid()
    ensures
        valid_accelerator("CmdOrCtrl+,"@),
        valid_accelerator("CmdOrCtrl+Shift+O"@),
        valid_accelerator("CmdOrCtrl+Shift+S"@),
        valid_accelerator("CmdOrCtrl+Shift+L"@),
        valid_accelerator("CmdOrCtrl+E"@),
        valid_accelerator("CmdOrCtrl+Shift+M"@),
        valid_accelerator("CmdOrCtrl+Shift+R"@),
        valid_accelerator("CmdOrCtrl+Shift+X"@),
        valid_accelerator("CmdOrCtrl+/"@),
{
    reveal_strlit("CmdOrCtrl");
    reveal_strlit("Shift");
    reveal_strlit("CmdOrCtrl+,");
    reveal_strlit("CmdOrCtrl+E");
    reveal_strlit("CmdOrCtrl+/");
    reveal_strlit("CmdOrCtrl+Shift+O");
    reveal_strlit("CmdOrCtrl+Shift+S");
    reveal_strlit("CmdOrCtrl+Shift+L");
    reveal_strlit("CmdOrCtrl+Shift+M");
    reveal_strlit("CmdOrCtrl+Shift+R");
    reveal_strlit("CmdOrCtrl+Shift+X");
    assert("CmdOrCtrl+,"@.subrange(0, 9) =~= "CmdOrCtrl"@);
    assert("CmdOrCtrl+,"@[9] == '+');
    lemma_accel_cmdorctrl_single("CmdOrCtrl+,"@);
    assert("CmdOrCtrl+E"@.subrange(0, 9) =~= "CmdOrCtrl"@);
    assert("CmdOrCtrl+E"@[9] == '+');
    lemma_accel_cmdorctrl_single("CmdOrCtrl+E"@);
    assert("CmdOrCtrl+/"@.subrange(0, 9) =~= "CmdOrCtrl"@);
    assert("CmdOrCtrl+/"@[9] == '+');
    lemma_accel_cmdorctrl_single("CmdOrCtrl+/"@);
    assert("CmdOrCtrl+Shift+O"@.subrange(0, 9) =~= "CmdOrCtrl"@);
    assert("CmdOrCtrl+Shift+O"@.subrange(10, 15) =~= "Shift"@);
    assert("CmdOrCtrl+Shift+O"@[9] == '+' && "CmdOrCtrl+Shift+O"@[15] == '+');
    lemma_accel_cmdorctrl_shift_single("CmdOrCtrl+Shift+O"@);
    assert("CmdOrCtrl+Shift+S"@.subrange(0, 9) =~= "CmdOrCtrl"@);
    assert("CmdOrCtrl+Shift+S"@.subrange(10, 15) =~= "Shift"@);
    assert("CmdOrCtrl+Shift+S"@[9] == '+' && "CmdOrCtrl+Shift+S"@[15] == '+');
    lemma_accel_cmdorctrl_shift_single("CmdOrCtrl+Shift+S"@);
    assert("CmdOrCtrl+Shift+L"@.subrange(0, 9) =~= "CmdOrCtrl"@);
    assert("CmdOrCtrl+Shift+L"@.subrange(10, 15) =~= "Shift"@);
    assert("CmdOrCtrl+Shift+L"@[9] == '+' && "CmdOrCtrl+Shift+L"@[15] == '+');
    lemma_accel_cmdorctrl_shift_single("CmdOrCtrl+Shift+L"@);
    assert("CmdOrCtrl+Shift+M"@.subrange(0, 9) =~= "CmdOrCtrl"@);
    assert("CmdOrCtrl+Shift+M"@.subrange(10, 15) =~= "Shift"@);
    assert("CmdOrCtrl+Shift+M"@[9] == '+' && "CmdOrCtrl+Shift+M"@[15] == '+');
    lemma_accel_cmdorctrl_shift_single("CmdOrCtrl+Shift+M"@);
    assert("CmdOrCtrl+Shift+R"@.subrange(0, 9) =~= "CmdOrCtrl"@);
    assert("CmdOrCtrl+Shift+R"@.subrange(10, 15) =~= "Shift"@);
    assert("CmdOrCtrl+Shift+R"@[9] == '+' && "CmdOrCtrl+Shift+R"@[15] == '+');
    lemma_accel_cmdorctrl_shift_single("CmdOrCtrl+Shift+R"@);
    assert("CmdOrCtrl+Shift+X"@.subrange(0, 9) =~= "CmdOrCtrl"@);
    assert("CmdOrCtrl+Shift+X"@.subrange(10, 15) =~= "Shift"@);
    assert("CmdOrCtrl+Shift+X"@[9] == '+' && "CmdOrCtrl+Shift+X"@[15] == '+');
    lemma_accel_cmdorctrl_shift_single("CmdOrCtrl+Shift+X"@);
}

/// The nine command ids of the fixed tree are pairwise distinct.
proof fn lemma_default_ids_unique()
    ensures
        unique_seq(
            seq![
                "preferences"@,
                "import_config"@,
                "export_config"@,
                "open_recent"@,
                "export_png"@,
                "manual_rect"@,
                "reset_rect"@,
                "clear_markers"@,
                "show_help"@,
            ],
        ),
{
    reveal_strlit("preferences");
    reveal_strlit("import_config");
    reveal_strlit("export_config");
    reveal_strlit("open_recent");
    reveal_strlit("export_png");
    reveal_strlit("manual_rect");
    reveal_strlit("reset_rect");
    reveal_strlit("clear_markers");
    reveal_strlit("show_help");
    let t = seq![
        "preferences"@,
        "import_config"@,
        "export_config"@,
        "open_recent"@,
        "export_png"@,
        "manual_rect"@,
        "reset_rect"@,
        "clear_markers"@,
        "show_help"@,
    ];
    assert(t.len() == 9);
    assert forall|i: int, j: int| 0 <= i < j < t.len() implies #[trigger] t[i] != #[trigger] t[j] by {
        assert("preferences"@.len() == 11);
        assert("import_config"@.len() == 13);
        assert("export_config"@.len() == 13);
        assert("open_recent"@.len() == 11);
        assert("export_png"@.len() == 10);
        assert("manual_rect"@.len() == 11);
        assert("reset_rect"@.len() == 10);
        assert("clear_markers"@.len() == 13);
        assert("show_help"@.len() == 9);
        assert("preferences"@[0] == 'p' && "open_recent"@[0] == 'o' && "manual_rect"@[0] == 'm');
        assert("import_config"@[0] == 'i' && "export_config"@[0] == 'e' && "clear_markers"@[0]
            == 'c');
        assert("export_png"@[0] == 'e' && "reset_rect"@[0] == 'r');
    }
}

/// Builds the application's menu tree. Construction is deterministic — the
/// shape predicate pins every submenu, entry, label, id and accelerator — and
/// always succeeds with a well-formed tree.
pub fn build_default_tree() -> (r: Result<MenuTree, MenuBuildError>)
    ensures
        r is Ok,
        r matches Ok(t) ==> t.wf() && default_tree_shape(t@),
{
    let mut roots: Vec<MenuNode> = Vec::new();
    roots.push(build_app_submenu());
    roots.push(build_file_submenu());
    roots.push(build_edit_submenu());
    roots.push(build_tools_submenu());
    roots.push(build_view_submenu());
    roots.push(build_window_submenu());
    roots.push(build_help_submenu());
    let ghost s = roots@;
    proof {
        lemma_ids_in_unroll(s);
        lemma_accels_in_unroll(s);
        assert(ids_in(s) =~= seq![
            "preferences"@,
            "import_config"@,
            "export_config"@,
            "open_recent"@,
            "export_png"@,
            "manual_rect"@,
            "reset_rect"@,
            "clear_markers"@,
            "show_help"@,
        ]);
        assert(accels_in(s) =~= seq![
            "CmdOrCtrl+,"@,
            "CmdOrCtrl+Shift+O"@,
            "CmdOrCtrl+Shift+S"@,
            "CmdOrCtrl+Shift+L"@,
            "CmdOrCtrl+E"@,
            "CmdOrCtrl+Shift+M"@,
            "CmdOrCtrl+Shift+R"@,
            "CmdOrCtrl+Shift+X"@,
            "CmdOrCtrl+/"@,
        ]);
        lemma_default_accels_valid();
        assert forall|k: int|
            0 <= k < accels_in(s).len() implies valid_accelerator(
            #[trigger] accels_in(s)[k],
        ) by {
            assert(accels_in(s).len() == 9);
        }
        lemma_default_ids_unique();
        assert(unique_ids(s));
    }
    MenuTree::new(roots)
}

/// The command ids a tree of the fixed shape carries, in order.
proof fn lemma_default_shape_ids(roots: Seq<MenuNode>)
    requires
        default_tree_shape(roots),
    ensures
        ids_in(roots) == seq![
            "preferences"@,
            "import_config"@,
            "export_config"@,
            "open_recent"@,
            "export_png"@,
            "manual_rect"@,
            "reset_rect"@,
            "clear_markers"@,
            "show_help"@,
        ],
{
    match roots[0] {
        MenuNode::Submenu { children, .. } => {
            let c = children@;
            lemma_ids_in_unroll(c);
            assert(node_ids(roots[0]) =~= seq!["preferences"@]);
        },
        _ => {},
    }
    match roots[1] {
        MenuNode::Submenu { children, .. } => {
            let c = children@;
            lemma_ids_in_unroll(c);
            assert(node_ids(roots[1]) =~= seq![
                "import_config"@,
                "export_config"@,
                "open_recent"@,
                "export_png"@,
            ]);
        },
        _ => {},
    }
    match roots[2] {
        MenuNode::Submenu { children, .. } => {
            let c = children@;
            lemma_ids_in_unroll(c);
            assert(node_ids(roots[2]) =~= Seq::<Seq<char>>::empty());
        },
        _ => {},
    }
    match roots[3] {
        MenuNode::Submenu { children, .. } => {
            let c = children@;
            lemma_ids_in_unroll(c);
            assert(node_ids(roots[3]) =~= seq![
                "manual_rect"@,
                "reset_rect"@,
                "clear_markers"@,
            ]);
        },
        _ => {},
    }
    match roots[4] {
        MenuNode::Submenu { children, .. } => {
            let c = children@;
            lemma_ids_in_unroll(c);
            assert(node_ids(roots[4]) =~= Seq::<Seq<char>>::empty());
        },
        _ => {},
    }
    match roots[5] {
        MenuNode::Submenu { children, .. } => {
            let c = children@;
            lemma_ids_in_unroll(c);
            assert(node_ids(roots[5]) =~= Seq::<Seq<char>>::empty());
        },
        _ => {},
    }
    match roots[6] {
        MenuNode::Submenu { children, .. } => {
            let c = children@;
            lemma_ids_in_unroll(c);
            assert(node_ids(roots[6]) =~= seq!["show_help"@]);
        },
        _ => {},
    }
    lemma_ids_in_unroll(roots);
    assert(ids_in(roots) =~= seq![
        "preferences"@,
        "import_config"@,
        "export_config"@,
        "open_recent"@,
        "export_png"@,
        "manual_rect"@,
        "reset_rect"@,
        "clear_markers"@,
        "show_help"@,
    ]);
}

/// Law: the fixed tree and the fixed registry agree — every command id the
/// tree carries is bound in the registry, so selecting it raises a signal,
/// and every registered id stands somewhere in the tree.
pub proof fn lemma_default_tree_commands_registered(roots: Seq<MenuNode>)
    requires
        default_tree_shape(roots),
    ensures
        forall|k: int|
            0 <= k < ids_in(roots).len() ==> lookup_in(
                registry_table(),
                #[trigger] ids_in(roots)[k],
            ) is Some,
        forall|k: int|
            0 <= k < registry_table().len() ==> ids_in(roots).contains(
                (#[trigger] registry_table()[k]).0,
            ),
{
    lemma_default_shape_ids(roots);
    lemma_registry_lookup_values();
    let ids = ids_in(roots);
    assert(ids.len() == 9);
    assert(ids[0] == "preferences"@ && ids[1] == "import_config"@ && ids[2] == "export_config"@
        && ids[3] == "open_recent"@ && ids[4] == "export_png"@ && ids[5] == "manual_rect"@
        && ids[6] == "reset_rect"@ && ids[7] == "clear_markers"@ && ids[8] == "show_help"@);
    assert(registry_table().len() == 9);
    assert(ids.contains("export_png"@));
    assert(ids.contains("export_config"@));
    assert(ids.contains("import_config"@));
    assert(ids.contains("open_recent"@));
    assert(ids.contains("manual_rect"@));
    assert(ids.contains("reset_rect"@));
    assert(ids.contains("clear_markers"@));
    assert(ids.contains("preferences"@));
    assert(ids.contains("show_help"@));
}

} // verus!
