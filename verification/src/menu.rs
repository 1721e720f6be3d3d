//! The static application menu.
//!
//! The menu is a tree of labeled nodes: custom items with a stable
//! identifier and an optional keyboard accelerator, separators,
//! predefined items with platform-native semantics (and no custom
//! identifier), and labeled submenus. The tree is built once at
//! startup and never mutated.
//!
//! The structural invariant is that every custom item's identifier is
//! unique within the whole tree: the dispatcher looks items up by
//! identifier alone, ignoring submenu nesting.

use vstd::prelude::*;

verus! {

/// A predefined menu item handled natively by the host platform.
/// These carry no custom identifier and never reach the dispatcher.
#[derive(Clone, Copy, Debug, PartialEq, Eq, Structural)]
pub enum NativeItem {
    Undo,
    Redo,
    Cut,
    Copy,
    Paste,
    SelectAll,
}

/// One node of the menu tree.
pub enum MenuNode {
    /// A custom item: stable identifier, visible label, optional
    /// platform-style accelerator string.
    Item { id: String, label: String, accelerator: Option<String> },
    /// A visual separator.
    Separator,
    /// A predefined item with platform-native behaviour.
    Native { kind: NativeItem },
    /// A labeled group of nodes.
    Submenu { label: String, items: Vec<MenuNode> },
}

/// Mathematical image of a [`MenuNode`].
#[verifier::ext_equal]
pub enum MenuNodeV {
    Item { id: Seq<char>, label: Seq<char>, accelerator: Option<Seq<char>> },
    Separator,
    Native { kind: NativeItem },
    Submenu { label: Seq<char>, items: Seq<MenuNodeV> },
}

/// The image of one menu node.
pub open spec fn node_view(n: MenuNode) -> MenuNodeV
    decreases n,
{
    match n {
        MenuNode::Item { id, label, accelerator } => MenuNodeV::Item {
            id: id@,
            label: label@,
            accelerator: match accelerator {
                Some(a) => Some(a@),
                None => None,
            },
        },
        MenuNode::Separator => MenuNodeV::Separator,
        MenuNode::Native { kind } => MenuNodeV::Native { kind },
        MenuNode::Submenu { label, items } => MenuNodeV::Submenu {
            label: label@,
            items: nodes_view(items@),
        },
    }
}

/// The image of a sequence of menu nodes, elementwise.
pub open spec fn nodes_view(ns: Seq<MenuNode>) -> Seq<MenuNodeV>
    decreases ns,
{
    if ns.len() == 0 {
        Seq::<MenuNodeV>::empty()
    } else {
        nodes_view(ns.drop_last()).push(node_view(ns.last()))
    }
}

/// `nodes_view` maps elementwise.
pub proof fn lemma_nodes_view_elems(ns: Seq<MenuNode>)
    ensures
        nodes_view(ns).len() == ns.len(),
        forall|i: int| 0 <= i < ns.len() ==> #[trigger] nodes_view(ns)[i] == node_view(ns[i]),
    decreases ns,
{
    if ns.len() > 0 {
        lemma_nodes_view_elems(ns.drop_last());
    }
}

/// The identifiers of all custom items in a node, in tree order.
pub open spec fn node_ids(n: MenuNodeV) -> Seq<Seq<char>>
    decreases n,
{
    match n {
        MenuNodeV::Item { id, .. } => seq![id],
        MenuNodeV::Separator => Seq::<Seq<char>>::empty(),
        MenuNodeV::Native { .. } => Seq::<Seq<char>>::empty(),
        MenuNodeV::Submenu { items, .. } => nodes_ids(items),
    }
}

/// The identifiers of all custom items under a sequence of nodes, in
/// tree order.
pub open spec fn nodes_ids(ns: Seq<MenuNodeV>) -> Seq<Seq<char>>
    decreases ns,
{
    if ns.len() == 0 {
        Seq::<Seq<char>>::empty()
    } else {
        nodes_ids(ns.drop_last()) + node_ids(ns.last())
    }
}

/// No identifier occurs twice.
pub open spec fn unique_ids(ids: Seq<Seq<char>>) -> bool {
    forall|i: int, j: int|
        0 <= i < j < ids.len() ==> #[trigger] ids[i] != #[trigger] ids[j]
}

/// Shorthand for the image of a custom item.
pub open spec fn item_v(id: Seq<char>, label: Seq<char>, accelerator: Option<Seq<char>>) -> MenuNodeV {
    MenuNodeV::Item { id, label, accelerator }
}

/// The File group: New, Open, a separator, Save, a separator, Quit.
pub open spec fn spec_file_menu() -> MenuNodeV {
    MenuNodeV::Submenu {
        label: "File"@,
        items: seq![
            item_v("new"@, "New"@, Some("CmdOrCtrl+N"@)),
            item_v("open"@, "Open"@, Some("CmdOrCtrl+O"@)),
            MenuNodeV::Separator,
            item_v("save"@, "Save"@, Some("CmdOrCtrl+S"@)),
            MenuNodeV::Separator,
            item_v("quit"@, "Quit"@, Some("CmdOrCtrl+Q"@)),
        ],
    }
}

/// The Edit group: all predefined, platform-native items.
pub open spec fn spec_edit_menu() -> MenuNodeV {
    MenuNodeV::Submenu {
        label: "Edit"@,
        items: seq![
            MenuNodeV::Native { kind: NativeItem::Undo },
            MenuNodeV::Native { kind: NativeItem::Redo },
            MenuNodeV::Separator,
            MenuNodeV::Native { kind: NativeItem::Cut },
            MenuNodeV::Native { kind: NativeItem::Copy },
            MenuNodeV::Native { kind: NativeItem::Paste },
            MenuNodeV::Native { kind: NativeItem::SelectAll },
        ],
    }
}

/// The View group: the navigation targets, theme toggle, reload and
/// devtools toggle.
pub open spec fn spec_view_menu() -> MenuNodeV {
    MenuNodeV::Submenu {
        label: "View"@,
        items: seq![
            item_v("home"@, "Home"@, Some("CmdOrCtrl+1"@)),
            item_v("about"@, "About"@, Some("CmdOrCtrl+2"@)),
            item_v("settings"@, "Settings"@, Some("CmdOrCtrl+,"@)),
            item_v("profile"@, "Profile"@, Some("CmdOrCtrl+P"@)),
            MenuNodeV::Separator,
            item_v("toggle_theme"@, "Toggle Theme"@, Some("CmdOrCtrl+T"@)),
            MenuNodeV::Separator,
            item_v("reload"@, "Reload"@, Some("CmdOrCtrl+R"@)),
            item_v("toggle_devtools"@, "Toggle DevTools"@, Some("F12"@)),
        ],
    }
}

/// The Help group: the about entry and the documentation entry.
pub open spec fn spec_help_menu() -> MenuNodeV {
    MenuNodeV::Submenu {
        label: "Help"@,
        items: seq![
            item_v("about_app"@, "About Squri"@, None),
            item_v("documentation"@, "Documentation"@, None),
        ],
    }
}

/// The whole application menu: the four groups, in order.
pub open spec fn spec_app_menu() -> Seq<MenuNodeV> {
    seq![spec_file_menu(), spec_edit_menu(), spec_view_menu(), spec_help_menu()]
}

/// A custom item without an accelerator, built at run time.
fn make_item(id: &str, label: &str) -> (n: MenuNode)
    ensures
        node_view(n) == item_v(id@, label@, None),
{
    MenuNode::Item { id: id.to_owned(), label: label.to_owned(), accelerator: None }
}

/// A custom item with an accelerator, built at run time.
fn make_accel_item(id: &str, label: &str, accelerator: &str) -> (n: MenuNode)
    ensures
        node_view(n) == item_v(id@, label@, Some(accelerator@)),
{
    MenuNode::Item {
        id: id.to_owned(),
        label: label.to_owned(),
        accelerator: Some(accelerator.to_owned()),
    }
}

/// Builds the File group.
fn build_file_menu() -> (n: MenuNode)
    ensures
        node_view(n) == spec_file_menu(),
{
    let mut items: Vec<MenuNode> = Vec::new();
    items.push(make_accel_item("new", "New", "CmdOrCtrl+N"));
    items.push(make_accel_item("open", "Open", "CmdOrCtrl+O"));
    items.push(MenuNode::Separator);
    items.push(make_accel_item("save", "Save", "CmdOrCtrl+S"));
    items.push(MenuNode::Separator);
    items.push(make_accel_item("quit", "Quit", "CmdOrCtrl+Q"));
    let label = "File".to_owned();
    proof {
        lemma_nodes_view_elems(items@);
        assert(nodes_view(items@) =~~= spec_file_menu()->Submenu_items);
    }
    MenuNode::Submenu { label, items }
}

/// Builds the Edit group.
fn build_edit_menu() -> (n: MenuNode)
    ensures
        node_view(n) == spec_edit_menu(),
{
    let mut items: Vec<MenuNode> = Vec::new();
    items.push(MenuNode::Native { kind: NativeItem::Undo });
    items.push(MenuNode::Native { kind: NativeItem::Redo });
    items.push(MenuNode::Separator);
    items.push(MenuNode::Native { kind: NativeItem::Cut });
    items.push(MenuNode::Native { kind: NativeItem::Copy });
    items.push(MenuNode::Native { kind: NativeItem::Paste });
    items.push(MenuNode::Native { kind: NativeItem::SelectAll });
    let label = "Edit".to_owned();
    proof {
        lemma_nodes_view_elems(items@);
        assert(nodes_view(items@) =~~= spec_edit_menu()->Submenu_items);
    }
    MenuNode::Submenu { label, items }
}

/// Builds the View group.
fn build_view_menu() -> (n: MenuNode)
    ensures
        node_view(n) == spec_view_menu(),
{
    let mut items: Vec<MenuNode> = Vec::new();
    items.push(make_accel_item("home", "Home", "CmdOrCtrl+1"));
    items.push(make_accel_item("about", "About", "CmdOrCtrl+2"));
    items.push(make_accel_item("settings", "Settings", "CmdOrCtrl+,"));
    items.push(make_accel_item("profile", "Profile", "CmdOrCtrl+P"));
    items.push(MenuNode::Separator);
    items.push(make_accel_item("toggle_theme", "Toggle Theme", "CmdOrCtrl+T"));
    items.push(MenuNode::Separator);
    items.push(make_accel_item("reload", "Reload", "CmdOrCtrl+R"));
    items.push(make_accel_item("toggle_devtools", "Toggle DevTools", "F12"));
    let label = "View".to_owned();
    proof {
        lemma_nodes_view_elems(items@);
        assert(nodes_view(items@) =~~= spec_view_menu()->Submenu_items);
    }
    MenuNode::Submenu { label, items }
}

/// Builds the Help group.
fn build_help_menu() -> (n: MenuNode)
    ensures
        node_view(n) == spec_help_menu(),
{
    let mut items: Vec<MenuNode> = Vec::new();
    items.push(make_item("about_app", "About Squri"));
    items.push(make_item("documentation", "Documentation"));
    let label = "Help".to_owned();
    proof {
        lemma_nodes_view_elems(items@);
        assert(nodes_view(items@) =~~= spec_help_menu()->Submenu_items);
    }
    MenuNode::Submenu { label, items }
}

/// Images of a vector of strings, elementwise.
pub open spec fn strs_view(ss: Seq<String>) -> Seq<Seq<char>> {
    ss.map_values(|s: String| s@)
}

/// Appending one node appends exactly that node's identifiers.
pub proof fn lemma_nodes_ids_prefix(ns: Seq<MenuNodeV>, j: int)
    requires
        0 <= j < ns.len(),
    ensures
        nodes_ids(ns.subrange(0, j + 1)) == nodes_ids(ns.subrange(0, j)) + node_ids(ns[j]),
{
    assert(ns.subrange(0, j + 1).drop_last() =~= ns.subrange(0, j));
    assert(ns.subrange(0, j + 1).last() == ns[j]);
}

/// Pushes the identifiers of all custom items under `n`, in tree
/// order, onto `out`.
fn collect_node_ids(n: &MenuNode, out: &mut Vec<String>)
    ensures
        strs_view(final(out)@) == strs_view(old(out)@) + node_ids(node_view(*n)),
    decreases *n,
{
    match n {
        MenuNode::Item { id, .. } => {
            out.push(id.clone());
            proof {
                assert(strs_view(out@) =~= strs_view(old(out)@) + node_ids(node_view(*n)));
            }
        },
        MenuNode::Separator => {
            proof {
                assert(strs_view(out@) =~= strs_view(old(out)@) + node_ids(node_view(*n)));
            }
        },
        MenuNode::Native { .. } => {
            proof {
                assert(strs_view(out@) =~= strs_view(old(out)@) + node_ids(node_view(*n)));
            }
        },
        MenuNode::Submenu { items, .. } => {
            proof {
                lemma_nodes_view_elems(items@);
            }
            let ghost nv = nodes_view(items@);
            let mut j: usize = 0;
            while j < items.len()
                invariant
                    j <= items.len(),
                    *n is Submenu,
                    *items == n->Submenu_items,
                    nv == nodes_view(items@),
                    nv.len() == items@.len(),
                    forall|i: int| 0 <= i < items@.len() ==> #[trigger] nv[i] == node_view(items@[i]),
                    strs_view(out@) == strs_view(old(out)@) + nodes_ids(nv.subrange(0, j as int)),
                decreases items.len() - j,
            {
                proof {
                    broadcast use vstd::std_specs::vec::group_vec_axioms;

                    assert(decreases_to!(*n => n->Submenu_items));
                    assert(decreases_to!(*items => items@));
                    assert(decreases_to!(items@ => items@[j as int]));
                }
                collect_node_ids(&items[j], out);
                proof {
                    lemma_nodes_ids_prefix(nv, j as int);
                }
                j += 1;
            }
            proof {
                assert(nv.subrange(0, items@.len() as int) =~= nv);
            }
        },
    }
}

/// Collects every custom-item identifier under `entries`, in tree
/// order.
pub fn menu_ids(entries: &Vec<MenuNode>) -> (ids: Vec<String>)
    ensures
        strs_view(ids@) == nodes_ids(nodes_view(entries@)),
{
    proof {
        lemma_nodes_view_elems(entries@);
    }
    let ghost nv = nodes_view(entries@);
    let mut out: Vec<String> = Vec::new();
    let mut j: usize = 0;
    while j < entries.len()
        invariant
            j <= entries.len(),
            nv == nodes_view(entries@),
            nv.len() == entries@.len(),
            forall|i: int| 0 <= i < entries@.len() ==> #[trigger] nv[i] == node_view(entries@[i]),
            strs_view(out@) == nodes_ids(nv.subrange(0, j as int)),
        decreases entries.len() - j,
    {
        collect_node_ids(&entries[j], &mut out);
        proof {
            lemma_nodes_ids_prefix(nv, j as int);
        }
        j += 1;
    }
    proof {
        assert(nv.subrange(0, entries@.len() as int) =~= nv);
        assert(strs_view(Seq::<String>::empty()) =~= Seq::<Seq<char>>::empty());
    }
    out
}

/// True exactly when no identifier in `ids` occurs twice.
pub fn ids_all_distinct(ids: &Vec<String>) -> (r: bool)
    ensures
        r == unique_ids(strs_view(ids@)),
{
    let n = ids.len();
    let mut i: usize = 0;
    while i < n
        invariant
            n == ids.len(),
            i <= n,
            forall|p: int, q: int|
                0 <= p < q < n && p < i ==> #[trigger] strs_view(ids@)[p] != #[trigger] strs_view(
                    ids@,
                )[q],
        decreases n - i,
    {
        let mut j: usize = i + 1;
        while j < n
            invariant
                n == ids.len(),
                i < n,
                i < j <= n,
                forall|p: int, q: int|
                    0 <= p < q < n && p < i ==> #[trigger] strs_view(ids@)[p]
                        != #[trigger] strs_view(ids@)[q],
                forall|q: int| i < q < j ==> strs_view(ids@)[i as int] != #[trigger] strs_view(
                    ids@,
                )[q],
            decreases n - j,
        {
            if ids[i].eq(&ids[j]) {
                proof {
                    assert(strs_view(ids@)[i as int] == strs_view(ids@)[j as int]);
                    assert(!unique_ids(strs_view(ids@)));
                }
                return false;
            }
            j += 1;
        }
        i += 1;
    }
    true
}

/// The application menu: the root-level groups, with globally unique
/// custom-item identifiers.
pub struct Menu {
    pub entries: Vec<MenuNode>,
}

impl Menu {
    /// Every custom-item identifier in the menu, in tree order.
    pub open spec fn spec_ids(self) -> Seq<Seq<char>> {
        nodes_ids(nodes_view(self.entries@))
    }

    /// The structural invariant: identifiers are globally unique.
    pub open spec fn wf(self) -> bool {
        unique_ids(self.spec_ids())
    }

    /// Wraps `entries` as a menu, rejecting any tree in which a
    /// custom-item identifier occurs twice.
    pub fn build(entries: Vec<MenuNode>) -> (r: Option<Menu>)
        ensures
            r is Some <==> unique_ids(nodes_ids(nodes_view(entries@))),
            r matches Some(m) ==> m.entries == entries && m.wf(),
    {
        let ids = menu_ids(&entries);
        if ids_all_distinct(&ids) {
            Some(Menu { entries })
        } else {
            None
        }
    }
}

/// The identifiers of the canonical application menu, in tree order.
pub open spec fn spec_app_menu_ids() -> Seq<Seq<char>> {
    seq![
        "new"@,
        "open"@,
        "save"@,
        "quit"@,
        "home"@,
        "about"@,
        "settings"@,
        "profile"@,
        "toggle_theme"@,
        "reload"@,
        "toggle_devtools"@,
        "about_app"@,
        "documentation"@,
    ]
}

/// The File group's identifiers, in order.
proof fn lemma_file_menu_ids()
    ensures
        node_ids(spec_file_menu()) == seq!["new"@, "open"@, "save"@, "quit"@],
{
    reveal_with_fuel(nodes_ids, 8);
    reveal_with_fuel(node_ids, 8);
    assert(node_ids(spec_file_menu()) =~= seq!["new"@, "open"@, "save"@, "quit"@]);
}

/// The Edit group has no custom identifiers at all.
proof fn lemma_edit_menu_ids()
    ensures
        node_ids(spec_edit_menu()) == Seq::<Seq<char>>::empty(),
{
    reveal_with_fuel(nodes_ids, 9);
    reveal_with_fuel(node_ids, 9);
    assert(node_ids(spec_edit_menu()) =~= Seq::<Seq<char>>::empty());
}

/// The View group's identifiers, in order.
proof fn lemma_view_menu_ids()
    ensures
        node_ids(spec_view_menu()) == seq![
            "home"@,
            "about"@,
            "settings"@,
            "profile"@,
            "toggle_theme"@,
            "reload"@,
            "toggle_devtools"@,
        ],
{
    reveal_with_fuel(nodes_ids, 11);
    reveal_with_fuel(node_ids, 11);
    assert(node_ids(spec_view_menu()) =~= seq![
        "home"@,
        "about"@,
        "settings"@,
        "profile"@,
        "toggle_theme"@,
        "reload"@,
        "toggle_devtools"@,
    ]);
}

/// The Help group's identifiers, in order.
proof fn lemma_help_menu_ids()
    ensures
        node_ids(spec_help_menu()) == seq!["about_app"@, "documentation"@],
{
    reveal_with_fuel(nodes_ids, 4);
    reveal_with_fuel(node_ids, 4);
    assert(node_ids(spec_help_menu()) =~= seq!["about_app"@, "documentation"@]);
}

/// The canonical menu carries exactly the thirteen dispatch-table
/// identifiers, each exactly once.
pub proof fn lemma_app_menu_ids_unique()
    ensures
        nodes_ids(spec_app_menu()) == spec_app_menu_ids(),
        unique_ids(spec_app_menu_ids()),
{
    lemma_file_menu_ids();
    lemma_edit_menu_ids();
    lemma_view_menu_ids();
    lemma_help_menu_ids();
    reveal_with_fuel(nodes_ids, 6);
    reveal_with_fuel(node_ids, 6);
    assert(nodes_ids(spec_app_menu()) =~= spec_app_menu_ids());
    lemma_app_menu_ids_distinct();
}

/// No two of the thirteen canonical identifiers are equal.
#[verifier::rlimit(50)]
proof fn lemma_app_menu_ids_distinct()
    ensures
        unique_ids(spec_app_menu_ids()),
{
    crate::dispatch::lemma_defined_ids_distinct();
}

/// Builds the application menu: the four groups of [`spec_app_menu`],
/// well formed by construction.
pub fn build_app_menu() -> (m: Menu)
    ensures
        nodes_view(m.entries@) == spec_app_menu(),
        m.spec_ids() == spec_app_menu_ids(),
        m.wf(),
{
    let mut entries: Vec<MenuNode> = Vec::new();
    entries.push(build_file_menu());
    entries.push(build_edit_menu());
    entries.push(build_view_menu());
    entries.push(build_help_menu());
    proof {
        lemma_nodes_view_elems(entries@);
        assert(nodes_view(entries@) =~= spec_app_menu());
        lemma_app_menu_ids_unique();
    }
    Menu { entries }
}

/// The menu and the dispatch table agree: an identifier occurs in the
/// canonical menu exactly when the dispatch table defines an effect
/// for it.
pub proof fn lemma_menu_matches_dispatch_table()
    ensures
        forall|id: Seq<char>|
            crate::dispatch::is_defined(id) <==> spec_app_menu_ids().contains(id),
{
    let ids = spec_app_menu_ids();
    assert forall|id: Seq<char>| crate::dispatch::is_defined(id) implies ids.contains(id) by {
        if id == "new"@ {
            assert(ids[0] == id);
        } else if id == "open"@ {
            assert(ids[1] == id);
        } else if id == "save"@ {
            assert(ids[2] == id);
        } else if id == "quit"@ {
            assert(ids[3] == id);
        } else if id == "home"@ {
            assert(ids[4] == id);
        } else if id == "about"@ {
            assert(ids[5] == id);
        } else if id == "settings"@ {
            assert(ids[6] == id);
        } else if id == "profile"@ {
            assert(ids[7] == id);
        } else if id == "toggle_theme"@ {
            assert(ids[8] == id);
        } else if id == "reload"@ {
            assert(ids[9] == id);
        } else if id == "toggle_devtools"@ {
            assert(ids[10] == id);
        } else if id == "about_app"@ {
            assert(ids[11] == id);
        } else {
            assert(ids[12] == id);
        }
    }
}

} // verus!
