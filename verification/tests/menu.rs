use squri::menu::{build_app_menu, ids_all_distinct, menu_ids, Menu, MenuNode, NativeItem};

fn group_label(n: &MenuNode) -> &str {
    match n {
        MenuNode::Submenu { label, .. } => label,
        _ => panic!("expected a submenu at the menu root"),
    }
}

fn group_items(n: &MenuNode) -> &Vec<MenuNode> {
    match n {
        MenuNode::Submenu { items, .. } => items,
        _ => panic!("expected a submenu at the menu root"),
    }
}

#[test]
fn app_menu_has_the_four_groups_in_order() {
    let m = build_app_menu();
    assert_eq!(m.entries.len(), 4);
    assert_eq!(group_label(&m.entries[0]), "File");
    assert_eq!(group_label(&m.entries[1]), "Edit");
    assert_eq!(group_label(&m.entries[2]), "View");
    assert_eq!(group_label(&m.entries[3]), "Help");
}

#[test]
fn file_group_has_its_items_and_accelerators() {
    let m = build_app_menu();
    let items = group_items(&m.entries[0]);
    assert_eq!(items.len(), 6);
    match &items[0] {
        MenuNode::Item { id, label, accelerator } => {
            assert_eq!(id, "new");
            assert_eq!(label, "New");
            assert_eq!(accelerator.as_deref(), Some("CmdOrCtrl+N"));
        }
        _ => panic!("expected the New item first"),
    }
    assert!(matches!(items[2], MenuNode::Separator));
    assert!(matches!(items[4], MenuNode::Separator));
    match &items[5] {
        MenuNode::Item { id, label, accelerator } => {
            assert_eq!(id, "quit");
            assert_eq!(label, "Quit");
            assert_eq!(accelerator.as_deref(), Some("CmdOrCtrl+Q"));
        }
        _ => panic!("expected the Quit item last"),
    }
}

#[test]
fn edit_group_is_platform_native() {
    let m = build_app_menu();
    let items = group_items(&m.entries[1]);
    assert_eq!(items.len(), 7);
    let kinds: Vec<NativeItem> = items
        .iter()
        .filter_map(|n| match n {
            MenuNode::Native { kind } => Some(*kind),
            _ => None,
        })
        .collect();
    assert_eq!(
        kinds,
        vec![
            NativeItem::Undo,
            NativeItem::Redo,
            NativeItem::Cut,
            NativeItem::Copy,
            NativeItem::Paste,
            NativeItem::SelectAll,
        ]
    );
    assert!(matches!(items[2], MenuNode::Separator));
}

#[test]
fn app_menu_ids_come_in_tree_order() {
    let m = build_app_menu();
    let ids = menu_ids(&m.entries);
    let expected = vec![
        "new",
        "open",
        "save",
        "quit",
        "home",
        "about",
        "settings",
        "profile",
        "toggle_theme",
        "reload",
        "toggle_devtools",
        "about_app",
        "documentation",
    ];
    assert_eq!(ids, expected);
}

#[test]
fn app_menu_ids_are_globally_unique() {
    let m = build_app_menu();
    let ids = menu_ids(&m.entries);
    assert!(ids_all_distinct(&ids));
}

#[test]
fn canonical_entries_are_accepted() {
    let m = build_app_menu();
    assert!(Menu::build(m.entries).is_some());
}

#[test]
fn a_duplicate_identifier_is_rejected() {
    let m = build_app_menu();
    let mut entries = m.entries;
    entries.push(MenuNode::Item {
        id: "save".to_string(),
        label: "Save Copy".to_string(),
        accelerator: None,
    });
    assert!(Menu::build(entries).is_none());
}

#[test]
fn a_nested_duplicate_identifier_is_rejected() {
    let entries = vec![
        MenuNode::Submenu {
            label: "One".to_string(),
            items: vec![MenuNode::Item {
                id: "open".to_string(),
                label: "Open".to_string(),
                accelerator: None,
            }],
        },
        MenuNode::Submenu {
            label: "Two".to_string(),
            items: vec![MenuNode::Submenu {
                label: "Deep".to_string(),
                items: vec![MenuNode::Item {
                    id: "open".to_string(),
                    label: "Open Again".to_string(),
                    accelerator: None,
                }],
            }],
        },
    ];
    assert!(Menu::build(entries).is_none());
}
