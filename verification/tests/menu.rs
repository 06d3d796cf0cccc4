use script_tray::menu::{is_eligible, ListingEntry, MenuModel, MENU_ID_BASE};

fn entry(name: &str, ext: Option<&str>, is_dir: bool) -> ListingEntry {
    ListingEntry {
        name: name.to_string(),
        extension: ext.map(|e| e.to_string()),
        is_dir,
    }
}

fn mixed_listing() -> Vec<ListingEntry> {
    vec![
        entry("a.rhai", Some("rhai"), false),
        entry("notes.txt", Some("txt"), false),
        entry("b.rhai", Some("rhai"), false),
        entry("sub.rhai", Some("rhai"), true),
        entry("README", None, false),
        entry("c.rhai", Some("rhai"), false),
    ]
}

#[test]
fn eligibility_requires_regular_file_with_script_extension() {
    assert!(is_eligible(&entry("a.rhai", Some("rhai"), false)));
    assert!(!is_eligible(&entry("notes.txt", Some("txt"), false)));
    assert!(!is_eligible(&entry("sub.rhai", Some("rhai"), true)));
    assert!(!is_eligible(&entry("README", None, false)));
}

#[test]
fn rebuild_keeps_eligible_files_with_unique_sequential_ids() {
    let mut m = MenuModel::new();
    m.rebuild(&mixed_listing(), &String::new());
    assert_eq!(m.entries.len(), 3);
    let labels: Vec<&str> = m.entries.iter().map(|e| e.label.as_str()).collect();
    assert_eq!(labels, vec!["a.rhai", "b.rhai", "c.rhai"]);
    for (i, e) in m.entries.iter().enumerate() {
        assert_eq!(e.id, MENU_ID_BASE + i as u32);
        assert!(e.id >= MENU_ID_BASE && e.id < MENU_ID_BASE + m.entries.len() as u32);
    }
    for i in 0..m.entries.len() {
        for j in (i + 1)..m.entries.len() {
            assert_ne!(m.entries[i].id, m.entries[j].id);
        }
    }
}

#[test]
fn rebuild_of_empty_listing_is_empty() {
    let mut m = MenuModel::new();
    m.rebuild(&Vec::new(), &"a.rhai".to_string());
    assert_eq!(m.entries.len(), 0);
}

#[test]
fn rebuild_twice_yields_identical_entry_set() {
    let selected = "b.rhai".to_string();
    let mut m1 = MenuModel::new();
    m1.rebuild(&mixed_listing(), &selected);
    let mut m2 = MenuModel::new();
    m2.rebuild(&mixed_listing(), &selected);
    assert_eq!(m1.entries.len(), m2.entries.len());
    for (a, b) in m1.entries.iter().zip(m2.entries.iter()) {
        assert_eq!(a.id, b.id);
        assert_eq!(a.label, b.label);
        assert_eq!(a.checked, b.checked);
    }
    m1.rebuild(&mixed_listing(), &selected);
    for (a, b) in m1.entries.iter().zip(m2.entries.iter()) {
        assert_eq!(a.id, b.id);
        assert_eq!(a.label, b.label);
        assert_eq!(a.checked, b.checked);
    }
}

#[test]
fn rebuild_checks_exactly_the_selected_label() {
    let mut m = MenuModel::new();
    m.rebuild(&mixed_listing(), &"b.rhai".to_string());
    let checked: Vec<&str> = m
        .entries
        .iter()
        .filter(|e| e.checked)
        .map(|e| e.label.as_str())
        .collect();
    assert_eq!(checked, vec!["b.rhai"]);
}

#[test]
fn rebuild_checks_nothing_when_selected_is_absent() {
    let mut m = MenuModel::new();
    m.rebuild(&mixed_listing(), &"deleted.rhai".to_string());
    assert!(m.entries.iter().all(|e| !e.checked));
}

#[test]
fn set_checked_checks_exactly_the_passed_id() {
    let mut m = MenuModel::new();
    m.rebuild(&mixed_listing(), &String::new());
    m.set_checked(MENU_ID_BASE + 1);
    let checked: Vec<u32> = m.entries.iter().filter(|e| e.checked).map(|e| e.id).collect();
    assert_eq!(checked, vec![MENU_ID_BASE + 1]);
    m.set_checked(MENU_ID_BASE + 2);
    let checked: Vec<u32> = m.entries.iter().filter(|e| e.checked).map(|e| e.id).collect();
    assert_eq!(checked, vec![MENU_ID_BASE + 2]);
}

#[test]
fn set_checked_preserves_ids_and_labels() {
    let mut m = MenuModel::new();
    m.rebuild(&mixed_listing(), &"a.rhai".to_string());
    let before: Vec<(u32, String)> =
        m.entries.iter().map(|e| (e.id, e.label.clone())).collect();
    m.set_checked(MENU_ID_BASE + 2);
    let after: Vec<(u32, String)> = m.entries.iter().map(|e| (e.id, e.label.clone())).collect();
    assert_eq!(before, after);
}

#[test]
fn dynamic_range_and_label_lookup() {
    let mut m = MenuModel::new();
    m.rebuild(&mixed_listing(), &String::new());
    assert!(!m.in_dynamic_range(0));
    assert!(!m.in_dynamic_range(MENU_ID_BASE - 1));
    assert!(m.in_dynamic_range(MENU_ID_BASE));
    assert!(m.in_dynamic_range(MENU_ID_BASE + 2));
    assert!(!m.in_dynamic_range(MENU_ID_BASE + 3));
    assert_eq!(m.label_of(MENU_ID_BASE), Some("a.rhai".to_string()));
    assert_eq!(m.label_of(MENU_ID_BASE + 2), Some("c.rhai".to_string()));
    assert_eq!(m.label_of(MENU_ID_BASE + 3), None);
    assert_eq!(m.label_of(7), None);
}
