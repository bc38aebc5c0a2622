use naqi_menu::registry::CommandTable;

#[test]
fn registry_has_nine_rows() {
    let table = CommandTable::new();
    assert_eq!(table.len(), 9);
}

#[test]
fn every_registered_id_maps_to_its_signal() {
    let table = CommandTable::new();
    let expected = [
        ("export_png", "menu-export-png"),
        ("export_config", "menu-export-config"),
        ("import_config", "menu-import-config"),
        ("open_recent", "menu-open-recent"),
        ("manual_rect", "menu-manual-rect"),
        ("reset_rect", "menu-reset-rect"),
        ("clear_markers", "menu-clear-markers"),
        ("preferences", "menu-preferences"),
        ("show_help", "menu-show-help"),
    ];
    for (id, signal) in expected {
        assert_eq!(table.lookup(id).as_deref(), Some(signal));
    }
}

#[test]
fn unregistered_ids_have_no_binding() {
    let table = CommandTable::new();
    assert_eq!(table.lookup("quit"), None);
    assert_eq!(table.lookup(""), None);
    assert_eq!(table.lookup("EXPORT_PNG"), None);
    assert_eq!(table.lookup("export_png "), None);
}

#[test]
fn signal_names_are_pairwise_distinct() {
    let table = CommandTable::new();
    let ids = [
        "export_png",
        "export_config",
        "import_config",
        "open_recent",
        "manual_rect",
        "reset_rect",
        "clear_markers",
        "preferences",
        "show_help",
    ];
    let signals: Vec<String> = ids
        .iter()
        .map(|id| table.lookup(id).unwrap_or_else(|| panic!("{} not registered", id)))
        .collect();
    for i in 0..signals.len() {
        for j in (i + 1)..signals.len() {
            assert_ne!(signals[i], signals[j]);
        }
    }
}
