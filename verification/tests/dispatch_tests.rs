use naqi_menu::dispatch::on_selected;
use naqi_menu::registry::CommandTable;

#[test]
fn selecting_export_png_emits_its_signal_once() {
    let table = CommandTable::new();
    let emissions = on_selected(&table, "export_png");
    assert_eq!(emissions.len(), 1);
    assert_eq!(emissions[0].name, "menu-export-png");
    assert!(emissions[0].payload.is_empty());
}

#[test]
fn selecting_preferences_emits_its_signal_once() {
    let table = CommandTable::new();
    let emissions = on_selected(&table, "preferences");
    assert_eq!(emissions.len(), 1);
    assert_eq!(emissions[0].name, "menu-preferences");
    assert!(emissions[0].payload.is_empty());
}

#[test]
fn selecting_a_platform_action_emits_nothing() {
    let table = CommandTable::new();
    let emissions = on_selected(&table, "quit");
    assert!(emissions.is_empty());
}

#[test]
fn selecting_an_unknown_id_emits_nothing() {
    let table = CommandTable::new();
    let emissions = on_selected(&table, "no-such-command");
    assert!(emissions.is_empty());
    let emissions = on_selected(&table, "");
    assert!(emissions.is_empty());
}

#[test]
fn every_registered_id_emits_exactly_its_signal() {
    let table = CommandTable::new();
    let rows = [
        ("export_png", "menu-export-png"),
        ("export_config", "menu-export-config"),
        ("import_config", "menu-import-config"),
        ("open_recent", "menu-open-recent"),
        ("manual_rect", "menu-manual-rect"),
        ("reset_rect", "menu-reset-rect"),
        ("clear_markers", "menu-clear-markers"),
        ("preferences", "menu-preferences"),
        ("show_help", "menu-show-help"),
    ];
    for (id, signal) in rows {
        let emissions = on_selected(&table, id);
        assert_eq!(emissions.len(), 1);
        assert_eq!(emissions[0].name, signal);
        assert!(emissions[0].payload.is_empty());
    }
}
