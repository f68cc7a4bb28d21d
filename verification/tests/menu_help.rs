use true_tick::menu::{
    menu_help_description, submenu_description, submenu_label_description, MF_POPUP,
};

#[test]
fn submenu_labels_map_to_their_hover_descriptions_ignoring_trailing_accelerators() {
    assert_eq!(
        submenu_label_description("Schedule >"),
        Some("Schedule a bounded timing action")
    );
    assert_eq!(
        submenu_label_description("Settings >&&"),
        Some("Configure startup and automation settings")
    );
    assert_eq!(
        submenu_label_description("Resume now&"),
        Some("Resume timing and cancel the pause")
    );
    assert_eq!(submenu_label_description("&Status >"), None);
    assert_eq!(submenu_label_description("Logs"), None);
}

#[test]
fn a_submenu_is_described_by_its_first_described_entry() {
    let labels = vec![
        None,
        Some("Logs".to_owned()),
        Some("Pause for >".to_owned()),
        Some("Status >".to_owned()),
    ];
    assert_eq!(
        submenu_description(&labels),
        Some("Suppress acquisition for a fixed duration")
    );
    assert_eq!(submenu_description(&vec![Some("Quit".to_owned())]), None);
    assert_eq!(submenu_description(&vec![]), None);
}

#[test]
fn menu_help_prefers_the_command_description_then_the_submenu() {
    assert_eq!(
        menu_help_description(1004, MF_POPUP, Some("x")),
        Some("Stop safely and quit")
    );
    assert_eq!(
        menu_help_description(0, MF_POPUP, Some("View read-only lifecycle details")),
        Some("View read-only lifecycle details")
    );
    assert_eq!(menu_help_description(0, 0, Some("x")), None);
    assert_eq!(menu_help_description(0, MF_POPUP, None), None);
}
