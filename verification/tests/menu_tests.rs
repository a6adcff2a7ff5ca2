use window_rectangle::bindings::bindings;
use window_rectangle::menu::{group_of, menu_item_label, tray_menu_layout, MenuEntry};
use window_rectangle::menu::MenuEntry::{Item, Quit, Separator};

#[test]
fn group_of_uses_first_word() {
    assert_eq!(group_of("Halve Left"), "halve");
    assert_eq!(group_of("Quarter Top-Right"), "quarter");
    assert_eq!(group_of("Maximize"), "misc");
    assert_eq!(group_of("Half"), "misc");
    assert_eq!(group_of(""), "misc");
}

#[test]
fn tray_menu_groups_bindings() {
    let layout = tray_menu_layout(&bindings());
    assert_eq!(
        layout,
        vec![
            Item(0),
            Item(1),
            Item(2),
            Item(3),
            Separator,
            Item(4),
            Item(5),
            Item(6),
            Item(7),
            Separator,
            Item(8),
            Item(9),
            Item(10),
            Separator,
            Quit,
        ]
    );
}

#[test]
fn empty_table_gives_only_quit() {
    assert_eq!(tray_menu_layout(&Vec::new()), vec![MenuEntry::Separator, MenuEntry::Quit]);
}

#[test]
fn menu_labels_align_hotkeys() {
    assert_eq!(
        menu_item_label("Halve Left", "Ctrl+Alt+Left"),
        format!("{:<22} {}", "Halve Left", "Ctrl+Alt+Left")
    );
    assert_eq!(menu_item_label("Center", "Ctrl+Alt+C"), "Center                 Ctrl+Alt+C");
    let long = "A label longer than the column";
    assert_eq!(menu_item_label(long, "X"), format!("{} X", long));
    for b in bindings() {
        assert_eq!(
            menu_item_label(b.menu_label, b.hotkey_label),
            format!("{:<22} {}", b.menu_label, b.hotkey_label)
        );
    }
}
