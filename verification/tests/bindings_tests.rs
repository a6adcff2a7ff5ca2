use std::collections::HashSet;
use window_rectangle::bindings::{
    binding_action, bindings, Modifiers, BINDING_COUNT, MOD_ALT, MOD_CONTROL, VK_LEFT, VK_R,
};
use window_rectangle::geometry::{Action, Corner, Half};

#[test]
fn binding_count_matches_design() {
    assert_eq!(bindings().len(), 11);
}

#[test]
fn no_duplicate_modifier_plus_key() {
    let table = bindings();
    for (i, a) in table.iter().enumerate() {
        for b in table.iter().skip(i + 1) {
            assert!(
                !(a.modifiers == b.modifiers && a.virtual_key == b.virtual_key),
                "duplicate binding: {:?} and {:?}",
                a.menu_label,
                b.menu_label
            );
        }
    }
}

#[test]
fn every_action_has_a_binding() {
    let actions: HashSet<_> = bindings().iter().map(|b| b.action).collect();
    assert!(actions.contains(&Action::Halve(Half::Left)));
    assert!(actions.contains(&Action::Halve(Half::Right)));
    assert!(actions.contains(&Action::Halve(Half::Top)));
    assert!(actions.contains(&Action::Halve(Half::Bottom)));
    assert!(actions.contains(&Action::Quarter(Corner::TopLeft)));
    assert!(actions.contains(&Action::Quarter(Corner::TopRight)));
    assert!(actions.contains(&Action::Quarter(Corner::BottomLeft)));
    assert!(actions.contains(&Action::Quarter(Corner::BottomRight)));
    assert!(actions.contains(&Action::Maximize));
    assert!(actions.contains(&Action::Center));
    assert!(actions.contains(&Action::RestoreOriginal));
}

#[test]
fn table_entries_match_design() {
    let table = bindings();
    assert_eq!(table.len(), BINDING_COUNT);
    assert_eq!(table[0].virtual_key, VK_LEFT);
    assert_eq!(table[0].modifiers, MOD_CONTROL | MOD_ALT);
    assert_eq!(table[0].menu_label, "Halve Left");
    assert_eq!(table[0].hotkey_label, "Ctrl+Alt+Left");
    assert_eq!(table[8].action, Action::Maximize);
    assert_eq!(table[8].hotkey_label, "Ctrl+Alt+Enter");
    assert_eq!(table[10].virtual_key, VK_R);
    assert_eq!(table[10].menu_label, "Restore");
    assert!(table.iter().all(|b| b.modifiers == 0x0003));
    assert_eq!(Modifiers(MOD_CONTROL | MOD_ALT), Modifiers(3));
}

#[test]
fn binding_action_follows_table_order() {
    assert_eq!(binding_action(0), Action::Halve(Half::Left));
    assert_eq!(binding_action(7), Action::Quarter(Corner::BottomRight));
    assert_eq!(binding_action(9), Action::Center);
    assert_eq!(binding_action(10), Action::RestoreOriginal);
}
