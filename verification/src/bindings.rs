//! The hotkey table: one source for hotkey registration and the tray menu.
use vstd::prelude::*;
use crate::geometry::{Action, Corner, Half};

verus! {

/// Win32 modifier flags (matches MOD_* constants used by RegisterHotKey).
#[derive(Debug, Clone, Copy, PartialEq, Eq, Structural)]
pub struct Modifiers(pub u32);

pub const MOD_ALT: u32 = 0x0001;

pub const MOD_CONTROL: u32 = 0x0002;

pub const MOD_SHIFT: u32 = 0x0004;

/// Win32 virtual-key codes used by our bindings.
pub const VK_LEFT: u32 = 0x25;

pub const VK_UP: u32 = 0x26;

pub const VK_RIGHT: u32 = 0x27;

pub const VK_DOWN: u32 = 0x28;

pub const VK_RETURN: u32 = 0x0D;

pub const VK_C: u32 = 0x43;

pub const VK_I: u32 = 0x49;

pub const VK_J: u32 = 0x4A;

pub const VK_K: u32 = 0x4B;

pub const VK_R: u32 = 0x52;

pub const VK_U: u32 = 0x55;

pub const CTRL_ALT: u32 = MOD_CONTROL | MOD_ALT;

#[derive(Debug, Clone, Copy)]
pub struct Binding {
    pub modifiers: u32,
    pub virtual_key: u32,
    pub action: Action,
    pub menu_label: &'static str,
    pub hotkey_label: &'static str,
}

/// A binding with its labels as character sequences.
pub struct BindingView {
    pub modifiers: u32,
    pub virtual_key: u32,
    pub action: Action,
    pub menu_label: Seq<char>,
    pub hotkey_label: Seq<char>,
}

impl View for Binding {
    type V = BindingView;

    open spec fn view(&self) -> BindingView {
        BindingView {
            modifiers: self.modifiers,
            virtual_key: self.virtual_key,
            action: self.action,
            menu_label: self.menu_label@,
            hotkey_label: self.hotkey_label@,
        }
    }
}

/// Number of entries in the hotkey table.
pub const BINDING_COUNT: usize = 11;

pub open spec fn entry(
    virtual_key: u32,
    action: Action,
    menu_label: Seq<char>,
    hotkey_label: Seq<char>,
) -> BindingView {
    BindingView { modifiers: CTRL_ALT, virtual_key, action, menu_label, hotkey_label }
}

/// The hotkey table, entry `i` for hotkey id `i`.
pub open spec fn binding_spec(i: int) -> BindingView {
    if i == 0 {
        entry(VK_LEFT, Action::Halve(Half::Left), "Halve Left"@, "Ctrl+Alt+Left"@)
    } else if i == 1 {
        entry(VK_RIGHT, Action::Halve(Half::Right), "Halve Right"@, "Ctrl+Alt+Right"@)
    } else if i == 2 {
        entry(VK_UP, Action::Halve(Half::Top), "Halve Top"@, "Ctrl+Alt+Up"@)
    } else if i == 3 {
        entry(VK_DOWN, Action::Halve(Half::Bottom), "Halve Bottom"@, "Ctrl+Alt+Down"@)
    } else if i == 4 {
        entry(VK_U, Action::Quarter(Corner::TopLeft), "Quarter Top-Left"@, "Ctrl+Alt+U"@)
    } else if i == 5 {
        entry(VK_I, Action::Quarter(Corner::TopRight), "Quarter Top-Right"@, "Ctrl+Alt+I"@)
    } else if i == 6 {
        entry(VK_J, Action::Quarter(Corner::BottomLeft), "Quarter Bottom-Left"@, "Ctrl+Alt+J"@)
    } else if i == 7 {
        entry(VK_K, Action::Quarter(Corner::BottomRight), "Quarter Bottom-Right"@, "Ctrl+Alt+K"@)
    } else if i == 8 {
        entry(VK_RETURN, Action::Maximize, "Maximize"@, "Ctrl+Alt+Enter"@)
    } else if i == 9 {
        entry(VK_C, Action::Center, "Center"@, "Ctrl+Alt+C"@)
    } else {
        entry(VK_R, Action::RestoreOriginal, "Restore"@, "Ctrl+Alt+R"@)
    }
}

fn make(
    virtual_key: u32,
    action: Action,
    menu_label: &'static str,
    hotkey_label: &'static str,
) -> (b: Binding)
    ensures
        b@ == entry(virtual_key, action, menu_label@, hotkey_label@),
{
    Binding { modifiers: CTRL_ALT, virtual_key, action, menu_label, hotkey_label }
}

/// The hotkey table, in hotkey-id order.
pub fn bindings() -> (r: Vec<Binding>)
    ensures
        r.len() == BINDING_COUNT,
        forall|i: int| 0 <= i < BINDING_COUNT ==> #[trigger] r@[i]@ == binding_spec(i),
{
    let mut v: Vec<Binding> = Vec::new();
    v.push(make(VK_LEFT, Action::Halve(Half::Left), "Halve Left", "Ctrl+Alt+Left"));
    v.push(make(VK_RIGHT, Action::Halve(Half::Right), "Halve Right", "Ctrl+Alt+Right"));
    v.push(make(VK_UP, Action::Halve(Half::Top), "Halve Top", "Ctrl+Alt+Up"));
    v.push(make(VK_DOWN, Action::Halve(Half::Bottom), "Halve Bottom", "Ctrl+Alt+Down"));
    v.push(make(VK_U, Action::Quarter(Corner::TopLeft), "Quarter Top-Left", "Ctrl+Alt+U"));
    v.push(make(VK_I, Action::Quarter(Corner::TopRight), "Quarter Top-Right", "Ctrl+Alt+I"));
    v.push(
        make(VK_J, Action::Quarter(Corner::BottomLeft), "Quarter Bottom-Left", "Ctrl+Alt+J"),
    );
    v.push(
        make(VK_K, Action::Quarter(Corner::BottomRight), "Quarter Bottom-Right", "Ctrl+Alt+K"),
    );
    v.push(make(VK_RETURN, Action::Maximize, "Maximize", "Ctrl+Alt+Enter"));
    v.push(make(VK_C, Action::Center, "Center", "Ctrl+Alt+C"));
    v.push(make(VK_R, Action::RestoreOriginal, "Restore", "Ctrl+Alt+R"));
    v
}

/// The action bound to hotkey id `index`.
pub fn binding_action(index: usize) -> (a: Action)
    requires
        index < BINDING_COUNT,
    ensures
        a == binding_spec(index as int).action,
{
    let table = bindings();
    assert(table@[index as int]@ == binding_spec(index as int));
    table[index].action
}

/// No two bindings share a modifier-plus-key combination, so every hotkey
/// can be registered.
pub proof fn lemma_hotkeys_distinct(i: int, j: int)
    requires
        0 <= i < BINDING_COUNT,
        0 <= j < BINDING_COUNT,
        i != j,
    ensures
        binding_spec(i).modifiers != binding_spec(j).modifiers || binding_spec(i).virtual_key
            != binding_spec(j).virtual_key,
{
}

/// Every action has a binding.
pub proof fn lemma_every_action_bound(action: Action)
    ensures
        exists|i: int| 0 <= i < BINDING_COUNT && #[trigger] binding_spec(i).action == action,
{
    let i: int = match action {
        Action::Halve(Half::Left) => 0,
        Action::Halve(Half::Right) => 1,
        Action::Halve(Half::Top) => 2,
        Action::Halve(Half::Bottom) => 3,
        Action::Quarter(Corner::TopLeft) => 4,
        Action::Quarter(Corner::TopRight) => 5,
        Action::Quarter(Corner::BottomLeft) => 6,
        Action::Quarter(Corner::BottomRight) => 7,
        Action::Maximize => 8,
        Action::Center => 9,
        Action::RestoreOriginal => 10,
    };
    assert(binding_spec(i).action == action);
}

/// All bindings use Ctrl+Alt.
pub proof fn lemma_all_ctrl_alt(i: int)
    requires
        0 <= i < BINDING_COUNT,
    ensures
        binding_spec(i).modifiers == MOD_CONTROL | MOD_ALT,
{
}

/// The text `"Ctrl+Alt+"` that every hotkey label starts with.
pub open spec fn ctrl_alt_prefix() -> Seq<char> {
    "Ctrl+Alt+"@
}

/// The virtual-key code of a key as its hotkey label names it: the arrow
/// keys and Enter by name, a letter by its own code (letter keys have the
/// code of the upper-case letter).
pub open spec fn key_named(name: Seq<char>) -> Option<u32> {
    if name == "Left"@ {
        Some(0x25u32)
    } else if name == "Up"@ {
        Some(0x26u32)
    } else if name == "Right"@ {
        Some(0x27u32)
    } else if name == "Down"@ {
        Some(0x28u32)
    } else if name == "Enter"@ {
        Some(0x0Du32)
    } else if name.len() == 1 && 'A' <= name[0] <= 'Z' {
        Some(name[0] as u32)
    } else {
        None
    }
}

/// The action a menu label names.
pub open spec fn action_named(label: Seq<char>) -> Option<Action> {
    if label == "Halve Left"@ {
        Some(Action::Halve(Half::Left))
    } else if label == "Halve Right"@ {
        Some(Action::Halve(Half::Right))
    } else if label == "Halve Top"@ {
        Some(Action::Halve(Half::Top))
    } else if label == "Halve Bottom"@ {
        Some(Action::Halve(Half::Bottom))
    } else if label == "Quarter Top-Left"@ {
        Some(Action::Quarter(Corner::TopLeft))
    } else if label == "Quarter Top-Right"@ {
        Some(Action::Quarter(Corner::TopRight))
    } else if label == "Quarter Bottom-Left"@ {
        Some(Action::Quarter(Corner::BottomLeft))
    } else if label == "Quarter Bottom-Right"@ {
        Some(Action::Quarter(Corner::BottomRight))
    } else if label == "Maximize"@ {
        Some(Action::Maximize)
    } else if label == "Center"@ {
        Some(Action::Center)
    } else if label == "Restore"@ {
        Some(Action::RestoreOriginal)
    } else {
        None
    }
}

/// Every binding does what its labels say: its hotkey label reads
/// "Ctrl+Alt+" and the name of its key, its modifiers are Ctrl and Alt, its
/// virtual key is the key so named, and its action is the one its menu label
/// names.
pub proof fn lemma_bindings_match_labels(i: int)
    requires
        0 <= i < BINDING_COUNT,
    ensures
        binding_spec(i).modifiers == MOD_CONTROL | MOD_ALT,
        binding_spec(i).hotkey_label.len() > 9,
        binding_spec(i).hotkey_label.subrange(0, 9) == ctrl_alt_prefix(),
        key_named(binding_spec(i).hotkey_label.subrange(9, binding_spec(i).hotkey_label.len() as int))
            == Some(binding_spec(i).virtual_key),
        action_named(binding_spec(i).menu_label) == Some(binding_spec(i).action),
{
    reveal_strlit("C");
    reveal_strlit("Center");
    reveal_strlit("Ctrl+Alt+");
    reveal_strlit("Ctrl+Alt+C");
    reveal_strlit("Ctrl+Alt+Down");
    reveal_strlit("Ctrl+Alt+Enter");
    reveal_strlit("Ctrl+Alt+I");
    reveal_strlit("Ctrl+Alt+J");
    reveal_strlit("Ctrl+Alt+K");
    reveal_strlit("Ctrl+Alt+Left");
    reveal_strlit("Ctrl+Alt+R");
    reveal_strlit("Ctrl+Alt+Right");
    reveal_strlit("Ctrl+Alt+U");
    reveal_strlit("Ctrl+Alt+Up");
    reveal_strlit("Down");
    reveal_strlit("Enter");
    reveal_strlit("Halve Bottom");
    reveal_strlit("Halve Left");
    reveal_strlit("Halve Right");
    reveal_strlit("Halve Top");
    reveal_strlit("I");
    reveal_strlit("J");
    reveal_strlit("K");
    reveal_strlit("Left");
    reveal_strlit("Maximize");
    reveal_strlit("Quarter Bottom-Left");
    reveal_strlit("Quarter Bottom-Right");
    reveal_strlit("Quarter Top-Left");
    reveal_strlit("Quarter Top-Right");
    reveal_strlit("R");
    reveal_strlit("Restore");
    reveal_strlit("Right");
    reveal_strlit("U");
    reveal_strlit("Up");
    if i == 0 {
        assert(binding_spec(i).hotkey_label.subrange(0, 9) =~= "Ctrl+Alt+"@);
        assert(binding_spec(i).hotkey_label.subrange(9, binding_spec(i).hotkey_label.len() as int) =~= "Left"@);
        assert(key_named("Left"@) == Some(0x25u32));
        assert(action_named("Halve Left"@) == Some(Action::Halve(Half::Left)));
    } else if i == 1 {
        assert(binding_spec(i).hotkey_label.subrange(0, 9) =~= "Ctrl+Alt+"@);
        assert(binding_spec(i).hotkey_label.subrange(9, binding_spec(i).hotkey_label.len() as int) =~= "Right"@);
        assert("Right"@ != "Left"@) by { assert("Right"@.len() != "Left"@.len() || "Right"@[0] != "Left"@[0]); }
        assert("Right"@ != "Up"@) by { assert("Right"@.len() != "Up"@.len() || "Right"@[0] != "Up"@[0]); }
        assert(key_named("Right"@) == Some(0x27u32));
        assert("Halve Right"@ != "Halve Left"@) by { assert("Halve Right"@.len() != "Halve Left"@.len()); }
        assert(action_named("Halve Right"@) == Some(Action::Halve(Half::Right)));
    } else if i == 2 {
        assert(binding_spec(i).hotkey_label.subrange(0, 9) =~= "Ctrl+Alt+"@);
        assert(binding_spec(i).hotkey_label.subrange(9, binding_spec(i).hotkey_label.len() as int) =~= "Up"@);
        assert("Up"@ != "Left"@) by { assert("Up"@.len() != "Left"@.len() || "Up"@[0] != "Left"@[0]); }
        assert(key_named("Up"@) == Some(0x26u32));
        assert("Halve Top"@ != "Halve Left"@) by { assert("Halve Top"@.len() != "Halve Left"@.len()); }
        assert("Halve Top"@ != "Halve Right"@) by { assert("Halve Top"@.len() != "Halve Right"@.len()); }
        assert(action_named("Halve Top"@) == Some(Action::Halve(Half::Top)));
    } else if i == 3 {
        assert(binding_spec(i).hotkey_label.subrange(0, 9) =~= "Ctrl+Alt+"@);
        assert(binding_spec(i).hotkey_label.subrange(9, binding_spec(i).hotkey_label.len() as int) =~= "Down"@);
        assert("Down"@ != "Left"@) by { assert("Down"@.len() != "Left"@.len() || "Down"@[0] != "Left"@[0]); }
        assert("Down"@ != "Up"@) by { assert("Down"@.len() != "Up"@.len() || "Down"@[0] != "Up"@[0]); }
        assert("Down"@ != "Right"@) by { assert("Down"@.len() != "Right"@.len() || "Down"@[0] != "Right"@[0]); }
        assert(key_named("Down"@) == Some(0x28u32));
        assert("Halve Bottom"@ != "Halve Left"@) by { assert("Halve Bottom"@.len() != "Halve Left"@.len()); }
        assert("Halve Bottom"@ != "Halve Right"@) by { assert("Halve Bottom"@.len() != "Halve Right"@.len()); }
        assert("Halve Bottom"@ != "Halve Top"@) by { assert("Halve Bottom"@.len() != "Halve Top"@.len()); }
        assert(action_named("Halve Bottom"@) == Some(Action::Halve(Half::Bottom)));
    } else if i == 4 {
        assert(binding_spec(i).hotkey_label.subrange(0, 9) =~= "Ctrl+Alt+"@);
        assert(binding_spec(i).hotkey_label.subrange(9, binding_spec(i).hotkey_label.len() as int) =~= "U"@);
        assert("U"@ != "Left"@) by { assert("U"@.len() != "Left"@.len() || "U"@[0] != "Left"@[0]); }
        assert("U"@ != "Up"@) by { assert("U"@.len() != "Up"@.len() || "U"@[0] != "Up"@[0]); }
        assert("U"@ != "Right"@) by { assert("U"@.len() != "Right"@.len() || "U"@[0] != "Right"@[0]); }
        assert("U"@ != "Down"@) by { assert("U"@.len() != "Down"@.len() || "U"@[0] != "Down"@[0]); }
        assert("U"@ != "Enter"@) by { assert("U"@.len() != "Enter"@.len() || "U"@[0] != "Enter"@[0]); }
        assert(key_named("U"@) == Some(0x55u32));
        assert("Quarter Top-Left"@ != "Halve Left"@) by { assert("Quarter Top-Left"@.len() != "Halve Left"@.len()); }
        assert("Quarter Top-Left"@ != "Halve Right"@) by { assert("Quarter Top-Left"@.len() != "Halve Right"@.len()); }
        assert("Quarter Top-Left"@ != "Halve Top"@) by { assert("Quarter Top-Left"@.len() != "Halve Top"@.len()); }
        assert("Quarter Top-Left"@ != "Halve Bottom"@) by { assert("Quarter Top-Left"@.len() != "Halve Bottom"@.len()); }
        assert(action_named("Quarter Top-Left"@) == Some(Action::Quarter(Corner::TopLeft)));
    } else if i == 5 {
        assert(binding_spec(i).hotkey_label.subrange(0, 9) =~= "Ctrl+Alt+"@);
        assert(binding_spec(i).hotkey_label.subrange(9, binding_spec(i).hotkey_label.len() as int) =~= "I"@);
        assert("I"@ != "Left"@) by { assert("I"@.len() != "Left"@.len() || "I"@[0] != "Left"@[0]); }
        assert("I"@ != "Up"@) by { assert("I"@.len() != "Up"@.len() || "I"@[0] != "Up"@[0]); }
        assert("I"@ != "Right"@) by { assert("I"@.len() != "Right"@.len() || "I"@[0] != "Right"@[0]); }
        assert("I"@ != "Down"@) by { assert("I"@.len() != "Down"@.len() || "I"@[0] != "Down"@[0]); }
        assert("I"@ != "Enter"@) by { assert("I"@.len() != "Enter"@.len() || "I"@[0] != "Enter"@[0]); }
        assert(key_named("I"@) == Some(0x49u32));
        assert("Quarter Top-Right"@ != "Halve Left"@) by { assert("Quarter Top-Right"@.len() != "Halve Left"@.len()); }
        assert("Quarter Top-Right"@ != "Halve Right"@) by { assert("Quarter Top-Right"@.len() != "Halve Right"@.len()); }
        assert("Quarter Top-Right"@ != "Halve Top"@) by { assert("Quarter Top-Right"@.len() != "Halve Top"@.len()); }
        assert("Quarter Top-Right"@ != "Halve Bottom"@) by { assert("Quarter Top-Right"@.len() != "Halve Bottom"@.len()); }
        assert("Quarter Top-Right"@ != "Quarter Top-Left"@) by { assert("Quarter Top-Right"@.len() != "Quarter Top-Left"@.len()); }
        assert(action_named("Quarter Top-Right"@) == Some(Action::Quarter(Corner::TopRight)));
    } else if i == 6 {
        assert(binding_spec(i).hotkey_label.subrange(0, 9) =~= "Ctrl+Alt+"@);
        assert(binding_spec(i).hotkey_label.subrange(9, binding_spec(i).hotkey_label.len() as int) =~= "J"@);
        assert("J"@ != "Left"@) by { assert("J"@.len() != "Left"@.len() || "J"@[0] != "Left"@[0]); }
        assert("J"@ != "Up"@) by { assert("J"@.len() != "Up"@.len() || "J"@[0] != "Up"@[0]); }
        assert("J"@ != "Right"@) by { assert("J"@.len() != "Right"@.len() || "J"@[0] != "Right"@[0]); }
        assert("J"@ != "Down"@) by { assert("J"@.len() != "Down"@.len() || "J"@[0] != "Down"@[0]); }
        assert("J"@ != "Enter"@) by { assert("J"@.len() != "Enter"@.len() || "J"@[0] != "Enter"@[0]); }
        assert(key_named("J"@) == Some(0x4Au32));
        assert("Quarter Bottom-Left"@ != "Halve Left"@) by { assert("Quarter Bottom-Left"@.len() != "Halve Left"@.len()); }
        assert("Quarter Bottom-Left"@ != "Halve Right"@) by { assert("Quarter Bottom-Left"@.len() != "Halve Right"@.len()); }
        assert("Quarter Bottom-Left"@ != "Halve Top"@) by { assert("Quarter Bottom-Left"@.len() != "Halve Top"@.len()); }
        assert("Quarter Bottom-Left"@ != "Halve Bottom"@) by { assert("Quarter Bottom-Left"@.len() != "Halve Bottom"@.len()); }
        assert("Quarter Bottom-Left"@ != "Quarter Top-Left"@) by { assert("Quarter Bottom-Left"@.len() != "Quarter Top-Left"@.len()); }
        assert("Quarter Bottom-Left"@ != "Quarter Top-Right"@) by { assert("Quarter Bottom-Left"@.len() != "Quarter Top-Right"@.len()); }
        assert(action_named("Quarter Bottom-Left"@) == Some(Action::Quarter(Corner::BottomLeft)));
    } else if i == 7 {
        assert(binding_spec(i).hotkey_label.subrange(0, 9) =~= "Ctrl+Alt+"@);
        assert(binding_spec(i).hotkey_label.subrange(9, binding_spec(i).hotkey_label.len() as int) =~= "K"@);
        assert("K"@ != "Left"@) by { assert("K"@.len() != "Left"@.len() || "K"@[0] != "Left"@[0]); }
        assert("K"@ != "Up"@) by { assert("K"@.len() != "Up"@.len() || "K"@[0] != "Up"@[0]); }
        assert("K"@ != "Right"@) by { assert("K"@.len() != "Right"@.len() || "K"@[0] != "Right"@[0]); }
        assert("K"@ != "Down"@) by { assert("K"@.len() != "Down"@.len() || "K"@[0] != "Down"@[0]); }
        assert("K"@ != "Enter"@) by { assert("K"@.len() != "Enter"@.len() || "K"@[0] != "Enter"@[0]); }
        assert(key_named("K"@) == Some(0x4Bu32));
        assert("Quarter Bottom-Right"@ != "Halve Left"@) by { assert("Quarter Bottom-Right"@.len() != "Halve Left"@.len()); }
        assert("Quarter Bottom-Right"@ != "Halve Right"@) by { assert("Quarter Bottom-Right"@.len() != "Halve Right"@.len()); }
        assert("Quarter Bottom-Right"@ != "Halve Top"@) by { assert("Quarter Bottom-Right"@.len() != "Halve Top"@.len()); }
        assert("Quarter Bottom-Right"@ != "Halve Bottom"@) by { assert("Quarter Bottom-Right"@.len() != "Halve Bottom"@.len()); }
        assert("Quarter Bottom-Right"@ != "Quarter Top-Left"@) by { assert("Quarter Bottom-Right"@.len() != "Quarter Top-Left"@.len()); }
        assert("Quarter Bottom-Right"@ != "Quarter Top-Right"@) by { assert("Quarter Bottom-Right"@.len() != "Quarter Top-Right"@.len()); }
        assert("Quarter Bottom-Right"@ != "Quarter Bottom-Left"@) by { assert("Quarter Bottom-Right"@.len() != "Quarter Bottom-Left"@.len()); }
        assert(action_named("Quarter Bottom-Right"@) == Some(Action::Quarter(Corner::BottomRight)));
    } else if i == 8 {
        assert(binding_spec(i).hotkey_label.subrange(0, 9) =~= "Ctrl+Alt+"@);
        assert(binding_spec(i).hotkey_label.subrange(9, binding_spec(i).hotkey_label.len() as int) =~= "Enter"@);
        assert("Enter"@ != "Left"@) by { assert("Enter"@.len() != "Left"@.len() || "Enter"@[0] != "Left"@[0]); }
        assert("Enter"@ != "Up"@) by { assert("Enter"@.len() != "Up"@.len() || "Enter"@[0] != "Up"@[0]); }
        assert("Enter"@ != "Right"@) by { assert("Enter"@.len() != "Right"@.len() || "Enter"@[0] != "Right"@[0]); }
        assert("Enter"@ != "Down"@) by { assert("Enter"@.len() != "Down"@.len() || "Enter"@[0] != "Down"@[0]); }
        assert(key_named("Enter"@) == Some(0x0Du32));
        assert("Maximize"@ != "Halve Left"@) by { assert("Maximize"@.len() != "Halve Left"@.len()); }
        assert("Maximize"@ != "Halve Right"@) by { assert("Maximize"@.len() != "Halve Right"@.len()); }
        assert("Maximize"@ != "Halve Top"@) by { assert("Maximize"@.len() != "Halve Top"@.len()); }
        assert("Maximize"@ != "Halve Bottom"@) by { assert("Maximize"@.len() != "Halve Bottom"@.len()); }
        assert("Maximize"@ != "Quarter Top-Left"@) by { assert("Maximize"@.len() != "Quarter Top-Left"@.len()); }
        assert("Maximize"@ != "Quarter Top-Right"@) by { assert("Maximize"@.len() != "Quarter Top-Right"@.len()); }
        assert("Maximize"@ != "Quarter Bottom-Left"@) by { assert("Maximize"@.len() != "Quarter Bottom-Left"@.len()); }
        assert("Maximize"@ != "Quarter Bottom-Right"@) by { assert("Maximize"@.len() != "Quarter Bottom-Right"@.len()); }
        assert(action_named("Maximize"@) == Some(Action::Maximize));
    } else if i == 9 {
        assert(binding_spec(i).hotkey_label.subrange(0, 9) =~= "Ctrl+Alt+"@);
        assert(binding_spec(i).hotkey_label.subrange(9, binding_spec(i).hotkey_label.len() as int) =~= "C"@);
        assert("C"@ != "Left"@) by { assert("C"@.len() != "Left"@.len() || "C"@[0] != "Left"@[0]); }
        assert("C"@ != "Up"@) by { assert("C"@.len() != "Up"@.len() || "C"@[0] != "Up"@[0]); }
        assert("C"@ != "Right"@) by { assert("C"@.len() != "Right"@.len() || "C"@[0] != "Right"@[0]); }
        assert("C"@ != "Down"@) by { assert("C"@.len() != "Down"@.len() || "C"@[0] != "Down"@[0]); }
        assert("C"@ != "Enter"@) by { assert("C"@.len() != "Enter"@.len() || "C"@[0] != "Enter"@[0]); }
        assert(key_named("C"@) == Some(0x43u32));
        assert("Center"@ != "Halve Left"@) by { assert("Center"@.len() != "Halve Left"@.len()); }
        assert("Center"@ != "Halve Right"@) by { assert("Center"@.len() != "Halve Right"@.len()); }
        assert("Center"@ != "Halve Top"@) by { assert("Center"@.len() != "Halve Top"@.len()); }
        assert("Center"@ != "Halve Bottom"@) by { assert("Center"@.len() != "Halve Bottom"@.len()); }
        assert("Center"@ != "Quarter Top-Left"@) by { assert("Center"@.len() != "Quarter Top-Left"@.len()); }
        assert("Center"@ != "Quarter Top-Right"@) by { assert("Center"@.len() != "Quarter Top-Right"@.len()); }
        assert("Center"@ != "Quarter Bottom-Left"@) by { assert("Center"@.len() != "Quarter Bottom-Left"@.len()); }
        assert("Center"@ != "Quarter Bottom-Right"@) by { assert("Center"@.len() != "Quarter Bottom-Right"@.len()); }
        assert("Center"@ != "Maximize"@) by { assert("Center"@.len() != "Maximize"@.len()); }
        assert(action_named("Center"@) == Some(Action::Center));
    } else if i == 10 {
        assert(binding_spec(i).hotkey_label.subrange(0, 9) =~= "Ctrl+Alt+"@);
        assert(binding_spec(i).hotkey_label.subrange(9, binding_spec(i).hotkey_label.len() as int) =~= "R"@);
        assert("R"@ != "Left"@) by { assert("R"@.len() != "Left"@.len() || "R"@[0] != "Left"@[0]); }
        assert("R"@ != "Up"@) by { assert("R"@.len() != "Up"@.len() || "R"@[0] != "Up"@[0]); }
        assert("R"@ != "Right"@) by { assert("R"@.len() != "Right"@.len() || "R"@[0] != "Right"@[0]); }
        assert("R"@ != "Down"@) by { assert("R"@.len() != "Down"@.len() || "R"@[0] != "Down"@[0]); }
        assert("R"@ != "Enter"@) by { assert("R"@.len() != "Enter"@.len() || "R"@[0] != "Enter"@[0]); }
        assert(key_named("R"@) == Some(0x52u32));
        assert("Restore"@ != "Halve Left"@) by { assert("Restore"@.len() != "Halve Left"@.len()); }
        assert("Restore"@ != "Halve Right"@) by { assert("Restore"@.len() != "Halve Right"@.len()); }
        assert("Restore"@ != "Halve Top"@) by { assert("Restore"@.len() != "Halve Top"@.len()); }
        assert("Restore"@ != "Halve Bottom"@) by { assert("Restore"@.len() != "Halve Bottom"@.len()); }
        assert("Restore"@ != "Quarter Top-Left"@) by { assert("Restore"@.len() != "Quarter Top-Left"@.len()); }
        assert("Restore"@ != "Quarter Top-Right"@) by { assert("Restore"@.len() != "Quarter Top-Right"@.len()); }
        assert("Restore"@ != "Quarter Bottom-Left"@) by { assert("Restore"@.len() != "Quarter Bottom-Left"@.len()); }
        assert("Restore"@ != "Quarter Bottom-Right"@) by { assert("Restore"@.len() != "Quarter Bottom-Right"@.len()); }
        assert("Restore"@ != "Maximize"@) by { assert("Restore"@.len() != "Maximize"@.len()); }
        assert("Restore"@ != "Center"@) by { assert("Restore"@.len() != "Center"@.len()); }
        assert(action_named("Restore"@) == Some(Action::RestoreOriginal));
    }
}

} // verus!
