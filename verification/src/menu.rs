//! Layout of the tray menu: one item per binding, separators between the
//! groups of bindings, then Quit.
use vstd::prelude::*;
use vstd::string::StrSliceExecFns;
use vstd::string::StringExecFns;
use crate::bindings::Binding;

verus! {

/// Column width that menu labels are padded to before the hotkey text.
pub const LABEL_WIDTH: usize = 22;

/// One line of the tray menu.
#[derive(Debug, Clone, Copy, PartialEq, Eq, Structural)]
pub enum MenuEntry {
    /// The item for the binding with this index.
    Item(usize),
    Separator,
    Quit,
}

/// The group a menu label belongs to, by its first word.
pub open spec fn group_name(label: Seq<char>) -> Seq<char> {
    if "Halve"@.is_prefix_of(label) {
        "halve"@
    } else if "Quarter"@.is_prefix_of(label) {
        "quarter"@
    } else {
        "misc"@
    }
}

fn has_prefix(s: &str, prefix: &str) -> (r: bool)
    ensures
        r == prefix@.is_prefix_of(s@),
{
    let n = prefix.unicode_len();
    let m = s.unicode_len();
    if n > m {
        return false;
    }
    let mut i: usize = 0;
    while i < n
        invariant
            n == prefix@.len(),
            m == s@.len(),
            n <= m,
            i <= n,
            forall|j: int| 0 <= j < i ==> prefix@[j] == s@[j],
        decreases n - i,
    {
        if prefix.get_char(i) != s.get_char(i) {
            return false;
        }
        i = i + 1;
    }
    true
}

fn same_text(a: &str, b: &str) -> (r: bool)
    ensures
        r == (a@ == b@),
{
    let n = a.unicode_len();
    if n != b.unicode_len() {
        return false;
    }
    let same = has_prefix(a, b);
    proof {
        if same {
            assert(a@ =~= b@);
        }
    }
    same
}

pub fn group_of(label: &str) -> (r: &'static str)
    ensures
        r@ == group_name(label@),
{
    if has_prefix(label, "Halve") {
        "halve"
    } else if has_prefix(label, "Quarter") {
        "quarter"
    } else {
        "misc"
    }
}

/// The entries for the first `n` bindings: each binding's item, preceded by
/// a separator where its group differs from the previous binding's.
pub open spec fn layout_items(bindings: Seq<Binding>, n: nat) -> Seq<MenuEntry>
    decreases n,
{
    if n == 0 {
        seq![]
    } else {
        let before = layout_items(bindings, (n - 1) as nat);
        let starts_group = n >= 2 && group_name(bindings[n - 1].menu_label@) != group_name(
            bindings[n - 2].menu_label@,
        );
        let with_separator = if starts_group {
            before.push(MenuEntry::Separator)
        } else {
            before
        };
        with_separator.push(MenuEntry::Item((n - 1) as usize))
    }
}

/// The whole menu: the binding items, a separator, and Quit.
pub open spec fn menu_layout(bindings: Seq<Binding>) -> Seq<MenuEntry> {
    layout_items(bindings, bindings.len()) + seq![MenuEntry::Separator, MenuEntry::Quit]
}

/// The tray menu's lines for `bindings`, in order.
pub fn tray_menu_layout(bindings: &Vec<Binding>) -> (r: Vec<MenuEntry>)
    ensures
        r@ == menu_layout(bindings@),
{
    let mut entries: Vec<MenuEntry> = Vec::new();
    let mut last_kind: Option<&'static str> = None;
    let mut i: usize = 0;
    while i < bindings.len()
        invariant
            i <= bindings.len(),
            entries@ == layout_items(bindings@, i as nat),
            i == 0 ==> last_kind is None,
            i > 0 ==> (last_kind matches Some(k) && k@ == group_name(
                bindings@[i - 1].menu_label@,
            )),
        decreases bindings.len() - i,
    {
        let kind = group_of(bindings[i].menu_label);
        match last_kind {
            Some(k) => {
                if !same_text(k, kind) {
                    entries.push(MenuEntry::Separator);
                }
            },
            None => {},
        }
        last_kind = Some(kind);
        entries.push(MenuEntry::Item(i));
        i = i + 1;
    }
    entries.push(MenuEntry::Separator);
    entries.push(MenuEntry::Quit);
    entries
}

/// `s` padded with spaces on the right to at least `width` characters.
pub open spec fn pad_right(s: Seq<char>, width: nat) -> Seq<char> {
    if s.len() >= width {
        s
    } else {
        s + Seq::new((width - s.len()) as nat, |_i: int| ' ')
    }
}

/// The text of a binding's menu item: its label, padded to the label column,
/// a space, and its hotkey.
pub fn menu_item_label(menu_label: &str, hotkey_label: &str) -> (r: String)
    ensures
        r@ == pad_right(menu_label@, LABEL_WIDTH as nat) + seq![' '] + hotkey_label@,
{
    proof {
        reveal_strlit(" ");
    }
    let mut text = String::from_str(menu_label);
    let n = menu_label.unicode_len();
    let mut k = n;
    while k < LABEL_WIDTH
        invariant
            n == menu_label@.len(),
            n <= k,
            k <= LABEL_WIDTH || k == n,
            text@ == menu_label@ + Seq::new((k - n) as nat, |_i: int| ' '),
            " "@ == seq![' '],
        decreases LABEL_WIDTH - k,
    {
        text.append(" ");
        k = k + 1;
        assert(text@ =~= menu_label@ + Seq::new((k - n) as nat, |_i: int| ' '));
    }
    assert(text@ =~= pad_right(menu_label@, LABEL_WIDTH as nat));
    text.append(" ");
    text.append(hotkey_label);
    text
}

/// The menu lists every binding, each under its own index, and ends with a
/// separator and Quit.
pub proof fn lemma_menu_lists_every_binding(bindings: Seq<Binding>)
    requires
        bindings.len() <= usize::MAX,
    ensures
        forall|i: int|
            0 <= i < bindings.len() ==> #[trigger] menu_layout(bindings).contains(
                MenuEntry::Item(i as usize),
            ),
        menu_layout(bindings).last() == MenuEntry::Quit,
{
    lemma_items_listed(bindings, bindings.len());
    let items = layout_items(bindings, bindings.len());
    assert forall|i: int| 0 <= i < bindings.len() implies #[trigger] menu_layout(bindings).contains(
        MenuEntry::Item(i as usize),
    ) by {
        assert(items.contains(MenuEntry::Item(i as usize)));
        let k = choose|k: int| 0 <= k < items.len() && items[k] == MenuEntry::Item(i as usize);
        assert(menu_layout(bindings)[k] == MenuEntry::Item(i as usize));
    }
}

proof fn lemma_items_listed(bindings: Seq<Binding>, n: nat)
    requires
        n <= bindings.len(),
        bindings.len() <= usize::MAX,
    ensures
        forall|i: int| 0 <= i < n ==> #[trigger] layout_items(bindings, n).contains(MenuEntry::Item(i as usize)),
    decreases n,
{
    if n > 0 {
        lemma_items_listed(bindings, (n - 1) as nat);
        let before = layout_items(bindings, (n - 1) as nat);
        let all = layout_items(bindings, n);
        assert forall|i: int| 0 <= i < n implies #[trigger] all.contains(MenuEntry::Item(i as usize)) by {
            if i < n - 1 {
                assert(before.contains(MenuEntry::Item(i as usize)));
                let k = choose|k: int| 0 <= k < before.len() && before[k] == MenuEntry::Item(i as usize);
                assert(all[k] == MenuEntry::Item(i as usize));
            } else {
                assert(all[all.len() - 1] == MenuEntry::Item(i as usize));
            }
        }
    }
}

/// Bindings `i` and `j` belong to the same menu group.
pub open spec fn same_group(bindings: Seq<Binding>, i: int, j: int) -> bool {
    group_name(bindings[i].menu_label@) == group_name(bindings[j].menu_label@)
}

/// The shape of the binding part of the menu: it starts with the first
/// binding and ends with the last; every entry is a binding's item or a
/// separator; each item follows the previous binding's item directly when
/// the two are in the same group, and with one separator between them when
/// they are not; and a separator is always followed by an item.
pub open spec fn grouped_shape(bindings: Seq<Binding>, n: nat, entries: Seq<MenuEntry>) -> bool {
    &&& n > 0 ==> entries.len() > 0 && entries[0] == MenuEntry::Item(0) && entries.last()
        == MenuEntry::Item((n - 1) as usize)
    &&& n == 0 ==> entries.len() == 0
    &&& forall|k: int|
        0 <= k < entries.len() ==> match #[trigger] entries[k] {
            MenuEntry::Item(j) => {
                &&& j < n
                &&& k == 0 <==> j == 0
                &&& j > 0 ==> {
                    ||| entries[k - 1] == MenuEntry::Item((j - 1) as usize) && same_group(
                        bindings,
                        j - 1,
                        j as int,
                    )
                    ||| k >= 2 && entries[k - 1] == MenuEntry::Separator && entries[k - 2]
                        == MenuEntry::Item((j - 1) as usize) && !same_group(
                        bindings,
                        j - 1,
                        j as int,
                    )
                }
            },
            MenuEntry::Separator => k + 1 < entries.len() && entries[k + 1] is Item,
            MenuEntry::Quit => false,
        }
}

/// The menu separates the groups of bindings and nothing else: the binding
/// part has the grouped shape, and a separator and Quit close the menu.
pub proof fn lemma_menu_separates_groups(bindings: Seq<Binding>)
    requires
        bindings.len() <= usize::MAX,
    ensures
        grouped_shape(bindings, bindings.len(), layout_items(bindings, bindings.len())),
        menu_layout(bindings) == layout_items(bindings, bindings.len()) + seq![
            MenuEntry::Separator,
            MenuEntry::Quit,
        ],
{
    lemma_layout_shape(bindings, bindings.len());
}

proof fn lemma_layout_shape(bindings: Seq<Binding>, n: nat)
    requires
        n <= bindings.len(),
        bindings.len() <= usize::MAX,
    ensures
        grouped_shape(bindings, n, layout_items(bindings, n)),
    decreases n,
{
    if n > 0 {
        lemma_layout_shape(bindings, (n - 1) as nat);
        let before = layout_items(bindings, (n - 1) as nat);
        let all = layout_items(bindings, n);
        let m = before.len() as int;
        let sep = n >= 2 && group_name(bindings[n - 1].menu_label@) != group_name(
            bindings[n - 2].menu_label@,
        );
        assert(forall|k: int| 0 <= k < m ==> all[k] == before[k]);
        assert forall|k: int| 0 <= k < all.len() implies match #[trigger] all[k] {
            MenuEntry::Item(j) => {
                &&& j < n
                &&& k == 0 <==> j == 0
                &&& j > 0 ==> {
                    ||| all[k - 1] == MenuEntry::Item((j - 1) as usize) && same_group(
                        bindings,
                        j - 1,
                        j as int,
                    )
                    ||| k >= 2 && all[k - 1] == MenuEntry::Separator && all[k - 2]
                        == MenuEntry::Item((j - 1) as usize) && !same_group(
                        bindings,
                        j - 1,
                        j as int,
                    )
                }
            },
            MenuEntry::Separator => k + 1 < all.len() && all[k + 1] is Item,
            MenuEntry::Quit => false,
        } by {
            if k < m {
                assert(all[k] == before[k]);
                match before[k] {
                    MenuEntry::Item(j) => {
                        if k > 0 {
                            assert(all[k - 1] == before[k - 1]);
                        }
                        if k >= 2 {
                            assert(all[k - 2] == before[k - 2]);
                        }
                    },
                    MenuEntry::Separator => {
                        if k + 1 < m {
                            assert(all[k + 1] == before[k + 1]);
                        }
                    },
                    MenuEntry::Quit => {},
                }
            } else if n >= 2 {
                assert(before.last() == MenuEntry::Item((n - 2) as usize));
                assert(before[m - 1] == MenuEntry::Item((n - 2) as usize));
                assert(all[m - 1] == MenuEntry::Item((n - 2) as usize));
            }
        }
        if n >= 2 {
            assert(before[0] == MenuEntry::Item(0));
            assert(all[0] == MenuEntry::Item(0));
        }
    }
}

} // verus!
