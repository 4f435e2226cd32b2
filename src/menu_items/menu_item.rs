use vstd::prelude::*;

use crate::keyboard::{FunctionKey, KeyboardKey};
use crate::menu_items::action_menu_item::ActionView;
use crate::menu_items::list_menu_item::ListView;
use crate::menu_items::range_menu_item::RangeView;
use crate::menu_items::submenu_menu_item::SubmenuView;
use crate::menu_items::toggle_menu_item::ToggleView;

verus! {

/// What an item reports after handling a key: whether it consumed the key,
/// and whether it wants to hold the focus afterwards.
#[derive(PartialEq, Eq, Structural, Clone, Copy, Debug)]
pub struct PressResult {
    pub handled: bool,
    pub focus: bool,
}

/// The abstract state of any item of a menu tree.
pub enum ItemModel {
    Action(ActionView),
    Basic(Seq<char>),
    List(ListView),
    Range(RangeView),
    Toggle(ToggleView),
    Submenu(SubmenuView),
}

/// The result that says the key had nothing to do with the item.
pub open spec fn unhandled(focus: bool) -> PressResult {
    PressResult { handled: false, focus }
}

/// The position after `i` in a cycle of `n` positions.
pub open spec fn cycle_next(i: int, n: int) -> int {
    if i + 1 >= n {
        0
    } else {
        i + 1
    }
}

/// The position before `i` in a cycle of `n` positions.
pub open spec fn cycle_prev(i: int, n: int) -> int {
    if i <= 0 {
        n - 1
    } else {
        i - 1
    }
}

/// Whether a model satisfies the invariants of its kind.
pub open spec fn model_wf(m: ItemModel) -> bool
    decreases m,
{
    match m {
        ItemModel::Action(_) => true,
        ItemModel::Basic(_) => true,
        ItemModel::List(l) => l.wf(),
        ItemModel::Range(r) => r.wf(),
        ItemModel::Toggle(_) => true,
        ItemModel::Submenu(s) => submenu_wf(s),
    }
}

/// The text an item shows; `is_focused` selects the value being edited.
pub open spec fn model_label(m: ItemModel, is_focused: bool) -> Seq<char> {
    match m {
        ItemModel::Action(a) => a.label,
        ItemModel::Basic(label) => label,
        ItemModel::List(l) => l.label_text(is_focused),
        ItemModel::Range(r) => r.label_text(is_focused),
        ItemModel::Toggle(t) => t.label_text(),
        ItemModel::Submenu(s) => s.label,
    }
}

/// Whether the item can take the focus.
pub open spec fn model_focusable(m: ItemModel) -> bool {
    match m {
        ItemModel::Action(_) => false,
        ItemModel::Basic(_) => false,
        ItemModel::List(_) => true,
        ItemModel::Range(_) => true,
        ItemModel::Toggle(_) => false,
        ItemModel::Submenu(_) => true,
    }
}

/// The state after a key press and the result reported for it.
pub open spec fn model_press(m: ItemModel, key: Option<FunctionKey>, is_focused: bool) -> (
    ItemModel,
    PressResult,
)
    decreases m,
{
    match m {
        ItemModel::Action(a) => (ItemModel::Action(a.pressed(key).0), a.pressed(key).1),
        ItemModel::Basic(_) => (m, unhandled(false)),
        ItemModel::List(l) => {
            let (l2, r) = l.pressed(key, is_focused);
            (ItemModel::List(l2), r)
        },
        ItemModel::Range(v) => {
            let (v2, r) = v.pressed(key, is_focused);
            (ItemModel::Range(v2), r)
        },
        ItemModel::Toggle(t) => (ItemModel::Toggle(t.pressed(key).0), t.pressed(key).1),
        ItemModel::Submenu(s) => {
            let (s2, r) = submenu_pressed(s, key, is_focused);
            (ItemModel::Submenu(s2), r)
        },
    }
}

/// The invariants of a submenu: at least one item, a selection among them,
/// the focus only ever on an item that can take it, and every item well
/// formed.
pub open spec fn submenu_wf(s: SubmenuView) -> bool
    decreases s,
{
    &&& 0 < s.items.len()
    &&& 0 <= s.selected < s.items.len()
    &&& s.focused ==> model_focusable(s.items[s.selected])
    &&& forall|i: int| 0 <= i < s.items.len() ==> model_wf(#[trigger] s.items[i])
}

/// A key press on a submenu. Unless its parent has descended into it, the
/// submenu only answers ENTER, by asking for the focus. Once descended into,
/// it hands the key to its selected item first, adopting the focus the item
/// asks for when the item handles the key; otherwise BACK asks to leave, and
/// UP and DOWN move the selection while no item holds the focus.
pub open spec fn submenu_pressed(s: SubmenuView, key: Option<FunctionKey>, is_focused: bool) -> (
    SubmenuView,
    PressResult,
)
    decreases s,
{
    if !is_focused {
        if key == Some(FunctionKey::ENTER) {
            (s, PressResult { handled: true, focus: true })
        } else {
            (s, unhandled(false))
        }
    } else if 0 <= s.selected < s.items.len() {
        let (child, cr) = model_press(s.items[s.selected], key, s.focused);
        let s1 = SubmenuView { items: s.items.update(s.selected, child), ..s };
        if cr.handled {
            (SubmenuView { focused: cr.focus, ..s1 }, PressResult { handled: true, focus: true })
        } else if key == Some(FunctionKey::BACK) {
            (s1, PressResult { handled: true, focus: false })
        } else if key == Some(FunctionKey::UP) && !s.focused && s.selected > 0 {
            (SubmenuView { selected: s.selected - 1, ..s1 }, PressResult { handled: true, focus: true })
        } else if key == Some(FunctionKey::DOWN) && !s.focused && s.selected + 1 < s.items.len() {
            (SubmenuView { selected: s.selected + 1, ..s1 }, PressResult { handled: true, focus: true })
        } else {
            (s1, unhandled(true))
        }
    } else {
        (s, unhandled(true))
    }
}

/// The capabilities every menu item offers.
pub trait MenuItem: Sized {
    /// The abstract state of the item.
    spec fn model(&self) -> ItemModel;

    /// The text shown for the item.
    fn get_label(&self, is_focused: bool) -> (r: String)
        requires
            model_wf(self.model()),
        ensures
            r@ == model_label(self.model(), is_focused),
    ;

    /// Handles one key; `is_focused` tells whether the item holds the focus.
    fn press(&mut self, key: &KeyboardKey, is_focused: bool) -> (r: PressResult)
        requires
            model_wf(old(self).model()),
        ensures
            model_wf(final(self).model()),
            (final(self).model(), r) == model_press(old(self).model(), key.function_key, is_focused),
    ;

    /// Whether the item can take the focus.
    fn is_focusable(&self) -> (r: bool)
        ensures
            r == model_focusable(self.model()),
    ;
}

/// A key press never changes whether an item can take the focus, and only
/// an item that can take it asks for it.
pub proof fn lemma_press_keeps_focusable(m: ItemModel, key: Option<FunctionKey>, is_focused: bool)
    ensures
        model_focusable(model_press(m, key, is_focused).0) == model_focusable(m),
        model_press(m, key, is_focused).1.focus ==> model_focusable(m),
{
}

/// Stepping forward in a cycle adds one, modulo its length.
pub proof fn lemma_cycle_next(i: int, n: int)
    requires
        0 <= i < n,
    ensures
        cycle_next(i, n) == (i + 1) % n,
{
    if i + 1 < n {
        vstd::arithmetic::div_mod::lemma_small_mod((i + 1) as nat, n as nat);
    } else {
        vstd::arithmetic::div_mod::lemma_mod_self_0(n);
    }
}

/// Stepping backward in a cycle subtracts one, modulo its length.
pub proof fn lemma_cycle_prev(i: int, n: int)
    requires
        0 <= i < n,
    ensures
        cycle_prev(i, n) == (i - 1) % n,
{
    if i > 0 {
        vstd::arithmetic::div_mod::lemma_small_mod((i - 1) as nat, n as nat);
    } else {
        vstd::arithmetic::div_mod::lemma_mod_add_multiples_vanish(-1, n);
        vstd::arithmetic::div_mod::lemma_small_mod((n - 1) as nat, n as nat);
    }
}

} // verus!
