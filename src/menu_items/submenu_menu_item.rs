use vstd::prelude::*;

use crate::keyboard::{FunctionKey, KeyboardKey};
use crate::menu_items::menu_item::{
    lemma_press_keeps_focusable, model_wf, submenu_pressed, submenu_wf, ItemModel, MenuItem,
    PressResult,
};
use crate::menu_items::menu_item_enum::{item_model, MenuItemEnum};

verus! {

/// The abstract state of a submenu: its items, the selected one, and
/// whether control has descended into the selected item.
pub struct SubmenuView {
    pub label: Seq<char>,
    pub items: Seq<ItemModel>,
    pub selected: int,
    pub focused: bool,
}

/// An item holding a nested list of items.
pub struct SubmenuMenuItem {
    label: String,
    items: Vec<MenuItemEnum>,
    selected_item_idx: usize,
    is_focused: bool,
}

/// The abstract state of a submenu item, each of its items given by its model.
pub closed spec fn submenu_view(s: SubmenuMenuItem) -> SubmenuView
    decreases s,
{
    SubmenuView {
        label: s.label@,
        items: Seq::new(
            s.items@.len(),
            |i: int|
                if 0 <= i < s.items@.len() {
                    item_model(s.items@[i])
                } else {
                    ItemModel::Basic(Seq::empty())
                },
        ),
        selected: s.selected_item_idx as int,
        focused: s.is_focused,
    }
}

impl View for SubmenuMenuItem {
    type V = SubmenuView;

    open spec fn view(&self) -> SubmenuView {
        submenu_view(*self)
    }
}

/// The model of each item is the model of the item at the same place.
proof fn lemma_view_items(s: SubmenuMenuItem)
    ensures
        s@.items.len() == s.items@.len(),
        forall|i: int| 0 <= i < s.items@.len() ==> s@.items[i] == item_model(#[trigger] s.items@[i]),
{
}

impl SubmenuMenuItem {
    /// Builds a submenu with its first item selected; fails on an empty list.
    pub fn new(label: String, items: Vec<MenuItemEnum>) -> (r: Result<SubmenuMenuItem, &'static str>)
        requires
            forall|i: int| 0 <= i < items@.len() ==> model_wf(item_model(#[trigger] items@[i])),
        ensures
            items@.len() == 0 ==> r == Err::<SubmenuMenuItem, &'static str>(
                "At least one item required",
            ),
            items@.len() > 0 ==> r is Ok && r->Ok_0@ == (SubmenuView {
                label: label@,
                items: items@.map_values(|e: MenuItemEnum| item_model(e)),
                selected: 0,
                focused: false,
            }),
            r is Ok ==> submenu_wf(r->Ok_0@),
    {
        if items.len() == 0 {
            Err("At least one item required")
        } else {
            let s = SubmenuMenuItem { label, items, selected_item_idx: 0, is_focused: false };
            proof {
                lemma_view_items(s);
                assert(s@.items =~= s.items@.map_values(|e: MenuItemEnum| item_model(e)));
            }
            Ok(s)
        }
    }

    /// The selected item.
    pub fn get_selected_item(&self) -> (r: &MenuItemEnum)
        requires
            submenu_wf(self@),
        ensures
            item_model(*r) == self@.items[self@.selected],
    {
        proof {
            lemma_view_items(*self);
        }
        &self.items[self.selected_item_idx]
    }

    /// The selected item, for changing it in place.
    pub fn get_mut_selected_item(&mut self) -> (r: &mut MenuItemEnum)
        requires
            submenu_wf(old(self)@),
        ensures
            item_model(*r) == old(self)@.items[old(self)@.selected],
            final(self)@ == (SubmenuView {
                items: old(self)@.items.update(old(self)@.selected, item_model(*final(r))),
                ..old(self)@
            }),
    {
        proof {
            lemma_view_items(*self);
        }
        let r = &mut self.items[self.selected_item_idx];
        proof {
            lemma_view_items(after_borrow(*self));
            assert(after_borrow(*self)@.items =~= old(self)@.items.update(
                old(self)@.selected,
                item_model(*final(r)),
            ));
        }
        r
    }

    /// Moves the selection one item up, unless an item holds the focus or
    /// the first item is selected; tells whether it moved.
    fn up(&mut self) -> (r: bool)
        requires
            submenu_wf(old(self)@),
        ensures
            r == (!old(self)@.focused && old(self)@.selected > 0),
            final(self)@ == (SubmenuView {
                selected: if r {
                    old(self)@.selected - 1
                } else {
                    old(self)@.selected
                },
                ..old(self)@
            }),
    {
        if self.is_focused {
            false
        } else if self.selected_item_idx > 0 {
            self.selected_item_idx = self.selected_item_idx - 1;
            true
        } else {
            false
        }
    }

    /// Moves the selection one item down, unless an item holds the focus or
    /// the last item is selected; tells whether it moved.
    pub fn down(&mut self) -> (r: bool)
        requires
            submenu_wf(old(self)@),
        ensures
            r == (!old(self)@.focused && old(self)@.selected + 1 < old(self)@.items.len()),
            final(self)@ == (SubmenuView {
                selected: if r {
                    old(self)@.selected + 1
                } else {
                    old(self)@.selected
                },
                ..old(self)@
            }),
    {
        proof {
            lemma_view_items(*self);
            assert(self.selected_item_idx < self.items.len());
        }
        if self.is_focused {
            false
        } else if self.selected_item_idx + 1 < self.items.len() {
            self.selected_item_idx = self.selected_item_idx + 1;
            true
        } else {
            false
        }
    }

    /// Whether control has descended into the selected item.
    pub fn is_focused(&self) -> (r: bool)
        ensures
            r == self@.focused,
    {
        self.is_focused
    }

    pub fn get_selected_item_idx(&self) -> (r: usize)
        ensures
            r == self@.selected,
    {
        self.selected_item_idx
    }

    /// The item at `idx`, if there is one.
    pub fn get_item(&self, idx: usize) -> (r: Option<&MenuItemEnum>)
        ensures
            idx < self@.items.len() ==> r is Some && item_model(*r->0) == self@.items[idx as int],
            idx >= self@.items.len() ==> r is None,
    {
        proof {
            lemma_view_items(*self);
        }
        if idx < self.items.len() {
            Some(&self.items[idx])
        } else {
            None
        }
    }

    pub fn item_count(&self) -> (r: usize)
        ensures
            r == self@.items.len(),
    {
        proof {
            lemma_view_items(*self);
        }
        self.items.len()
    }

    /// Handles one key as `submenu_pressed` describes.
    pub(crate) fn press_submenu(&mut self, key: &KeyboardKey, is_focused: bool) -> (r: PressResult)
        requires
            submenu_wf(old(self)@),
        ensures
            submenu_wf(final(self)@),
            (final(self)@, r) == submenu_pressed(old(self)@, key.function_key, is_focused),
        decreases *old(self),
    {
        proof {
            lemma_view_items(*self);
        }
        if !is_focused {
            if key.function_key == Some(FunctionKey::ENTER) {
                PressResult { handled: true, focus: true }
            } else {
                PressResult { handled: false, focus: false }
            }
        } else {
            let focused = self.is_focused;
            let idx = self.selected_item_idx;
            let ghost s0 = self@;
            let item_press_result = self.items[idx].press_item(key, focused);
            proof {
                lemma_view_items(*self);
                assert(self@.items =~= s0.items.update(idx as int, self@.items[idx as int]));
                lemma_press_keeps_focusable(s0.items[idx as int], key.function_key, focused);
            }
            if item_press_result.handled {
                self.is_focused = item_press_result.focus;
                PressResult { handled: true, focus: true }
            } else if key.function_key == Some(FunctionKey::BACK) {
                PressResult { handled: true, focus: false }
            } else if key.function_key == Some(FunctionKey::UP) {
                let handled = self.up();
                PressResult { handled, focus: true }
            } else if key.function_key == Some(FunctionKey::DOWN) {
                let handled = self.down();
                PressResult { handled, focus: true }
            } else {
                PressResult { handled: false, focus: true }
            }
        }
    }
}

impl MenuItem for SubmenuMenuItem {
    open spec fn model(&self) -> ItemModel {
        ItemModel::Submenu(self@)
    }

    fn get_label(&self, is_focused: bool) -> (r: String) {
        self.label.clone()
    }

    fn press(&mut self, key: &KeyboardKey, is_focused: bool) -> (r: PressResult) {
        self.press_submenu(key, is_focused)
    }

    fn is_focusable(&self) -> (r: bool) {
        true
    }
}

} // verus!
