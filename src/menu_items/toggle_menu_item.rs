use vstd::prelude::*;

use crate::keyboard::{FunctionKey, KeyboardKey};
use crate::menu_items::menu_item::{unhandled, ItemModel, MenuItem, PressResult};

verus! {

/// The abstract state of a toggle item.
pub struct ToggleView {
    pub label: Seq<char>,
    pub value: bool,
}

impl ToggleView {
    pub open spec fn label_text(self) -> Seq<char> {
        self.label + if self.value {
            seq![':', ' ', 'O', 'N']
        } else {
            seq![':', ' ', 'O', 'F', 'F']
        }
    }

    /// ENTER flips the value at once; the item never takes the focus.
    pub open spec fn pressed(self, key: Option<FunctionKey>) -> (ToggleView, PressResult) {
        if key == Some(FunctionKey::ENTER) {
            (ToggleView { value: !self.value, ..self }, PressResult { handled: true, focus: false })
        } else {
            (self, unhandled(false))
        }
    }
}

/// An item holding an on/off value that ENTER flips.
pub struct ToggleMenuItem {
    label: String,
    value: bool,
}

impl View for ToggleMenuItem {
    type V = ToggleView;

    closed spec fn view(&self) -> ToggleView {
        ToggleView { label: self.label@, value: self.value }
    }
}

impl ToggleMenuItem {
    /// Builds a toggle that starts off.
    pub fn new(label: String) -> (r: ToggleMenuItem)
        ensures
            r@ == (ToggleView { label: label@, value: false }),
    {
        ToggleMenuItem { label, value: false }
    }

    pub fn get_value(&self) -> (r: bool)
        ensures
            r == self@.value,
    {
        self.value
    }

    fn enter(&mut self, is_focused: bool) -> (r: bool)
        ensures
            final(self)@ == (ToggleView { value: !old(self)@.value, ..old(self)@ }),
            r,
    {
        self.value = !self.value;
        true
    }
}

impl MenuItem for ToggleMenuItem {
    open spec fn model(&self) -> ItemModel {
        ItemModel::Toggle(self@)
    }

    fn get_label(&self, is_focused: bool) -> (r: String) {
        let mut label_str = self.label.clone();
        proof {
            reveal_strlit(": ON");
            reveal_strlit(": OFF");
        }
        if self.value {
            label_str.append(": ON");
        } else {
            label_str.append(": OFF");
        }
        label_str
    }

    fn press(&mut self, key: &KeyboardKey, is_focused: bool) -> (r: PressResult) {
        let handled = if key.function_key == Some(FunctionKey::ENTER) {
            self.enter(is_focused)
        } else {
            false
        };
        PressResult { handled, focus: false }
    }

    fn is_focusable(&self) -> (r: bool) {
        false
    }
}

} // verus!
