use vstd::prelude::*;

use crate::keyboard::{FunctionKey, KeyboardKey};
use crate::menu_items::menu_item::{unhandled, ItemModel, MenuItem, PressResult};

verus! {

/// The abstract state of an action item: its label and how many times it
/// has been activated.
pub struct ActionView {
    pub label: Seq<char>,
    pub activations: nat,
}

impl ActionView {
    /// ENTER records one activation (the count stops at `u64::MAX`); the
    /// item never takes the focus.
    pub open spec fn pressed(self, key: Option<FunctionKey>) -> (ActionView, PressResult) {
        if key == Some(FunctionKey::ENTER) {
            (
                ActionView {
                    activations: if self.activations < u64::MAX {
                        self.activations + 1
                    } else {
                        self.activations
                    },
                    ..self
                },
                PressResult { handled: true, focus: false },
            )
        } else {
            (self, unhandled(false))
        }
    }
}

/// An item that fires on ENTER. Each activation is counted, so that the
/// host reacts to it with whatever the item stands for.
pub struct ActionMenuItem {
    label: String,
    activations: u64,
}

impl View for ActionMenuItem {
    type V = ActionView;

    closed spec fn view(&self) -> ActionView {
        ActionView { label: self.label@, activations: self.activations as nat }
    }
}

impl ActionMenuItem {
    /// Builds an action item that has not fired yet.
    pub fn new(label: String) -> (r: ActionMenuItem)
        ensures
            r@ == (ActionView { label: label@, activations: 0 }),
    {
        ActionMenuItem { label, activations: 0 }
    }

    /// How many times the item has been activated.
    pub fn activation_count(&self) -> (r: u64)
        ensures
            r == self@.activations,
    {
        self.activations
    }
}

impl MenuItem for ActionMenuItem {
    open spec fn model(&self) -> ItemModel {
        ItemModel::Action(self@)
    }

    fn get_label(&self, is_focused: bool) -> (r: String) {
        self.label.clone()
    }

    fn press(&mut self, key: &KeyboardKey, is_focused: bool) -> (r: PressResult) {
        let handled = if key.function_key == Some(FunctionKey::ENTER) {
            if self.activations < u64::MAX {
                self.activations = self.activations + 1;
            }
            true
        } else {
            false
        };
        PressResult { handled, focus: false }
    }

    fn is_focusable(&self) -> (r: bool) {
        false
    }
}

} // verus!
