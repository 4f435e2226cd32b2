use vstd::prelude::*;

use crate::keyboard::KeyboardKey;
use crate::menu_items::menu_item::{ItemModel, MenuItem, PressResult};

verus! {

/// An inert item that only shows its label.
pub struct BasicMenuItem {
    label: String,
}

impl View for BasicMenuItem {
    type V = Seq<char>;

    closed spec fn view(&self) -> Seq<char> {
        self.label@
    }
}

impl BasicMenuItem {
    pub fn new(label: String) -> (r: BasicMenuItem)
        ensures
            r@ == label@,
    {
        BasicMenuItem { label }
    }
}

impl MenuItem for BasicMenuItem {
    open spec fn model(&self) -> ItemModel {
        ItemModel::Basic(self@)
    }

    fn get_label(&self, is_focused: bool) -> (r: String) {
        self.label.clone()
    }

    fn press(&mut self, key: &KeyboardKey, is_focused: bool) -> (r: PressResult) {
        PressResult { handled: false, focus: false }
    }

    fn is_focusable(&self) -> (r: bool) {
        false
    }
}

} // verus!
