use vstd::prelude::*;

use crate::keyboard::KeyboardKey;
use crate::menu_items::action_menu_item::ActionMenuItem;
use crate::menu_items::basic_menu_item::BasicMenuItem;
use crate::menu_items::list_menu_item::ListMenuItem;
use crate::menu_items::menu_item::{model_press, model_wf, ItemModel, MenuItem, PressResult};
use crate::menu_items::range_menu_item::RangeMenuItem;
use crate::menu_items::submenu_menu_item::{submenu_view, SubmenuMenuItem};
use crate::menu_items::toggle_menu_item::ToggleMenuItem;

verus! {

/// Any item of a menu tree.
pub enum MenuItemEnum {
    ActionMenuItem(ActionMenuItem),
    BasicMenuItem(BasicMenuItem),
    ListMenuItem(ListMenuItem),
    RangeMenuItem(RangeMenuItem),
    ToggleMenuItem(ToggleMenuItem),
    SubmenuMenuItem(SubmenuMenuItem),
}

/// The abstract state of an item.
pub open spec fn item_model(e: MenuItemEnum) -> ItemModel
    decreases e,
{
    match e {
        MenuItemEnum::ActionMenuItem(a) => ItemModel::Action(a@),
        MenuItemEnum::BasicMenuItem(b) => ItemModel::Basic(b@),
        MenuItemEnum::ListMenuItem(l) => ItemModel::List(l@),
        MenuItemEnum::RangeMenuItem(r) => ItemModel::Range(r@),
        MenuItemEnum::ToggleMenuItem(t) => ItemModel::Toggle(t@),
        MenuItemEnum::SubmenuMenuItem(s) => ItemModel::Submenu(submenu_view(s)),
    }
}

impl MenuItemEnum {
    /// Handles one key on whichever kind of item this is.
    pub(crate) fn press_item(&mut self, key: &KeyboardKey, is_focused: bool) -> (r: PressResult)
        requires
            model_wf(item_model(*old(self))),
        ensures
            model_wf(item_model(*final(self))),
            (item_model(*final(self)), r) == model_press(item_model(*old(self)), key.function_key, is_focused),
        decreases *old(self),
    {
        let r = match self {
            MenuItemEnum::ActionMenuItem(a) => a.press(key, is_focused),
            MenuItemEnum::BasicMenuItem(b) => b.press(key, is_focused),
            MenuItemEnum::ListMenuItem(l) => l.press(key, is_focused),
            MenuItemEnum::RangeMenuItem(r) => r.press(key, is_focused),
            MenuItemEnum::ToggleMenuItem(t) => t.press(key, is_focused),
            MenuItemEnum::SubmenuMenuItem(s) => s.press_submenu(key, is_focused),
        };
        r
    }
}

impl MenuItem for MenuItemEnum {
    open spec fn model(&self) -> ItemModel {
        item_model(*self)
    }

    fn get_label(&self, is_focused: bool) -> (r: String) {
        match self {
            MenuItemEnum::ActionMenuItem(a) => a.get_label(is_focused),
            MenuItemEnum::BasicMenuItem(b) => b.get_label(is_focused),
            MenuItemEnum::ListMenuItem(l) => l.get_label(is_focused),
            MenuItemEnum::RangeMenuItem(r) => r.get_label(is_focused),
            MenuItemEnum::ToggleMenuItem(t) => t.get_label(is_focused),
            MenuItemEnum::SubmenuMenuItem(s) => s.get_label(is_focused),
        }
    }

    fn press(&mut self, key: &KeyboardKey, is_focused: bool) -> (r: PressResult) {
        self.press_item(key, is_focused)
    }

    fn is_focusable(&self) -> (r: bool) {
        match self {
            MenuItemEnum::ActionMenuItem(a) => a.is_focusable(),
            MenuItemEnum::BasicMenuItem(b) => b.is_focusable(),
            MenuItemEnum::ListMenuItem(l) => l.is_focusable(),
            MenuItemEnum::RangeMenuItem(r) => r.is_focusable(),
            MenuItemEnum::ToggleMenuItem(t) => t.is_focusable(),
            MenuItemEnum::SubmenuMenuItem(s) => s.is_focusable(),
        }
    }
}

} // verus!
