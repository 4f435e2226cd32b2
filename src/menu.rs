use vstd::prelude::*;

use crate::keyboard::{FunctionKey, KeyboardKey};
use crate::menu_items::menu_item::{model_wf, submenu_pressed, submenu_wf};
use crate::menu_items::menu_item_enum::{item_model, MenuItemEnum};
use crate::menu_items::submenu_menu_item::{SubmenuMenuItem, SubmenuView};

verus! {

/// The root of a menu tree: one submenu that its owner always treats as
/// descended into.
pub struct Menu {
    submenu_menu_item: SubmenuMenuItem,
}

/// Why a menu could not be built.
#[derive(PartialEq, Eq, Structural, Clone, Copy, Debug)]
pub enum NewError {
    InvalidItemsLength,
}

/// A key press on the whole menu: the new root state and whether the key
/// was handled.
pub open spec fn menu_pressed(root: SubmenuView, key: Option<FunctionKey>) -> (SubmenuView, bool) {
    let (s, r) = submenu_pressed(root, key, true);
    (s, r.handled)
}

impl View for Menu {
    type V = SubmenuView;

    closed spec fn view(&self) -> SubmenuView {
        self.submenu_menu_item@
    }
}

impl Menu {
    /// Builds a menu over `items`, with the first one selected; fails on an
    /// empty list.
    pub fn new(items: Vec<MenuItemEnum>) -> (r: Result<Menu, NewError>)
        requires
            forall|i: int| 0 <= i < items@.len() ==> model_wf(item_model(#[trigger] items@[i])),
        ensures
            items@.len() == 0 ==> r == Err::<Menu, NewError>(NewError::InvalidItemsLength),
            items@.len() > 0 ==> r is Ok && r->Ok_0@ == (SubmenuView {
                label: "Root"@,
                items: items@.map_values(|e: MenuItemEnum| item_model(e)),
                selected: 0,
                focused: false,
            }),
            r is Ok ==> submenu_wf(r->Ok_0@),
    {
        match SubmenuMenuItem::new(String::from_str("Root"), items) {
            Ok(submenu) => Ok(Menu { submenu_menu_item: submenu }),
            Err(_) => Err(NewError::InvalidItemsLength),
        }
    }

    /// The root submenu.
    pub fn get_submenu_menu_item(&self) -> (r: &SubmenuMenuItem)
        ensures
            r@ == self@,
    {
        &self.submenu_menu_item
    }

    /// Handles one key; tells whether some level of the menu consumed it.
    pub fn press(&mut self, key: KeyboardKey) -> (r: bool)
        requires
            submenu_wf(old(self)@),
        ensures
            submenu_wf(final(self)@),
            (final(self)@, r) == menu_pressed(old(self)@, key.function_key),
    {
        self.submenu_menu_item.press_submenu(&key, true).handled
    }

    pub fn enter(&mut self) -> (r: bool)
        requires
            submenu_wf(old(self)@),
        ensures
            submenu_wf(final(self)@),
            (final(self)@, r) == menu_pressed(old(self)@, Some(FunctionKey::ENTER)),
    {
        self.press(KeyboardKey::new(Some(FunctionKey::ENTER), None))
    }

    pub fn up(&mut self) -> (r: bool)
        requires
            submenu_wf(old(self)@),
        ensures
            submenu_wf(final(self)@),
            (final(self)@, r) == menu_pressed(old(self)@, Some(FunctionKey::UP)),
    {
        self.press(KeyboardKey::new(Some(FunctionKey::UP), None))
    }

    pub fn down(&mut self) -> (r: bool)
        requires
            submenu_wf(old(self)@),
        ensures
            submenu_wf(final(self)@),
            (final(self)@, r) == menu_pressed(old(self)@, Some(FunctionKey::DOWN)),
    {
        self.press(KeyboardKey::new(Some(FunctionKey::DOWN), None))
    }

    pub fn left(&mut self) -> (r: bool)
        requires
            submenu_wf(old(self)@),
        ensures
            submenu_wf(final(self)@),
            (final(self)@, r) == menu_pressed(old(self)@, Some(FunctionKey::LEFT)),
    {
        self.press(KeyboardKey::new(Some(FunctionKey::LEFT), None))
    }

    pub fn right(&mut self) -> (r: bool)
        requires
            submenu_wf(old(self)@),
        ensures
            submenu_wf(final(self)@),
            (final(self)@, r) == menu_pressed(old(self)@, Some(FunctionKey::RIGHT)),
    {
        self.press(KeyboardKey::new(Some(FunctionKey::RIGHT), None))
    }

    pub fn back(&mut self) -> (r: bool)
        requires
            submenu_wf(old(self)@),
        ensures
            submenu_wf(final(self)@),
            (final(self)@, r) == menu_pressed(old(self)@, Some(FunctionKey::BACK)),
    {
        self.press(KeyboardKey::new(Some(FunctionKey::BACK), None))
    }
}

} // verus!
