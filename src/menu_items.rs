//! The item kinds a menu is built from, and their shared behaviour.
pub mod action_menu_item;
pub mod basic_menu_item;
pub mod list_menu_item;
pub mod menu_item;
pub mod menu_item_enum;
pub mod range_menu_item;
pub mod submenu_menu_item;
pub mod toggle_menu_item;
