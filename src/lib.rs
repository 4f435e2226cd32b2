//! A navigable, fixed-size text menu: a tree of selectable items driven by
//! discrete key events and rendered into a grid of fixed-width lines.
pub mod console;
pub mod keyboard;
pub mod menu;
pub mod menu_items;
pub mod renderer;
