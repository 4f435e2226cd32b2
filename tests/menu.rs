use textmenu::menu::{Menu, NewError};
use textmenu::menu_items::action_menu_item::ActionMenuItem;
use textmenu::menu_items::basic_menu_item::BasicMenuItem;
use textmenu::menu_items::list_menu_item::ListMenuItem;
use textmenu::menu_items::menu_item::MenuItem;
use textmenu::menu_items::menu_item_enum::MenuItemEnum;
use textmenu::menu_items::range_menu_item::RangeMenuItem;
use textmenu::menu_items::submenu_menu_item::SubmenuMenuItem;
use textmenu::menu_items::toggle_menu_item::ToggleMenuItem;

fn as_list(item: &MenuItemEnum) -> Option<&ListMenuItem> {
    match item {
        MenuItemEnum::ListMenuItem(list) => Some(list),
        _ => None,
    }
}

fn as_toggle(item: &MenuItemEnum) -> Option<&ToggleMenuItem> {
    match item {
        MenuItemEnum::ToggleMenuItem(toggle) => Some(toggle),
        _ => None,
    }
}

fn as_range(item: &MenuItemEnum) -> Option<&RangeMenuItem> {
    match item {
        MenuItemEnum::RangeMenuItem(range) => Some(range),
        _ => None,
    }
}

fn as_submenu(item: &MenuItemEnum) -> Option<&SubmenuMenuItem> {
    match item {
        MenuItemEnum::SubmenuMenuItem(submenu) => Some(submenu),
        _ => None,
    }
}

fn activations(menu: &Menu) -> u64 {
    match menu.get_submenu_menu_item().get_selected_item() {
        MenuItemEnum::ActionMenuItem(action) => action.activation_count(),
        _ => panic!("Selected item must be of type ActionMenuItem"),
    }
}

fn assert_submenu(
    submenu: &SubmenuMenuItem,
    expected_item_count: usize,
    expected_idx: usize,
    expected_is_focused: bool,
) -> () {
    assert_eq!(submenu.item_count(), expected_item_count);
    assert_eq!(submenu.get_selected_item_idx(), expected_idx);
    assert_eq!(submenu.is_focused(), expected_is_focused);
}

fn assert_submenu_state(
    menu: &Menu,
    expected_item_count: usize,
    expected_idx: usize,
    expected_is_focused: bool,
) -> () {
    let submenu = menu.get_submenu_menu_item();
    assert_submenu(
        submenu,
        expected_item_count,
        expected_idx,
        expected_is_focused,
    );
}

#[test]
fn menu_can_create_simple_menu() {
    let items: Vec<MenuItemEnum> =
        vec![MenuItemEnum::BasicMenuItem(BasicMenuItem::new(String::from("Item1")))];
    let menu = Menu::new(items).unwrap();

    assert_submenu_state(&menu, 1, 0, false);
}

#[test]
fn menu_can_create_big_menu() {
    let items: Vec<MenuItemEnum> = vec![
        MenuItemEnum::BasicMenuItem(BasicMenuItem::new(String::from("Item1"))),
        MenuItemEnum::BasicMenuItem(BasicMenuItem::new(String::from("Item2"))),
        MenuItemEnum::BasicMenuItem(BasicMenuItem::new(String::from("Item3"))),
        MenuItemEnum::BasicMenuItem(BasicMenuItem::new(String::from("Item4"))),
        MenuItemEnum::BasicMenuItem(BasicMenuItem::new(String::from("Item5"))),
        MenuItemEnum::BasicMenuItem(BasicMenuItem::new(String::from("Item6"))),
        MenuItemEnum::BasicMenuItem(BasicMenuItem::new(String::from("Item7"))),
        MenuItemEnum::BasicMenuItem(BasicMenuItem::new(String::from("Item8"))),
    ];
    let mut menu = Menu::new(items).unwrap();
    assert_submenu_state(&menu, 8, 0, false);

    assert_eq!(menu.down(), true);
    assert_submenu_state(&menu, 8, 1, false);

    assert_eq!(menu.down(), true);
    assert_submenu_state(&menu, 8, 2, false);

    assert_eq!(menu.down(), true);
    assert_submenu_state(&menu, 8, 3, false);

    assert_eq!(menu.down(), true);
    assert_submenu_state(&menu, 8, 4, false);

    assert_eq!(menu.down(), true);
    assert_submenu_state(&menu, 8, 5, false);
}

#[test]
fn menu_can_create_complex_menu() {
    let items: Vec<MenuItemEnum> = vec![
        MenuItemEnum::BasicMenuItem(BasicMenuItem::new(String::from("Item1"))),
        MenuItemEnum::BasicMenuItem(BasicMenuItem::new(String::from("Item2"))),
        MenuItemEnum::BasicMenuItem(BasicMenuItem::new(String::from("Item3"))),
        MenuItemEnum::BasicMenuItem(BasicMenuItem::new(String::from("Item4"))),
        MenuItemEnum::BasicMenuItem(BasicMenuItem::new(String::from("Item5"))),
    ];
    let mut menu = Menu::new(items).unwrap();

    assert_submenu_state(&menu, 5, 0, false);

    assert_eq!(menu.up(), false);
    assert_submenu_state(&menu, 5, 0, false);

    assert_eq!(menu.down(), true);
    assert_submenu_state(&menu, 5, 1, false);

    assert_eq!(menu.down(), true);
    assert_submenu_state(&menu, 5, 2, false);

    assert_eq!(menu.down(), true);
    assert_submenu_state(&menu, 5, 3, false);

    assert_eq!(menu.down(), true);
    assert_submenu_state(&menu, 5, 4, false);

    assert_eq!(menu.down(), false);
    assert_submenu_state(&menu, 5, 4, false);
}

#[test]
fn basic_item_is_usable() {
    let items: Vec<MenuItemEnum> =
        vec![MenuItemEnum::BasicMenuItem(BasicMenuItem::new(String::from("Item1")))];
    let mut menu = Menu::new(items).unwrap();

    assert_submenu_state(&menu, 1, 0, false);

    assert_eq!(menu.enter(), false);
    assert_submenu_state(&menu, 1, 0, false);
}

#[test]
fn menu_action_item_is_usable() {

    let items: Vec<MenuItemEnum> = vec![
        MenuItemEnum::ActionMenuItem(ActionMenuItem::new(String::from("Item1"))),
        MenuItemEnum::BasicMenuItem(BasicMenuItem::new(String::from("Item2"))),
    ];
    let mut menu = Menu::new(items).unwrap();

    assert_submenu_state(&menu, 2, 0, false);
    assert_eq!(activations(&menu), 0);

    assert_eq!(menu.enter(), true);
    assert_eq!(activations(&menu), 1);
}

fn assert_list_menu_item(
    item: &ListMenuItem,
    is_focused: bool,
    expected_label: &str,
    expected_selected_entry_idx: usize,
    expected_selected_entry: &str,
) {
    assert_eq!(item.get_label(is_focused), expected_label);
    assert_eq!(item.get_selected_entry_idx(), expected_selected_entry_idx);
    assert_eq!(item.get_selected_entry(), expected_selected_entry);
}

fn assert_focused_list_menu_item_state(
    menu: &Menu,
    expected_label: &str,
    expected_selected_entry_idx: usize,
    expected_selected_entry: &str,
) {
    let submenu_menu_item = menu.get_submenu_menu_item();
    let selected_item = submenu_menu_item.get_selected_item();
    if let Some(list_menu_item) = as_list(selected_item) {
        assert_list_menu_item(
            list_menu_item,
            submenu_menu_item.is_focused(),
            expected_label,
            expected_selected_entry_idx,
            expected_selected_entry,
        );
    } else {
        panic!("Selected item must be of type ListMenuItem");
    }
}

#[test]
fn menu_list_item_is_usable() {
    let list_entries = vec![
        String::from("Elem1"),
        String::from("Elem2"),
        String::from("Elem3"),
    ];

    let items: Vec<MenuItemEnum> = vec![
        MenuItemEnum::ListMenuItem(ListMenuItem::new(String::from("Item1"), list_entries).unwrap()),
        MenuItemEnum::BasicMenuItem(BasicMenuItem::new(String::from("Item2"))),
    ];
    let mut menu = Menu::new(items).unwrap();

    assert_submenu_state(&menu, 2, 0, false);
    assert_focused_list_menu_item_state(&menu, "Item1: Elem1", 0, "Elem1");

    assert_eq!(menu.left(), false);
    assert_eq!(menu.right(), false);

    assert_eq!(menu.enter(), true);
    assert_submenu_state(&menu, 2, 0, true);
    assert_focused_list_menu_item_state(&menu, "Item1: Elem1", 0, "Elem1");

    // Can't move while focused
    assert_eq!(menu.up(), false);
    assert_eq!(menu.down(), false);

    assert_eq!(menu.right(), true);
    assert_submenu_state(&menu, 2, 0, true);
    assert_focused_list_menu_item_state(&menu, "Item1: Elem2", 0, "Elem1");

    assert_eq!(menu.back(), true);
    assert_submenu_state(&menu, 2, 0, false);
    assert_focused_list_menu_item_state(&menu, "Item1: Elem1", 0, "Elem1");

    assert_eq!(menu.enter(), true);
    assert_submenu_state(&menu, 2, 0, true);
    assert_focused_list_menu_item_state(&menu, "Item1: Elem1", 0, "Elem1");

    assert_eq!(menu.left(), true);
    assert_submenu_state(&menu, 2, 0, true);
    assert_focused_list_menu_item_state(&menu, "Item1: Elem3", 0, "Elem1");

    menu.enter();
    assert_submenu_state(&menu, 2, 0, false);
    assert_focused_list_menu_item_state(&menu, "Item1: Elem3", 2, "Elem3");
}

fn assert_toggle_menu_item(
    item: &ToggleMenuItem,
    is_focused: bool,
    expected_label: &str,
    expected_value: bool,
) {
    assert_eq!(item.get_label(is_focused), expected_label);
    assert_eq!(item.get_value(), expected_value);
}

fn get_required_toggle(item: &MenuItemEnum) -> &ToggleMenuItem {
    if let Some(toggle_menu_item) = as_toggle(item) {
        toggle_menu_item
    } else {
        panic!("Selected item must be of type ToggleMenuItem");
    }
}

fn assert_focused_toggle_menu_item_state(
    menu: &Menu,
    expected_label: &str,
    expected_value: bool,
) {
    let submenu_menu_item = menu.get_submenu_menu_item();
    let selected_item = submenu_menu_item.get_selected_item();
    let toggle_menu_item = get_required_toggle(selected_item);
    assert_toggle_menu_item(
        toggle_menu_item,
        submenu_menu_item.is_focused(),
        expected_label,
        expected_value,
    );
}

#[test]
fn menu_toggle_item_is_usable() {
    let items: Vec<MenuItemEnum> = vec![
        MenuItemEnum::ToggleMenuItem(ToggleMenuItem::new(String::from("Item1"))),
        MenuItemEnum::BasicMenuItem(BasicMenuItem::new(String::from("Item2"))),
    ];
    let mut menu = Menu::new(items).unwrap();

    assert_focused_toggle_menu_item_state(&menu, "Item1: OFF", false);
    assert_submenu_state(&menu, 2, 0, false);

    assert_eq!(menu.enter(), true);
    assert_submenu_state(&menu, 2, 0, false);
    assert_focused_toggle_menu_item_state(&menu, "Item1: ON", true);

    assert_eq!(menu.enter(), true);
    assert_submenu_state(&menu, 2, 0, false);
    assert_focused_toggle_menu_item_state(&menu, "Item1: OFF", false);
}

fn get_required_range(item: &MenuItemEnum) -> &RangeMenuItem {
    if let Some(range_menu_item) = as_range(item) {
        range_menu_item
    } else {
        panic!("Selected item must be of type RangeMenuItem");
    }
}

fn assert_focused_range_menu_item_state(
    menu: &Menu,
    expected_label: &str,
    expected_value: u32,
) {
    let submenu_menu_item = menu.get_submenu_menu_item();
    let selected_item = submenu_menu_item.get_selected_item();
    let range_menu_item = get_required_range(selected_item);
    assert_eq!(
        range_menu_item.get_label(submenu_menu_item.is_focused()),
        expected_label
    );
    assert_eq!(range_menu_item.get_value(), expected_value);
}

#[test]
fn menu_range_item_is_usable() {
    let items: Vec<MenuItemEnum> = vec![
        MenuItemEnum::RangeMenuItem(RangeMenuItem::new(String::from("Item1"), 3, 10, 1).unwrap()),
        MenuItemEnum::BasicMenuItem(BasicMenuItem::new(String::from("Item2"))),
    ];
    let mut menu = Menu::new(items).unwrap();

    assert_submenu_state(&menu, 2, 0, false);
    assert_focused_range_menu_item_state(&menu, "Item1: 3", 3);

    assert_eq!(menu.enter(), true);
    assert_submenu_state(&menu, 2, 0, true);
    assert_focused_range_menu_item_state(&menu, "Item1: 3", 3);

    assert_eq!(menu.left(), true);
    assert_submenu_state(&menu, 2, 0, true);
    assert_focused_range_menu_item_state(&menu, "Item1: 10", 3);

    assert_eq!(menu.left(), true);
    assert_submenu_state(&menu, 2, 0, true);
    assert_focused_range_menu_item_state(&menu, "Item1: 9", 3);

    assert_eq!(menu.right(), true);
    assert_submenu_state(&menu, 2, 0, true);
    assert_focused_range_menu_item_state(&menu, "Item1: 10", 3);

    assert_eq!(menu.enter(), true);
    assert_submenu_state(&menu, 2, 0, false);
    assert_focused_range_menu_item_state(&menu, "Item1: 10", 10);
}

fn get_required_submenu(item: &MenuItemEnum) -> &SubmenuMenuItem {
    if let Some(submenu_menu_item) = as_submenu(item) {
        submenu_menu_item
    } else {
        panic!("Selected item must be of type SubmenuMenuItem");
    }
}

fn assert_focused_submenu_menu_item_state(
    menu: &Menu,
    expected_item_count: usize,
    expected_idx: usize,
    expected_is_focused: bool,
) {
    let submenu_menu_item = menu.get_submenu_menu_item();
    let selected_item = submenu_menu_item.get_selected_item();
    let submenu_item = get_required_submenu(selected_item);
    assert_submenu(
        submenu_item,
        expected_item_count,
        expected_idx,
        expected_is_focused,
    );
}

fn assert_focused_lvl2_toggle_menu_item_state(
    menu: &Menu,
    expected_label: &str,
    expected_value: bool,
) {
    let submenu_menu_item = menu.get_submenu_menu_item();
    let selected_item = submenu_menu_item.get_selected_item();
    let submenu = get_required_submenu(selected_item);
    let selected_lvl2_item = submenu.get_selected_item();
    let toggle_menu_item = get_required_toggle(selected_lvl2_item);
    assert_toggle_menu_item(
        toggle_menu_item,
        submenu_menu_item.is_focused(),
        expected_label,
        expected_value,
    );
}

fn assert_focused_lvl2_submenu_menu_item_state(
    menu: &Menu,
    expected_item_count: usize,
    expected_idx: usize,
    expected_is_focused: bool,
) {
    let submenu_menu_item = menu.get_submenu_menu_item();
    let submenu_item = get_required_submenu(submenu_menu_item.get_selected_item());
    let selected_lvl2_item = submenu_item.get_selected_item();
    let submenu_lvl2_item = get_required_submenu(selected_lvl2_item);
    assert_submenu(
        submenu_lvl2_item,
        expected_item_count,
        expected_idx,
        expected_is_focused,
    );
}

#[test]
fn menu_submenu_is_usable() {
    let submenu2_items: Vec<MenuItemEnum> =
        vec![MenuItemEnum::BasicMenuItem(BasicMenuItem::new(String::from("Sub2 Item1")))];
    let subitem2 = SubmenuMenuItem::new(String::from("Sub Item2"), submenu2_items).unwrap();
    let submenu1_items: Vec<MenuItemEnum> = vec![
        MenuItemEnum::ToggleMenuItem(ToggleMenuItem::new(String::from("Sub Item1"))),
        MenuItemEnum::SubmenuMenuItem(subitem2),
    ];
    let item1 = SubmenuMenuItem::new(String::from("Item1"), submenu1_items).unwrap();
    let items: Vec<MenuItemEnum> = vec![
        MenuItemEnum::SubmenuMenuItem(item1),
        MenuItemEnum::BasicMenuItem(BasicMenuItem::new(String::from("Item2"))),
    ];
    let mut menu = Menu::new(items).unwrap();

    assert_submenu_state(&menu, 2, 0, false);

    assert_eq!(menu.enter(), true);
    assert_submenu_state(&menu, 2, 0, true);
    assert_focused_submenu_menu_item_state(&menu, 2, 0, false);

    assert_eq!(menu.enter(), true);
    assert_submenu_state(&menu, 2, 0, true);
    assert_focused_submenu_menu_item_state(&menu, 2, 0, false);
    assert_focused_lvl2_toggle_menu_item_state(&menu, "Sub Item1: ON", true);

    assert_eq!(menu.down(), true);
    assert_submenu_state(&menu, 2, 0, true);
    assert_focused_submenu_menu_item_state(&menu, 2, 1, false);

    assert_eq!(menu.enter(), true);
    assert_submenu_state(&menu, 2, 0, true);
    assert_focused_submenu_menu_item_state(&menu, 2, 1, true);
    assert_focused_lvl2_submenu_menu_item_state(&menu, 1, 0, false);

    assert_eq!(menu.back(), true);
    assert_submenu_state(&menu, 2, 0, true);
    assert_focused_submenu_menu_item_state(&menu, 2, 1, false);

    assert_eq!(menu.back(), true);
    assert_submenu_state(&menu, 2, 0, false);
}

#[test]
fn menu_rejects_empty_items() {
    let result = Menu::new(Vec::new());
    assert!(matches!(result, Err(NewError::InvalidItemsLength)));
}

#[test]
fn menu_back_ascends_one_level_at_a_time() {
    let inner = SubmenuMenuItem::new(
        String::from("Inner"),
        vec![MenuItemEnum::BasicMenuItem(BasicMenuItem::new(String::from("Leaf")))],
    )
    .unwrap();
    let outer = SubmenuMenuItem::new(
        String::from("Outer"),
        vec![MenuItemEnum::SubmenuMenuItem(inner)],
    )
    .unwrap();
    let mut menu = Menu::new(vec![MenuItemEnum::SubmenuMenuItem(outer)]).unwrap();

    assert_eq!(menu.enter(), true);
    assert_eq!(menu.enter(), true);
    assert_submenu_state(&menu, 1, 0, true);
    assert_focused_submenu_menu_item_state(&menu, 1, 0, true);

    assert_eq!(menu.back(), true);
    assert_submenu_state(&menu, 1, 0, true);
    assert_focused_submenu_menu_item_state(&menu, 1, 0, false);

    assert_eq!(menu.back(), true);
    assert_submenu_state(&menu, 1, 0, false);
}

#[test]
fn menu_range_left_from_zero_wraps_then_steps_back() {
    let items = vec![MenuItemEnum::RangeMenuItem(
        RangeMenuItem::new(String::from("R"), 0, 100, 20).unwrap(),
    )];
    let mut menu = Menu::new(items).unwrap();
    assert_eq!(menu.enter(), true);
    assert_eq!(menu.left(), true);
    assert_focused_range_menu_item_state(&menu, "R: 100", 0);
    assert_eq!(menu.left(), true);
    assert_focused_range_menu_item_state(&menu, "R: 80", 0);
    assert_eq!(menu.enter(), true);
    assert_focused_range_menu_item_state(&menu, "R: 80", 80);
}

#[test]
fn menu_list_cancel_then_commit() {
    let entries = vec![
        String::from("Elem1"),
        String::from("Elem2"),
        String::from("Elem3"),
    ];
    let items = vec![MenuItemEnum::ListMenuItem(
        ListMenuItem::new(String::from("L"), entries).unwrap(),
    )];
    let mut menu = Menu::new(items).unwrap();
    menu.enter();
    menu.right();
    menu.back();
    assert_focused_list_menu_item_state(&menu, "L: Elem1", 0, "Elem1");
    menu.enter();
    menu.right();
    menu.enter();
    assert_focused_list_menu_item_state(&menu, "L: Elem2", 1, "Elem2");
}
