use textmenu::keyboard::{FunctionKey, KeyboardKey};
use textmenu::menu_items::menu_item::{MenuItem, PressResult};
use textmenu::menu_items::toggle_menu_item::ToggleMenuItem;

#[test]
fn item_is_usable() {
    let mut item: ToggleMenuItem = ToggleMenuItem::new(String::from("label"));
    assert_eq!(
        item.press(&KeyboardKey::new(Some(FunctionKey::LEFT), None), false),
        PressResult {
            focus: false,
            handled: false
        }
    );
    assert_eq!(
        item.press(&KeyboardKey::new(Some(FunctionKey::RIGHT), None), false),
        PressResult {
            focus: false,
            handled: false
        }
    );
    assert_eq!(
        item.press(&KeyboardKey::new(Some(FunctionKey::BACK), None), false),
        PressResult {
            focus: false,
            handled: false
        }
    );

    assert_eq!(item.get_label(false), "label: OFF");
    assert_eq!(item.get_value(), false);

    assert_eq!(
        item.press(&KeyboardKey::new(Some(FunctionKey::ENTER), None), false),
        PressResult {
            focus: false,
            handled: true
        }
    );
    assert_eq!(item.get_label(false), "label: ON");
    assert_eq!(item.get_value(), true);

    assert_eq!(
        item.press(&KeyboardKey::new(Some(FunctionKey::ENTER), None), false),
        PressResult {
            focus: false,
            handled: true
        }
    );
    assert_eq!(item.get_label(false), "label: OFF");
    assert_eq!(item.get_value(), false);
}
