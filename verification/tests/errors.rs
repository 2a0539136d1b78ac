use menu_genie::Menu;
use menu_genie::MenuAction;
use menu_genie::MenuItem;
use menu_genie::MgError;
use menu_genie::MgErrorKind;
use menu_genie::parse_key;
use menu_genie::usize_to_string;

#[test]
fn empty_call_stack_error() {
    let e = MgError::empty_call_stack();
    assert_eq!(e.kind(), MgErrorKind::EmptyCallStack);
    assert_eq!(e.description().as_str(), "Callstack is empty");
}

#[test]
fn missing_menu_error() {
    let e = MgError::missing_menu(42);
    assert_eq!(e.kind(), MgErrorKind::MissingMenu(42));
    assert_eq!(e.description().as_str(), "Missing menu with id 42");
}

#[test]
fn missing_menu_error_with_zero_id() {
    let e = MgError::missing_menu(0);
    assert_eq!(e.description().as_str(), "Missing menu with id 0");
}

#[test]
fn missing_menu_item_error() {
    let e = MgError::missing_menu_item(7, 12345);
    assert_eq!(e.kind(), MgErrorKind::MissingMenuItem(7, 12345));
    assert_eq!(
        e.description().as_str(),
        "Missing menu item with id 12345 in menu with id 7"
    );
}

#[test]
fn parse_input_error() {
    let e = MgError::parse_input_error();
    assert_eq!(e.kind(), MgErrorKind::ParseInputError);
    assert_eq!(e.description().as_str(), "Failed to parse input as a menu item key");
}

#[test]
fn io_error_carries_the_given_description() {
    let e = MgError::io_error("could not read a line".to_string());
    assert_eq!(e.kind(), MgErrorKind::IoError);
    assert_eq!(e.description().as_str(), "could not read a line");
}

#[test]
fn error_kinds_are_comparable() {
    assert_eq!(MgErrorKind::MissingMenu(1), MgErrorKind::MissingMenu(1));
    assert_ne!(MgErrorKind::MissingMenu(1), MgErrorKind::MissingMenu(2));
    assert_ne!(
        MgErrorKind::MissingMenuItem(1, 2),
        MgErrorKind::MissingMenuItem(2, 1)
    );
}

#[test]
fn parse_key_accepts_plain_digits() {
    assert_eq!(parse_key("0"), Some(0));
    assert_eq!(parse_key("7"), Some(7));
    assert_eq!(parse_key("42"), Some(42));
    assert_eq!(parse_key("007"), Some(7));
}

#[test]
fn parse_key_accepts_the_largest_key() {
    assert_eq!(parse_key("18446744073709551615"), Some(usize::MAX));
}

#[test]
fn parse_key_rejects_overflow() {
    assert_eq!(parse_key("18446744073709551616"), None);
    assert_eq!(parse_key("99999999999999999999999999"), None);
}

#[test]
fn parse_key_rejects_non_digits() {
    assert_eq!(parse_key(""), None);
    assert_eq!(parse_key("abc"), None);
    assert_eq!(parse_key("1a"), None);
    assert_eq!(parse_key("-1"), None);
    assert_eq!(parse_key("+1"), None);
    assert_eq!(parse_key("1 "), None);
    assert_eq!(parse_key(" 1"), None);
}

#[test]
fn usize_to_string_writes_decimal_digits() {
    assert_eq!(usize_to_string(0), "0");
    assert_eq!(usize_to_string(9), "9");
    assert_eq!(usize_to_string(10), "10");
    assert_eq!(usize_to_string(12345), "12345");
    assert_eq!(usize_to_string(usize::MAX), "18446744073709551615");
}

#[test]
fn menu_lookup_finds_the_first_match() {
    let mut menu = Menu::new(4);
    assert_eq!(menu.id, 4);
    assert!(menu.get_menu_item(1).is_none());
    menu.menu_items.push(MenuItem {
        prompt: "First".to_string(),
        action: MenuAction::Nothing,
        key: 1,
    });
    menu.menu_items.push(MenuItem {
        prompt: "Shadowed".to_string(),
        action: MenuAction::Quit,
        key: 1,
    });
    let found = menu.get_menu_item(1).unwrap();
    assert_eq!(found.prompt, "First");
    assert!(matches!(found.action, MenuAction::Nothing));
    assert!(menu.get_menu_item(2).is_none());
}
