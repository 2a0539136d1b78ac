use menu_genie::MenuAction;
use menu_genie::MenuBuilder;

#[test]
fn first_menu_sets_the_starting_id() {
    let g = MenuBuilder::new()
        .with_menu(5)
        .with_menu_item("Leaf".to_string(), MenuAction::Nothing)
        .with_menu(2)
        .with_menu_item("Leaf".to_string(), MenuAction::Nothing)
        .build();
    assert_eq!(g.start_menu_id(), 5);
    assert_eq!(g.callstack(), &vec![5]);
}

#[test]
fn with_starting_menu_overrides_the_default() {
    let g = MenuBuilder::new()
        .with_menu(1)
        .with_menu(2)
        .with_starting_menu(2)
        .build();
    assert_eq!(g.start_menu_id(), 2);
    assert_eq!(g.callstack(), &vec![2]);
}

#[test]
fn starting_menu_overrides_the_default() {
    let g = MenuBuilder::new()
        .with_menu(1)
        .with_menu(2)
        .starting_menu(2)
        .build();
    assert_eq!(g.start_menu_id(), 2);
    assert_eq!(g.callstack(), &vec![2]);
}

#[test]
fn item_keys_auto_increment_from_one() {
    let g = MenuBuilder::new()
        .with_menu(1)
        .with_menu_item("First".to_string(), MenuAction::Nothing)
        .with_menu_item("Second".to_string(), MenuAction::Nothing)
        .with_menu_item("Third".to_string(), MenuAction::Nothing)
        .build();
    let menu = g.get_menu(1).unwrap();
    let keys: Vec<usize> = menu.menu_items.iter().map(|item| item.key).collect();
    assert_eq!(keys, vec![1, 2, 3]);
}

#[test]
fn button_key_is_zero_and_counts_toward_later_keys() {
    // The back button takes key 0 at index 2; the next plain item is the
    // fourth item and so gets key 4.
    let g = MenuBuilder::new()
        .with_menu(1)
        .with_menu_item("First".to_string(), MenuAction::Nothing)
        .with_menu_item("Second".to_string(), MenuAction::Nothing)
        .with_back_button()
        .with_menu_item("Fourth".to_string(), MenuAction::Nothing)
        .build();
    let menu = g.get_menu(1).unwrap();
    let keys: Vec<usize> = menu.menu_items.iter().map(|item| item.key).collect();
    assert_eq!(keys, vec![1, 2, 0, 4]);
}

#[test]
fn back_button_prompt_and_action() {
    let g = MenuBuilder::new().with_menu(1).with_back_button().build();
    let item = &g.get_menu(1).unwrap().menu_items[0];
    assert_eq!(item.prompt, "Back");
    assert_eq!(item.key, 0);
    assert!(matches!(item.action, MenuAction::Back));
}

#[test]
fn quit_button_prompt_and_action() {
    let g = MenuBuilder::new().with_menu(1).with_quit_button().build();
    let item = &g.get_menu(1).unwrap().menu_items[0];
    assert_eq!(item.prompt, "Quit");
    assert_eq!(item.key, 0);
    assert!(matches!(item.action, MenuAction::Quit));
}

#[test]
fn items_keep_insertion_order_and_prompts() {
    let g = MenuBuilder::new()
        .with_menu(3)
        .with_menu_item("Add Edge".to_string(), MenuAction::Nothing)
        .with_menu_item("Delete Edge".to_string(), MenuAction::Navigate(4))
        .build();
    let menu = g.get_menu(3).unwrap();
    assert_eq!(menu.menu_items.len(), 2);
    assert_eq!(menu.menu_items[0].prompt, "Add Edge");
    assert_eq!(menu.menu_items[1].prompt, "Delete Edge");
    assert!(matches!(menu.menu_items[1].action, MenuAction::Navigate(4)));
}
