use menu_genie::MenuAction;
use menu_genie::MenuBuilder;
use menu_genie::MenuGenie;
use menu_genie::MgErrorKind;
use menu_genie::ResolveOutcome;

/// The two-menu registry of the end-to-end scenarios: menu 1 holds Add
/// (leaf) and Edit (navigate to 2); menu 2 holds Rename (leaf) and Back.
fn two_menu_engine() -> MenuGenie {
    MenuBuilder::new()
        .with_menu(1)
        .with_menu_item("Add".to_string(), MenuAction::Nothing)
        .with_menu_item("Edit".to_string(), MenuAction::Navigate(2))
        .with_menu(2)
        .with_menu_item("Rename".to_string(), MenuAction::Nothing)
        .with_back_button()
        .build()
}

#[test]
fn scenario_navigate_select_back() {
    let mut g = two_menu_engine();
    assert_eq!(g.callstack(), &vec![1]);

    let r = g.resolve_selection("2");
    assert_eq!(r.unwrap(), ResolveOutcome::Continue);
    assert_eq!(g.callstack(), &vec![1, 2]);

    let r = g.resolve_selection("1");
    assert_eq!(r.unwrap(), ResolveOutcome::Selected(2, 1));
    assert_eq!(g.callstack(), &vec![1, 2]);

    let r = g.resolve_selection("0");
    assert_eq!(r.unwrap(), ResolveOutcome::Continue);
    assert_eq!(g.callstack(), &vec![1]);
}

#[test]
fn scenario_missing_item_keeps_history() {
    let mut g = two_menu_engine();
    let r = g.resolve_selection("9");
    assert_eq!(r.unwrap_err().kind(), MgErrorKind::MissingMenuItem(1, 9));
    assert_eq!(g.callstack(), &vec![1]);
}

#[test]
fn scenario_quit_then_empty_call_stack() {
    let mut g = MenuBuilder::new().with_menu(1).with_quit_button().build();
    let r = g.resolve_selection("0");
    assert_eq!(r.unwrap(), ResolveOutcome::Continue);
    assert!(g.callstack().is_empty());
    assert!(g.is_terminated());

    let r = g.resolve_selection("0");
    assert_eq!(r.unwrap_err().kind(), MgErrorKind::EmptyCallStack);
    assert!(g.callstack().is_empty());
}

#[test]
fn scenario_parse_error_keeps_history() {
    let mut g = two_menu_engine();
    let r = g.resolve_selection("abc");
    assert_eq!(r.unwrap_err().kind(), MgErrorKind::ParseInputError);
    assert_eq!(g.callstack(), &vec![1]);
}

#[test]
fn leaf_selection_never_mutates_history() {
    let mut g = two_menu_engine();
    g.resolve_selection("2").unwrap();
    let before = g.callstack().clone();
    let r = g.resolve_selection("1");
    assert_eq!(r.unwrap(), ResolveOutcome::Selected(2, 1));
    assert_eq!(g.callstack(), &before);
}

#[test]
fn back_balances_navigate() {
    let mut g = two_menu_engine();
    assert_eq!(g.callstack(), &vec![1]);
    g.resolve_selection("2").unwrap();
    assert_eq!(g.callstack(), &vec![1, 2]);
    g.resolve_selection("0").unwrap();
    assert_eq!(g.callstack(), &vec![1]);
}

#[test]
fn back_to_start_is_idempotent() {
    let mut g = MenuBuilder::new()
        .with_menu(1)
        .with_menu_item("Deeper".to_string(), MenuAction::Navigate(2))
        .with_menu_item("Back to start".to_string(), MenuAction::BackToStart)
        .with_menu(2)
        .with_menu_item("Deeper still".to_string(), MenuAction::Navigate(3))
        .with_menu(3)
        .with_menu_item("Back to start".to_string(), MenuAction::BackToStart)
        .build();
    g.resolve_selection("1").unwrap();
    g.resolve_selection("1").unwrap();
    assert_eq!(g.callstack(), &vec![1, 2, 3]);

    // Collapse from depth three, then collapse again right away.
    g.resolve_selection("1").unwrap();
    assert_eq!(g.callstack(), &vec![1]);
    g.resolve_selection("2").unwrap();
    assert_eq!(g.callstack(), &vec![1]);

    // Collapsing twice in a row yields the same history as collapsing once.
    let mut g2 = MenuBuilder::new()
        .with_menu(1)
        .with_menu_item("Back to start".to_string(), MenuAction::BackToStart)
        .build();
    g2.resolve_selection("1").unwrap();
    assert_eq!(g2.callstack(), &vec![1]);
    g2.resolve_selection("1").unwrap();
    assert_eq!(g2.callstack(), &vec![1]);
}

#[test]
fn quit_terminality() {
    let mut g = MenuBuilder::new()
        .with_menu(1)
        .with_menu_item("Leaf".to_string(), MenuAction::Nothing)
        .with_quit_button()
        .build();
    g.resolve_selection("0").unwrap();
    assert!(g.is_terminated());
    assert_eq!(g.callstack(), &Vec::<usize>::new());
    let r = g.resolve_selection("1");
    assert_eq!(r.unwrap_err().kind(), MgErrorKind::EmptyCallStack);
    let r = g.resolve_selection("abc");
    assert_eq!(r.unwrap_err().kind(), MgErrorKind::EmptyCallStack);
}

#[test]
fn failures_do_not_mutate_history() {
    let mut g = two_menu_engine();
    g.resolve_selection("2").unwrap();
    let before = g.callstack().clone();

    assert_eq!(
        g.resolve_selection("").unwrap_err().kind(),
        MgErrorKind::ParseInputError
    );
    assert_eq!(g.callstack(), &before);

    assert_eq!(
        g.resolve_selection("5").unwrap_err().kind(),
        MgErrorKind::MissingMenuItem(2, 5)
    );
    assert_eq!(g.callstack(), &before);
}

#[test]
fn navigate_target_is_validated_lazily() {
    // Menu 99 is never registered; building still succeeds.
    let mut g = MenuBuilder::new()
        .with_menu(1)
        .with_menu_item("Dangling".to_string(), MenuAction::Navigate(99))
        .build();

    // Navigating to the dangling id succeeds.
    let r = g.resolve_selection("1");
    assert_eq!(r.unwrap(), ResolveOutcome::Continue);
    assert_eq!(g.callstack(), &vec![1, 99]);

    // Only once 99 is current does the missing menu surface, whatever the
    // input, and the history stays as it was.
    let r = g.resolve_selection("1");
    assert_eq!(r.unwrap_err().kind(), MgErrorKind::MissingMenu(99));
    assert_eq!(g.callstack(), &vec![1, 99]);
}

#[test]
fn restart_reactivates_a_terminated_engine() {
    let mut g = MenuBuilder::new().with_menu(7).with_quit_button().build();
    g.resolve_selection("0").unwrap();
    assert!(g.is_terminated());
    g.restart();
    assert!(!g.is_terminated());
    assert_eq!(g.callstack(), &vec![7]);
    assert_eq!(g.start_menu_id(), 7);
}

#[test]
fn restart_collapses_a_deep_history() {
    let mut g = two_menu_engine();
    g.resolve_selection("2").unwrap();
    assert_eq!(g.callstack(), &vec![1, 2]);
    g.restart();
    assert_eq!(g.callstack(), &vec![1]);
}

#[test]
fn get_current_menu_reports_state() {
    let mut g = MenuBuilder::new()
        .with_menu(1)
        .with_menu_item("Go deeper".to_string(), MenuAction::Navigate(2))
        .with_quit_button()
        .with_menu(2)
        .with_back_button()
        .build();
    assert_eq!(g.get_current_menu().unwrap().id, 1);
    g.resolve_selection("1").unwrap();
    assert_eq!(g.get_current_menu().unwrap().id, 2);
    g.resolve_selection("0").unwrap();
    assert_eq!(g.get_current_menu().unwrap().id, 1);
    g.resolve_selection("0").unwrap();
    assert!(g.is_terminated());
    assert_eq!(
        g.get_current_menu().unwrap_err().kind(),
        MgErrorKind::EmptyCallStack
    );
}

#[test]
fn get_current_menu_reports_missing_menu() {
    let mut g = MenuBuilder::new()
        .with_menu(1)
        .with_menu_item("Dangling".to_string(), MenuAction::Navigate(3))
        .build();
    g.resolve_selection("1").unwrap();
    assert_eq!(
        g.get_current_menu().unwrap_err().kind(),
        MgErrorKind::MissingMenu(3)
    );
}

#[test]
fn get_menu_finds_by_id() {
    let g = two_menu_engine();
    assert_eq!(g.get_menu(2).unwrap().id, 2);
    assert!(g.get_menu(3).is_none());
}

#[test]
fn drive_a_four_menu_tree() {
    let mut g = MenuBuilder::new()
        .with_menu(1)
        .with_menu_item("Manage Nodes".to_string(), MenuAction::Navigate(2))
        .with_menu_item("Manage Edges".to_string(), MenuAction::Navigate(3))
        .with_back_button()
        .with_menu(2)
        .with_menu_item("Add Node".to_string(), MenuAction::Nothing)
        .with_menu_item("Delete Node".to_string(), MenuAction::Nothing)
        .with_back_button()
        .with_menu(3)
        .with_menu_item("Edit Edge".to_string(), MenuAction::Navigate(4))
        .with_back_button()
        .with_menu(4)
        .with_menu_item("Change Items".to_string(), MenuAction::Nothing)
        .with_menu_item("Back to starting menu".to_string(), MenuAction::BackToStart)
        .with_back_button()
        .build();

    assert_eq!(g.resolve_selection("1").unwrap(), ResolveOutcome::Continue);
    assert_eq!(g.resolve_selection("1").unwrap(), ResolveOutcome::Selected(2, 1));
    assert_eq!(g.resolve_selection("2").unwrap(), ResolveOutcome::Selected(2, 2));
    assert_eq!(g.resolve_selection("0").unwrap(), ResolveOutcome::Continue);
    assert_eq!(g.callstack(), &vec![1]);

    assert_eq!(g.resolve_selection("2").unwrap(), ResolveOutcome::Continue);
    assert_eq!(g.resolve_selection("1").unwrap(), ResolveOutcome::Continue);
    assert_eq!(g.callstack(), &vec![1, 3, 4]);
    assert_eq!(g.resolve_selection("1").unwrap(), ResolveOutcome::Selected(4, 1));
    assert_eq!(g.resolve_selection("2").unwrap(), ResolveOutcome::Continue);
    assert_eq!(g.callstack(), &vec![1]);

    // Back from the start menu pops the last id: the session ends.
    assert_eq!(g.resolve_selection("0").unwrap(), ResolveOutcome::Continue);
    assert!(g.is_terminated());
}
