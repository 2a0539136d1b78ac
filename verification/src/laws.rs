use vstd::prelude::*;

use crate::action::MenuAction;
use crate::digits::key_of_input;
use crate::digits::valid_key_input;
use crate::engine::EngineState;
use crate::engine::ResolveOutcome;
use crate::engine::has_menu;
use crate::engine::spec_find_menu;
use crate::engine::lemma_has_menu_iff_found;
use crate::engine::spec_resolve;
use crate::error::MgErrorKind;
use crate::menu::spec_find_item;

verus! {

/// The action a resolution of `input` against `s` dispatches on, if it gets
/// that far: the callstack is non-empty, the current menu is registered, the
/// input is a valid key, and the current menu holds an item with that key.
pub open spec fn dispatched_action(s: EngineState, input: Seq<char>) -> Option<MenuAction> {
    if s.terminated() {
        None
    } else {
        match spec_find_menu(s.menus, s.current_menu_id()) {
            None => None,
            Some(menu) => if !valid_key_input(input) {
                None
            } else {
                match spec_find_item(menu.menu_items@, key_of_input(input)) {
                    None => None,
                    Some(item) => Some(item.action),
                }
            },
        }
    }
}

/// Leaf stability: resolving the key of an item whose action is `Nothing`
/// never mutates the state, and reports exactly the current menu id and that
/// key.
pub proof fn lemma_leaf_stability(s: EngineState, input: Seq<char>)
    requires
        dispatched_action(s, input) == Some(MenuAction::Nothing),
    ensures
        spec_resolve(s, input) == (
            s,
            Ok::<ResolveOutcome, MgErrorKind>(
                ResolveOutcome::Selected(s.current_menu_id(), key_of_input(input)),
            ),
        ),
{
}

/// Back balances Navigate: from a history holding exactly `[a]`, resolving
/// an action `Navigate(b)` and then an action `Back` restores the history to
/// exactly `[a]`.
pub proof fn lemma_back_balances_navigate(
    s: EngineState,
    in1: Seq<char>,
    in2: Seq<char>,
    a: usize,
    b: usize,
)
    requires
        s.callstack == seq![a],
        dispatched_action(s, in1) == Some(MenuAction::Navigate(b)),
        dispatched_action(spec_resolve(s, in1).0, in2) == Some(MenuAction::Back),
    ensures
        spec_resolve(spec_resolve(s, in1).0, in2).0.callstack == seq![a],
{
    assert(seq![a].push(b).drop_last() =~= seq![a]);
}

/// BackToStart idempotence: resolving `BackToStart` twice in a row yields
/// the same state as resolving it once, and that state's history holds only
/// the starting menu id, regardless of prior depth.
pub proof fn lemma_back_to_start_idempotent(s: EngineState, in1: Seq<char>, in2: Seq<char>)
    requires
        dispatched_action(s, in1) == Some(MenuAction::BackToStart),
        dispatched_action(spec_resolve(s, in1).0, in2) == Some(MenuAction::BackToStart),
    ensures
        spec_resolve(spec_resolve(s, in1).0, in2).0 == spec_resolve(s, in1).0,
        s.wf() ==> spec_resolve(s, in1).0.callstack == seq![s.start_menu_id],
{
    let s1 = spec_resolve(s, in1).0;
    let s2 = spec_resolve(s1, in2).0;
    assert(s2 =~= s1);
}

/// Quit terminality: after resolving a `Quit` action the history is empty,
/// and any further resolution fails with `EmptyCallStack` without mutating
/// anything.
pub proof fn lemma_quit_terminality(s: EngineState, in1: Seq<char>, in2: Seq<char>)
    requires
        dispatched_action(s, in1) == Some(MenuAction::Quit),
    ensures
        spec_resolve(s, in1).0.terminated(),
        spec_resolve(spec_resolve(s, in1).0, in2) == (
            spec_resolve(s, in1).0,
            Err::<ResolveOutcome, MgErrorKind>(MgErrorKind::EmptyCallStack),
        ),
{
}

/// Non-mutating failures: a resolution that fails leaves the state exactly
/// as it was. In particular the recoverable failures, `ParseInputError` and
/// `MissingMenuItem`, preserve the history.
pub proof fn lemma_failures_preserve_history(s: EngineState, input: Seq<char>)
    ensures
        spec_resolve(s, input).1 is Err ==> spec_resolve(s, input).0 == s,
{
}

/// Lazy Navigate validation, first half: resolving a `Navigate` action
/// succeeds and pushes the target id, whether or not that id names a
/// registered menu.
pub proof fn lemma_navigate_is_lazy(s: EngineState, input: Seq<char>, target: usize)
    requires
        dispatched_action(s, input) == Some(MenuAction::Navigate(target)),
    ensures
        spec_resolve(s, input).1 == Ok::<ResolveOutcome, MgErrorKind>(ResolveOutcome::Continue),
        spec_resolve(s, input).0.callstack == s.callstack.push(target),
{
}

/// Lazy Navigate validation, second half: a dangling menu id surfaces as
/// `MissingMenu` exactly when it is the current (tail) id, whatever the
/// input.
pub proof fn lemma_missing_menu_surfaces_when_current(s: EngineState, input: Seq<char>)
    requires
        !s.terminated(),
        !has_menu(s.menus, s.current_menu_id()),
    ensures
        spec_resolve(s, input) == (
            s,
            Err::<ResolveOutcome, MgErrorKind>(MgErrorKind::MissingMenu(s.current_menu_id())),
        ),
{
    lemma_has_menu_iff_found(s.menus, s.current_menu_id());
}

} // verus!
