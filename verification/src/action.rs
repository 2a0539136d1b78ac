use vstd::prelude::*;

verus! {

/// What selecting a menu item does to the navigation callstack.
#[derive(Clone, Copy, Debug, PartialEq, Eq, Structural)]
pub enum MenuAction {
    /// Pop one level of navigation history.
    Back,
    /// Collapse the navigation history to only the starting menu.
    BackToStart,
    /// Clear the navigation history entirely, terminating the session.
    Quit,
    /// Push the target menu id onto the navigation history.
    Navigate(usize),
    /// Leave the history untouched; the selection is a genuine leaf and is
    /// reported back to the caller.
    Nothing,
}

} // verus!
