use vstd::prelude::*;

use crate::action::MenuAction;

verus! {

/// One selectable entry of a menu: a display text, a selection key that is
/// unique within its owning menu, and the action selecting it performs.
#[derive(Debug)]
pub struct MenuItem {
    /// The display text shown for this item.
    pub prompt: String,
    /// The action performed when this item is selected.
    pub action: MenuAction,
    /// The key the user enters to select this item.
    pub key: usize,
}

} // verus!
