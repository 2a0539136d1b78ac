use vstd::prelude::*;
use vstd::string::StringExecFns;

use crate::digits::push_digits;
use crate::digits::spec_digits;

verus! {

/// The machine-matchable discriminant of an [`MgError`], so callers can
/// branch programmatically rather than parse text.
#[derive(Clone, Copy, Debug, PartialEq, Eq, Structural)]
pub enum MgErrorKind {
    /// The engine was driven after its callstack became empty: a caller
    /// error, recommended to be treated as fatal.
    EmptyCallStack,
    /// A referenced menu id does not exist in the registry: a configuration
    /// defect, recommended to be treated as fatal.
    MissingMenu(usize),
    /// The entered key matches no item of the current menu: recoverable, the
    /// caller should re-display and re-prompt.
    MissingMenuItem(usize, usize),
    /// The raw input was not a valid non-negative integer: recoverable, the
    /// caller should re-prompt.
    ParseInputError,
    /// The caller's input/output boundary failed; the engine itself performs
    /// no input or output, so this kind is only ever built by the caller.
    IoError,
}

/// The description text the library attaches to each error kind it produces
/// itself. `IoError` carries caller-supplied text instead and has no
/// canonical description.
pub open spec fn spec_kind_description(k: MgErrorKind) -> Seq<char> {
    match k {
        MgErrorKind::EmptyCallStack => "Callstack is empty"@,
        MgErrorKind::MissingMenu(id) => "Missing menu with id "@ + spec_digits(id as int),
        MgErrorKind::MissingMenuItem(menu_id, item_id) => "Missing menu item with id "@
            + spec_digits(item_id as int) + " in menu with id "@ + spec_digits(menu_id as int),
        MgErrorKind::ParseInputError => "Failed to parse input as a menu item key"@,
        MgErrorKind::IoError => Seq::<char>::empty(),
    }
}

/// A failure of the navigation engine: a machine-matchable kind plus a
/// human-readable description.
#[derive(Debug)]
pub struct MgError {
    kind: MgErrorKind,
    description: String,
}

impl MgError {
    /// The kind this error carries.
    pub closed spec fn kind_spec(&self) -> MgErrorKind {
        self.kind
    }

    /// The description text this error carries.
    pub closed spec fn description_spec(&self) -> Seq<char> {
        self.description@
    }

    /// Returns the kind of this error.
    pub fn kind(&self) -> (k: MgErrorKind)
        ensures
            k == self.kind_spec(),
    {
        self.kind
    }

    /// Returns the human-readable description of this error.
    pub fn description(&self) -> (d: &String)
        ensures
            d@ == self.description_spec(),
    {
        &self.description
    }

    /// Creates an `EmptyCallStack` error.
    pub fn empty_call_stack() -> (e: MgError)
        ensures
            e.kind_spec() == MgErrorKind::EmptyCallStack,
            e.description_spec() == spec_kind_description(MgErrorKind::EmptyCallStack),
    {
        MgError { kind: MgErrorKind::EmptyCallStack, description: ("Callstack is empty").to_owned() }
    }

    /// Creates a `MissingMenu` error for the menu id that could not be found.
    pub fn missing_menu(id: usize) -> (e: MgError)
        ensures
            e.kind_spec() == MgErrorKind::MissingMenu(id),
            e.description_spec() == spec_kind_description(MgErrorKind::MissingMenu(id)),
    {
        let mut description = ("Missing menu with id ").to_owned();
        push_digits(id, &mut description);
        MgError { kind: MgErrorKind::MissingMenu(id), description }
    }

    /// Creates a `MissingMenuItem` error for the key that matched no item of
    /// the menu.
    pub fn missing_menu_item(menu_id: usize, item_id: usize) -> (e: MgError)
        ensures
            e.kind_spec() == MgErrorKind::MissingMenuItem(menu_id, item_id),
            e.description_spec() == spec_kind_description(
                MgErrorKind::MissingMenuItem(menu_id, item_id),
            ),
    {
        let mut description = ("Missing menu item with id ").to_owned();
        push_digits(item_id, &mut description);
        description.append(" in menu with id ");
        push_digits(menu_id, &mut description);
        proof {
            assert(description@ =~= spec_kind_description(
                MgErrorKind::MissingMenuItem(menu_id, item_id),
            ));
        }
        MgError { kind: MgErrorKind::MissingMenuItem(menu_id, item_id), description }
    }

    /// Creates a `ParseInputError`.
    pub fn parse_input_error() -> (e: MgError)
        ensures
            e.kind_spec() == MgErrorKind::ParseInputError,
            e.description_spec() == spec_kind_description(MgErrorKind::ParseInputError),
    {
        MgError {
            kind: MgErrorKind::ParseInputError,
            description: ("Failed to parse input as a menu item key").to_owned(),
        }
    }

    /// Creates an `IoError` carrying the caller's description of the failure.
    pub fn io_error(description: String) -> (e: MgError)
        ensures
            e.kind_spec() == MgErrorKind::IoError,
            e.description_spec() == description@,
    {
        MgError { kind: MgErrorKind::IoError, description }
    }
}

} // verus!
