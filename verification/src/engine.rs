use vstd::prelude::*;

use crate::action::MenuAction;
use crate::digits::key_of_input;
use crate::digits::parse_key;
use crate::digits::valid_key_input;
use crate::error::MgError;
use crate::error::MgErrorKind;
use crate::error::spec_kind_description;
use crate::menu::Menu;
use crate::menu::spec_find_item;

verus! {

/// What a successfully resolved user action reports back to the caller.
#[derive(Clone, Copy, Debug, PartialEq, Eq, Structural)]
pub enum ResolveOutcome {
    /// The user picked a leaf item: the id of the menu it belongs to and the
    /// item's key, for domain handling by the caller.
    Selected(usize, usize),
    /// The action mutated the navigation state; the caller should re-display
    /// the now-current menu (or detect termination) and prompt again.
    Continue,
}

/// The mathematical state of a [`MenuGenie`]: the registered menus, the
/// navigation callstack, and the menu id the session began at.
#[verifier::ext_equal]
pub struct EngineState {
    /// The registered menus, in registration order.
    pub menus: Seq<Menu>,
    /// The navigation history, a stack of menu ids growing at the tail.
    pub callstack: Seq<usize>,
    /// The menu id the session began at.
    pub start_menu_id: usize,
}

/// The first menu of `menus` whose id is `id`, if any.
pub open spec fn spec_find_menu(menus: Seq<Menu>, id: usize) -> Option<Menu>
    decreases menus.len(),
{
    if menus.len() == 0 {
        None
    } else if menus[0].id == id {
        Some(menus[0])
    } else {
        spec_find_menu(menus.drop_first(), id)
    }
}

/// Whether some menu of `menus` has id `id`.
pub open spec fn has_menu(menus: Seq<Menu>, id: usize) -> bool {
    exists|i: int| 0 <= i < menus.len() && (#[trigger] menus[i]).id == id
}

/// A menu id is present among `menus` exactly when `spec_find_menu` finds a
/// menu for it.
pub proof fn lemma_has_menu_iff_found(menus: Seq<Menu>, id: usize)
    ensures
        has_menu(menus, id) <==> spec_find_menu(menus, id) is Some,
    decreases menus.len(),
{
    if menus.len() > 0 {
        lemma_has_menu_iff_found(menus.drop_first(), id);
        assert(forall|i: int|
            0 < i < menus.len() ==> menus.drop_first()[i - 1] == #[trigger] menus[i]);
        if has_menu(menus.drop_first(), id) {
            let i = choose|i: int|
                0 <= i < menus.drop_first().len() && (#[trigger] menus.drop_first()[i]).id == id;
            assert(menus[i + 1].id == id);
        }
    }
}

impl EngineState {
    /// Well-formedness: menu ids are unique across the registry, every menu's
    /// item keys are unique within it, and a non-empty callstack starts at
    /// the starting menu id.
    pub open spec fn wf(&self) -> bool {
        &&& (forall|i: int, j: int|
            0 <= i < j < self.menus.len() ==> self.menus[i].id != self.menus[j].id)
        &&& (forall|i: int| 0 <= i < self.menus.len() ==> (#[trigger] self.menus[i]).wf())
        &&& (self.callstack.len() > 0 ==> self.callstack[0] == self.start_menu_id)
    }

    /// The engine is terminated once its callstack is empty; it must not be
    /// driven further.
    pub open spec fn terminated(&self) -> bool {
        self.callstack.len() == 0
    }

    /// The id of the current menu: the tail of a non-empty callstack.
    pub open spec fn current_menu_id(&self) -> usize {
        self.callstack.last()
    }
}

/// The full meaning of resolving one user action: from a state and a raw
/// input, the state afterwards and what the call reports.
///
/// In order: an empty callstack fails with `EmptyCallStack`; a current menu
/// id absent from the registry fails with `MissingMenu`; an input that is no
/// valid key fails with `ParseInputError`; a key matching no item of the
/// current menu fails with `MissingMenuItem`. No failure mutates the state.
/// Otherwise the found item's action decides: `Back` pops the callstack,
/// `BackToStart` collapses it to its first element, `Quit` clears it,
/// `Navigate` pushes the target id (without checking that it names a
/// registered menu), and `Nothing` leaves the state alone and reports the
/// selection.
pub open spec fn spec_resolve(s: EngineState, input: Seq<char>) -> (EngineState, Result<
    ResolveOutcome,
    MgErrorKind,
>) {
    if s.callstack.len() == 0 {
        (s, Err(MgErrorKind::EmptyCallStack))
    } else {
        let cur = s.callstack.last();
        match spec_find_menu(s.menus, cur) {
            None => (s, Err(MgErrorKind::MissingMenu(cur))),
            Some(menu) => if !valid_key_input(input) {
                (s, Err(MgErrorKind::ParseInputError))
            } else {
                let key = key_of_input(input);
                match spec_find_item(menu.menu_items@, key) {
                    None => (s, Err(MgErrorKind::MissingMenuItem(cur, key))),
                    Some(item) => match item.action {
                        MenuAction::Back => (
                            (EngineState { callstack: s.callstack.drop_last(), ..s }),
                            Ok(ResolveOutcome::Continue),
                        ),
                        MenuAction::BackToStart => (
                            (EngineState { callstack: seq![s.callstack[0]], ..s }),
                            Ok(ResolveOutcome::Continue),
                        ),
                        MenuAction::Quit => (
                            (EngineState { callstack: Seq::<usize>::empty(), ..s }),
                            Ok(ResolveOutcome::Continue),
                        ),
                        MenuAction::Navigate(target) => (
                            (EngineState { callstack: s.callstack.push(target), ..s }),
                            Ok(ResolveOutcome::Continue),
                        ),
                        MenuAction::Nothing => (s, Ok(ResolveOutcome::Selected(cur, key))),
                    },
                }
            },
        }
    }
}

/// The outcome of an exec resolution with each error reduced to its kind.
pub open spec fn outcome_kinds(r: Result<ResolveOutcome, MgError>) -> Result<
    ResolveOutcome,
    MgErrorKind,
> {
    match r {
        Ok(o) => Ok(o),
        Err(e) => Err(e.kind_spec()),
    }
}

/// The navigation engine: the menu registry plus the callstack of menu ids
/// that tracks which menu is current.
pub struct MenuGenie {
    pub(crate) menus: Vec<Menu>,
    pub(crate) start_menu_id: usize,
    pub(crate) callstack: Vec<usize>,
}

impl View for MenuGenie {
    type V = EngineState;

    closed spec fn view(&self) -> EngineState {
        EngineState {
            menus: self.menus@,
            callstack: self.callstack@,
            start_menu_id: self.start_menu_id,
        }
    }
}

impl MenuGenie {
    /// Creates an engine over the given menus, seeding the callstack with
    /// the starting menu id.
    pub(crate) fn from_parts(menus: Vec<Menu>, start_menu_id: usize) -> (g: MenuGenie)
        ensures
            g@.menus == menus@,
            g@.start_menu_id == start_menu_id,
            g@.callstack == seq![start_menu_id],
    {
        let mut callstack: Vec<usize> = Vec::new();
        callstack.push(start_menu_id);
        proof {
            assert(callstack@ =~= seq![start_menu_id]);
        }
        MenuGenie { menus, start_menu_id, callstack }
    }

    /// Returns the first menu whose id is `menu_id`, or `None` when no menu
    /// of the registry has that id.
    pub fn get_menu(&self, menu_id: usize) -> (r: Option<&Menu>)
        ensures
            match r {
                Some(m) => spec_find_menu(self@.menus, menu_id) == Some(*m),
                None => spec_find_menu(self@.menus, menu_id) is None,
            },
    {
        let n = self.menus.len();
        let mut i: usize = 0;
        proof {
            assert(self.menus@.skip(0) =~= self.menus@);
        }
        while i < n
            invariant
                0 <= i <= n,
                n == self.menus@.len(),
                spec_find_menu(self@.menus, menu_id) == spec_find_menu(
                    self.menus@.skip(i as int),
                    menu_id,
                ),
            decreases n - i,
        {
            if self.menus[i].id == menu_id {
                proof {
                    assert(self.menus@.skip(i as int)[0] == self.menus@[i as int]);
                }
                return Some(&self.menus[i]);
            }
            proof {
                assert(self.menus@.skip(i as int).drop_first() =~= self.menus@.skip(i as int + 1));
            }
            i = i + 1;
        }
        proof {
            assert(self.menus@.skip(n as int) =~= Seq::<Menu>::empty());
        }
        None
    }

    /// Returns the current menu: the one named by the tail of the callstack.
    /// Fails with `EmptyCallStack` when the session is terminated and with
    /// `MissingMenu` when the tail id is not registered.
    pub fn get_current_menu(&self) -> (r: Result<&Menu, MgError>)
        ensures
            match r {
                Ok(m) => !self@.terminated() && spec_find_menu(self@.menus, self@.current_menu_id())
                    == Some(*m),
                Err(e) => {
                    &&& e.description_spec() == spec_kind_description(e.kind_spec())
                    &&& if self@.terminated() {
                        e.kind_spec() == MgErrorKind::EmptyCallStack
                    } else {
                        &&& spec_find_menu(self@.menus, self@.current_menu_id()) is None
                        &&& e.kind_spec() == MgErrorKind::MissingMenu(self@.current_menu_id())
                    }
                },
            },
    {
        if self.callstack.len() == 0 {
            return Err(MgError::empty_call_stack());
        }
        let cur = self.callstack[self.callstack.len() - 1];
        match self.get_menu(cur) {
            Some(m) => Ok(m),
            None => Err(MgError::missing_menu(cur)),
        }
    }

    /// Returns the current menu of an engine known to be active and
    /// well-configured.
    pub fn get_current_menu_unchecked(&self) -> (r: &Menu)
        requires
            !self@.terminated(),
            has_menu(self@.menus, self@.current_menu_id()),
        ensures
            spec_find_menu(self@.menus, self@.current_menu_id()) == Some(*r),
    {
        proof {
            lemma_has_menu_iff_found(self@.menus, self@.current_menu_id());
        }
        let cur = self.callstack[self.callstack.len() - 1];
        match self.get_menu(cur) {
            Some(m) => m,
            None => unreached(),
        }
    }

    /// Pops one level of navigation history.
    pub fn back(&mut self)
        requires
            !old(self)@.terminated(),
        ensures
            final(self)@ =~= (EngineState {
                callstack: old(self)@.callstack.drop_last(),
                ..old(self)@
            }),
    {
        self.callstack.pop();
    }

    /// Collapses the navigation history to only its first entry.
    pub fn back_to_start(&mut self)
        requires
            !old(self)@.terminated(),
        ensures
            final(self)@ =~= (EngineState {
                callstack: seq![old(self)@.callstack[0]],
                ..old(self)@
            }),
    {
        self.callstack.truncate(1);
        proof {
            assert(old(self).callstack@.subrange(0, 1) =~= seq![old(self)@.callstack[0]]);
        }
    }

    /// Clears the navigation history entirely, terminating the session.
    pub fn quit(&mut self)
        ensures
            final(self)@ =~= (EngineState { callstack: Seq::<usize>::empty(), ..old(self)@ }),
    {
        self.callstack.clear();
    }

    /// Pushes `menu_id` onto the navigation history. Whether `menu_id` names
    /// a registered menu is not checked here: a dangling target surfaces as
    /// `MissingMenu` only when that menu becomes current.
    pub fn navigate(&mut self, menu_id: usize)
        ensures
            final(self)@ =~= (EngineState {
                callstack: old(self)@.callstack.push(menu_id),
                ..old(self)@
            }),
    {
        self.callstack.push(menu_id);
    }

    /// Resets the navigation history to the starting menu alone,
    /// re-activating the engine even from the terminated state.
    pub fn restart(&mut self)
        ensures
            final(self)@ =~= (EngineState {
                callstack: seq![old(self)@.start_menu_id],
                ..old(self)@
            }),
    {
        self.callstack.clear();
        let start = self.start_menu_id;
        self.callstack.push(start);
        proof {
            assert(Seq::<usize>::empty().push(old(self)@.start_menu_id) =~= seq![
                old(self)@.start_menu_id,
            ]);
        }
    }

    /// Whether the session has terminated: the callstack is empty and the
    /// caller should stop resolving selections.
    pub fn is_terminated(&self) -> (r: bool)
        ensures
            r == self@.terminated(),
    {
        self.callstack.len() == 0
    }

    /// Returns the navigation history, bottom of the stack first.
    pub fn callstack(&self) -> (r: &Vec<usize>)
        ensures
            r@ == self@.callstack,
    {
        &self.callstack
    }

    /// Returns the menu id the session began at.
    pub fn start_menu_id(&self) -> (r: usize)
        ensures
            r == self@.start_menu_id,
    {
        self.start_menu_id
    }

    /// Resolves one user action: interprets `input` against the current menu
    /// and either mutates the navigation history or reports a leaf
    /// selection, exactly as [`spec_resolve`] says.
    pub fn resolve_selection(&mut self, input: &str) -> (r: Result<ResolveOutcome, MgError>)
        ensures
            final(self)@ == spec_resolve(old(self)@, input@).0,
            outcome_kinds(r) == spec_resolve(old(self)@, input@).1,
            r matches Err(e) ==> e.description_spec() == spec_kind_description(e.kind_spec()),
            old(self)@.wf() ==> final(self)@.wf(),
    {
        if self.callstack.len() == 0 {
            return Err(MgError::empty_call_stack());
        }
        let cur = self.callstack[self.callstack.len() - 1];
        let action: MenuAction;
        let key: usize;
        match self.get_menu(cur) {
            None => {
                return Err(MgError::missing_menu(cur));
            },
            Some(menu) => {
                key = match parse_key(input) {
                    Some(k) => k,
                    None => {
                        return Err(MgError::parse_input_error());
                    },
                };
                action = match menu.get_menu_item(key) {
                    Some(item) => item.action,
                    None => {
                        return Err(MgError::missing_menu_item(cur, key));
                    },
                };
            },
        }
        match action {
            MenuAction::Back => {
                self.callstack.pop();
                Ok(ResolveOutcome::Continue)
            },
            MenuAction::BackToStart => {
                self.callstack.truncate(1);
                proof {
                    assert(old(self).callstack@.subrange(0, 1) =~= seq![old(self)@.callstack[0]]);
                    assert(self@ =~= spec_resolve(old(self)@, input@).0);
                }
                Ok(ResolveOutcome::Continue)
            },
            MenuAction::Quit => {
                self.callstack.clear();
                Ok(ResolveOutcome::Continue)
            },
            MenuAction::Navigate(target) => {
                self.callstack.push(target);
                Ok(ResolveOutcome::Continue)
            },
            MenuAction::Nothing => Ok(ResolveOutcome::Selected(cur, key)),
        }
    }
}

} // verus!
