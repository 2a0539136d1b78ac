use vstd::prelude::*;
use vstd::string::StringExecFns;

use crate::action::MenuAction;
use crate::engine::MenuGenie;
use crate::engine::has_menu;
use crate::menu::Menu;
use crate::menu::menu_has_key;
use crate::menu_item::MenuItem;

verus! {

/// The mathematical state of a [`MenuBuilder`]: the menus assembled so far
/// and the chosen starting menu id, if any.
#[verifier::ext_equal]
pub struct BuilderState {
    /// The menus assembled so far, in registration order.
    pub menus: Seq<Menu>,
    /// The starting menu id, once one is chosen.
    pub start_menu_id: Option<usize>,
}

/// The shape of the keys the builder hands out: the item at index `i` got
/// either the auto-incremented key `i + 1` or the special button key 0.
pub open spec fn builder_keys(items: Seq<MenuItem>) -> bool {
    forall|i: int|
        0 <= i < items.len() ==> ((#[trigger] items[i]).key == 0 || items[i].key == i + 1)
}

impl BuilderState {
    /// Well-formedness: menu ids are unique, every menu's item keys are
    /// unique within it, and every key is one the builder hands out.
    pub open spec fn wf(&self) -> bool {
        &&& (forall|i: int, j: int|
            0 <= i < j < self.menus.len() ==> self.menus[i].id != self.menus[j].id)
        &&& (forall|i: int| 0 <= i < self.menus.len() ==> (#[trigger] self.menus[i]).wf())
        &&& (forall|i: int|
            0 <= i < self.menus.len() ==> builder_keys(#[trigger] self.menus[i].menu_items@))
    }

    /// The items of the menu added last; menu items always join that menu.
    pub open spec fn last_items(&self) -> Seq<MenuItem> {
        self.menus.last().menu_items@
    }
}

/// A declarative assembly helper for menus.
///
/// Menus are added one at a time and given an id; menu items always join the
/// menu added last, so a menu must be added before any item. Plain items get
/// auto-incremented keys starting from 1; the special back and quit buttons
/// get key 0, so at most one of the two fits into a single menu. The first
/// menu added becomes the starting menu unless another id is chosen
/// explicitly.
pub struct MenuBuilder {
    menus: Vec<Menu>,
    start_menu_id: Option<usize>,
}

impl View for MenuBuilder {
    type V = BuilderState;

    closed spec fn view(&self) -> BuilderState {
        BuilderState { menus: self.menus@, start_menu_id: self.start_menu_id }
    }
}

impl Default for MenuBuilder {
    /// Creates a builder with no menus and no starting id.
    fn default() -> (b: MenuBuilder)
        ensures
            b@.menus == Seq::<Menu>::empty(),
            b@.start_menu_id is None,
    {
        MenuBuilder { menus: Vec::new(), start_menu_id: None }
    }
}

impl MenuBuilder {
    /// Creates a new, empty builder.
    pub fn new() -> (b: MenuBuilder)
        ensures
            b@.menus == Seq::<Menu>::empty(),
            b@.start_menu_id is None,
    {
        MenuBuilder::default()
    }

    /// Adds another, empty menu with the provided id, which no earlier menu
    /// may already carry. The first menu added sets the starting menu id.
    pub fn with_menu(self, id: usize) -> (r: MenuBuilder)
        requires
            !has_menu(self@.menus, id),
        ensures
            r@.menus.len() == self@.menus.len() + 1,
            forall|i: int| 0 <= i < self@.menus.len() ==> r@.menus[i] == self@.menus[i],
            r@.menus.last().id == id,
            r@.menus.last().menu_items@ == Seq::<MenuItem>::empty(),
            r@.start_menu_id == if self@.start_menu_id is None {
                Some(id)
            } else {
                self@.start_menu_id
            },
            self@.wf() ==> r@.wf(),
    {
        let MenuBuilder { mut menus, mut start_menu_id } = self;
        menus.push(Menu::new(id));
        if start_menu_id.is_none() {
            start_menu_id = Some(id);
        }
        let r = MenuBuilder { menus, start_menu_id };
        proof {
            if self@.wf() {
                assert forall|i: int|
                    0 <= i < self@.menus.len() implies (#[trigger] self@.menus[i]).id != id by {}
                assert(r@.wf());
            }
        }
        r
    }

    /// Adds a menu item with the provided display text and action to the
    /// menu added last. The item's key is one more than the number of items
    /// that menu already holds.
    pub fn with_menu_item(self, prompt: String, action: MenuAction) -> (r: MenuBuilder)
        requires
            self@.menus.len() > 0,
            self@.last_items().len() < usize::MAX,
        ensures
            r@.start_menu_id == self@.start_menu_id,
            r@.menus.len() == self@.menus.len(),
            forall|i: int| 0 <= i < self@.menus.len() - 1 ==> r@.menus[i] == self@.menus[i],
            r@.menus.last().id == self@.menus.last().id,
            r@.last_items() == self@.last_items().push(
                (MenuItem { prompt, action, key: (self@.last_items().len() + 1) as usize }),
            ),
            self@.wf() ==> r@.wf(),
    {
        let MenuBuilder { mut menus, start_menu_id } = self;
        let mut menu = match menus.pop() {
            Some(m) => m,
            None => unreached(),
        };
        let key = menu.menu_items.len() + 1;
        menu.menu_items.push(MenuItem { prompt, action, key });
        menus.push(menu);
        let r = MenuBuilder { menus, start_menu_id };
        proof {
            assert(r@.menus =~= self@.menus.drop_last().push(r@.menus.last()));
            assert(r@.last_items().drop_last() =~= self@.last_items());
            if self@.wf() {
                lemma_wf_after_item_push(self@, r@);
            }
        }
        r
    }

    /// Adds the special back button: display text `Back`, action `Back`, key
    /// 0. The menu added last must not already hold a key-0 item.
    pub fn with_back_button(self) -> (r: MenuBuilder)
        requires
            self@.menus.len() > 0,
            !menu_has_key(self@.last_items(), 0),
        ensures
            r@.start_menu_id == self@.start_menu_id,
            r@.menus.len() == self@.menus.len(),
            forall|i: int| 0 <= i < self@.menus.len() - 1 ==> r@.menus[i] == self@.menus[i],
            r@.menus.last().id == self@.menus.last().id,
            r@.last_items().len() == self@.last_items().len() + 1,
            r@.last_items().drop_last() == self@.last_items(),
            r@.last_items().last().key == 0,
            r@.last_items().last().action is Back,
            r@.last_items().last().prompt@ == "Back"@,
            self@.wf() ==> r@.wf(),
    {
        let prompt = ("Back").to_owned();
        self.with_key_zero_button(prompt, MenuAction::Back)
    }

    /// Adds the special quit button: display text `Quit`, action `Quit`, key
    /// 0. The menu added last must not already hold a key-0 item.
    pub fn with_quit_button(self) -> (r: MenuBuilder)
        requires
            self@.menus.len() > 0,
            !menu_has_key(self@.last_items(), 0),
        ensures
            r@.start_menu_id == self@.start_menu_id,
            r@.menus.len() == self@.menus.len(),
            forall|i: int| 0 <= i < self@.menus.len() - 1 ==> r@.menus[i] == self@.menus[i],
            r@.menus.last().id == self@.menus.last().id,
            r@.last_items().len() == self@.last_items().len() + 1,
            r@.last_items().drop_last() == self@.last_items(),
            r@.last_items().last().key == 0,
            r@.last_items().last().action is Quit,
            r@.last_items().last().prompt@ == "Quit"@,
            self@.wf() ==> r@.wf(),
    {
        let prompt = ("Quit").to_owned();
        self.with_key_zero_button(prompt, MenuAction::Quit)
    }

    /// Adds a key-0 item to the menu added last; shared by the back and quit
    /// buttons.
    fn with_key_zero_button(self, prompt: String, action: MenuAction) -> (r: MenuBuilder)
        requires
            self@.menus.len() > 0,
            !menu_has_key(self@.last_items(), 0),
        ensures
            r@.start_menu_id == self@.start_menu_id,
            r@.menus.len() == self@.menus.len(),
            forall|i: int| 0 <= i < self@.menus.len() - 1 ==> r@.menus[i] == self@.menus[i],
            r@.menus.last().id == self@.menus.last().id,
            r@.last_items() == self@.last_items().push((MenuItem { prompt, action, key: 0 })),
            self@.wf() ==> r@.wf(),
    {
        let MenuBuilder { mut menus, start_menu_id } = self;
        let mut menu = match menus.pop() {
            Some(m) => m,
            None => unreached(),
        };
        menu.menu_items.push(MenuItem { prompt, action, key: 0 });
        menus.push(menu);
        let r = MenuBuilder { menus, start_menu_id };
        proof {
            assert(r@.menus =~= self@.menus.drop_last().push(r@.menus.last()));
            assert(r@.last_items().drop_last() =~= self@.last_items());
            if self@.wf() {
                lemma_wf_after_button_push(self@, r@);
            }
        }
        r
    }

    /// Chooses the starting menu id, replacing any id chosen so far.
    pub fn with_starting_menu(self, starting_menu_id: usize) -> (r: MenuBuilder)
        ensures
            r@.menus == self@.menus,
            r@.start_menu_id == Some(starting_menu_id),
    {
        let MenuBuilder { menus, .. } = self;
        MenuBuilder { menus, start_menu_id: Some(starting_menu_id) }
    }

    /// Chooses the starting menu id, replacing any id chosen so far.
    pub fn starting_menu(self, starting_menu_id: usize) -> (r: MenuBuilder)
        ensures
            r@.menus == self@.menus,
            r@.start_menu_id == Some(starting_menu_id),
    {
        self.with_starting_menu(starting_menu_id)
    }

    /// Consumes the builder and creates the navigation engine, seeding its
    /// callstack with the starting menu id. The starting id must name a
    /// registered menu: this is the one eager validation of assembly.
    pub fn build(self) -> (g: MenuGenie)
        requires
            self@.start_menu_id matches Some(start) && has_menu(self@.menus, start),
        ensures
            g@.menus == self@.menus,
            Some(g@.start_menu_id) == self@.start_menu_id,
            g@.callstack == seq![g@.start_menu_id],
            self@.wf() ==> g@.wf(),
    {
        let MenuBuilder { menus, start_menu_id } = self;
        let start = match start_menu_id {
            Some(s) => s,
            None => unreached(),
        };
        MenuGenie::from_parts(menus, start)
    }
}

/// The parts of wf-preservation shared by every push of one item onto the
/// menu added last: everything away from that menu is untouched, and within
/// it only the new last item is new.
proof fn lemma_wf_after_any_push(b: BuilderState, r: BuilderState)
    requires
        b.wf(),
        b.menus.len() > 0,
        r.menus.len() == b.menus.len(),
        forall|i: int| 0 <= i < b.menus.len() - 1 ==> r.menus[i] == b.menus[i],
        r.menus.last().id == b.menus.last().id,
        r.last_items().len() == b.last_items().len() + 1,
        r.last_items().drop_last() == b.last_items(),
        forall|i: int|
            0 <= i < b.last_items().len() ==> (#[trigger] r.last_items()[i]).key
                != r.last_items().last().key,
        r.last_items().last().key == 0 || r.last_items().last().key == b.last_items().len() + 1,
    ensures
        r.wf(),
{
    let n = r.menus.len();
    assert forall|i: int|
        0 <= i < b.last_items().len() implies #[trigger] r.last_items()[i] == b.last_items()[i] by {
        assert(r.last_items().drop_last()[i] == r.last_items()[i]);
    }
    assert forall|i: int, j: int| 0 <= i < j < n implies r.menus[i].id != r.menus[j].id by {
        assert(r.menus[i].id == b.menus[i].id);
        assert(r.menus[j].id == b.menus[j].id);
    }
    assert forall|i: int| 0 <= i < n implies (#[trigger] r.menus[i]).wf() by {
        if i < n - 1 {
            assert(r.menus[i] == b.menus[i]);
        } else {
            assert(r.menus[i] == r.menus.last());
            assert(b.menus.last().wf());
            assert forall|p: int, q: int|
                0 <= p < q < r.last_items().len() implies r.last_items()[p].key
                != r.last_items()[q].key by {
                if q < r.last_items().len() - 1 {
                    assert(r.last_items()[p] == b.last_items()[p]);
                    assert(r.last_items()[q] == b.last_items()[q]);
                }
            }
        }
    }
    assert forall|i: int| 0 <= i < n implies builder_keys(#[trigger] r.menus[i].menu_items@) by {
        if i < n - 1 {
            assert(r.menus[i] == b.menus[i]);
        } else {
            assert(r.menus[i] == r.menus.last());
            assert(builder_keys(b.menus.last().menu_items@));
            assert forall|p: int|
                0 <= p < r.last_items().len() implies ((#[trigger] r.last_items()[p]).key == 0
                || r.last_items()[p].key == p + 1) by {
                if p < r.last_items().len() - 1 {
                    assert(r.last_items()[p] == b.last_items()[p]);
                }
            }
        }
    }
}

/// Pushing the auto-incremented key onto the menu added last keeps the
/// builder well-formed: every earlier key is 0 or at most the item count, so
/// the new key is fresh.
proof fn lemma_wf_after_item_push(b: BuilderState, r: BuilderState)
    requires
        b.wf(),
        b.menus.len() > 0,
        r.menus.len() == b.menus.len(),
        forall|i: int| 0 <= i < b.menus.len() - 1 ==> r.menus[i] == b.menus[i],
        r.menus.last().id == b.menus.last().id,
        r.last_items().len() == b.last_items().len() + 1,
        r.last_items().drop_last() == b.last_items(),
        r.last_items().last().key == b.last_items().len() + 1,
    ensures
        r.wf(),
{
    assert(builder_keys(b.menus.last().menu_items@));
    assert forall|i: int|
        0 <= i < b.last_items().len() implies (#[trigger] r.last_items()[i]).key
        != r.last_items().last().key by {
        assert(r.last_items().drop_last()[i] == r.last_items()[i]);
        assert(b.last_items()[i].key == 0 || b.last_items()[i].key == i + 1);
    }
    lemma_wf_after_any_push(b, r);
}

/// Pushing a key-0 button onto a menu that holds no key-0 item keeps the
/// builder well-formed.
proof fn lemma_wf_after_button_push(b: BuilderState, r: BuilderState)
    requires
        b.wf(),
        b.menus.len() > 0,
        r.menus.len() == b.menus.len(),
        forall|i: int| 0 <= i < b.menus.len() - 1 ==> r.menus[i] == b.menus[i],
        r.menus.last().id == b.menus.last().id,
        r.last_items().len() == b.last_items().len() + 1,
        r.last_items().drop_last() == b.last_items(),
        r.last_items().last().key == 0,
        !menu_has_key(b.last_items(), 0),
    ensures
        r.wf(),
{
    assert forall|i: int|
        0 <= i < b.last_items().len() implies (#[trigger] r.last_items()[i]).key
        != r.last_items().last().key by {
        assert(r.last_items().drop_last()[i] == r.last_items()[i]);
        assert(b.last_items()[i].key != 0);
    }
    lemma_wf_after_any_push(b, r);
}

} // verus!
