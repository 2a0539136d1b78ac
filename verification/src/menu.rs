use vstd::prelude::*;

use crate::menu_item::MenuItem;

verus! {

/// A named, ordered collection of menu items. The `id` is unique across the
/// whole registry; the item order is the display order.
#[derive(Debug)]
pub struct Menu {
    /// The id under which the registry reaches this menu.
    pub id: usize,
    /// The items of this menu, in display order.
    pub menu_items: Vec<MenuItem>,
}

/// The first item of `items` whose key is `key`, if any.
pub open spec fn spec_find_item(items: Seq<MenuItem>, key: usize) -> Option<MenuItem>
    decreases items.len(),
{
    if items.len() == 0 {
        None
    } else if items[0].key == key {
        Some(items[0])
    } else {
        spec_find_item(items.drop_first(), key)
    }
}

/// Whether some item of `items` has key `key`.
pub open spec fn menu_has_key(items: Seq<MenuItem>, key: usize) -> bool {
    exists|i: int| 0 <= i < items.len() && (#[trigger] items[i]).key == key
}

/// A key is present among `items` exactly when `spec_find_item` finds an
/// item for it.
pub proof fn lemma_has_key_iff_found(items: Seq<MenuItem>, key: usize)
    ensures
        menu_has_key(items, key) <==> spec_find_item(items, key) is Some,
    decreases items.len(),
{
    if items.len() > 0 {
        lemma_has_key_iff_found(items.drop_first(), key);
        assert(forall|i: int|
            0 < i < items.len() ==> items.drop_first()[i - 1] == #[trigger] items[i]);
        if menu_has_key(items.drop_first(), key) {
            let i = choose|i: int|
                0 <= i < items.drop_first().len() && (#[trigger] items.drop_first()[i]).key == key;
            assert(items[i + 1].key == key);
        }
    }
}

impl Menu {
    /// No two items of this menu share a selection key.
    pub open spec fn wf(&self) -> bool {
        forall|i: int, j: int|
            0 <= i < j < self.menu_items@.len() ==> self.menu_items@[i].key
                != self.menu_items@[j].key
    }

    /// Creates an empty menu with the given id.
    pub fn new(id: usize) -> (m: Menu)
        ensures
            m.id == id,
            m.menu_items@ == Seq::<MenuItem>::empty(),
    {
        Menu { id, menu_items: Vec::new() }
    }

    /// Returns the first item whose key is `key`, or `None` when no item of
    /// this menu has that key.
    pub fn get_menu_item(&self, key: usize) -> (r: Option<&MenuItem>)
        ensures
            match r {
                Some(item) => spec_find_item(self.menu_items@, key) == Some(*item),
                None => spec_find_item(self.menu_items@, key) is None,
            },
    {
        let n = self.menu_items.len();
        let mut i: usize = 0;
        proof {
            assert(self.menu_items@.skip(0) =~= self.menu_items@);
        }
        while i < n
            invariant
                0 <= i <= n,
                n == self.menu_items@.len(),
                spec_find_item(self.menu_items@, key) == spec_find_item(
                    self.menu_items@.skip(i as int),
                    key,
                ),
            decreases n - i,
        {
            if self.menu_items[i].key == key {
                proof {
                    assert(self.menu_items@.skip(i as int)[0] == self.menu_items@[i as int]);
                }
                return Some(&self.menu_items[i]);
            }
            proof {
                assert(self.menu_items@.skip(i as int).drop_first() =~= self.menu_items@.skip(
                    i as int + 1,
                ));
            }
            i = i + 1;
        }
        proof {
            assert(self.menu_items@.skip(n as int) =~= Seq::<MenuItem>::empty());
        }
        None
    }
}

} // verus!
