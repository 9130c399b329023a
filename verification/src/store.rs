use vstd::prelude::*;

use crate::item::Item;
use crate::item::ItemView;

verus! {

/// The list in memory: items in display order, addressed by position.
pub struct ItemStore {
    items: Vec<Item>,
}

impl View for ItemStore {
    type V = Seq<ItemView>;

    closed spec fn view(&self) -> Seq<ItemView> {
        self.items.deep_view()
    }
}

impl ItemStore {
    /// An empty store.
    pub fn new() -> (store: ItemStore)
        ensures
            store@ == Seq::<ItemView>::empty(),
    {
        ItemStore { items: Vec::new() }
    }

    /// How many items the store holds.
    pub fn len(&self) -> (n: usize)
        ensures
            n == self@.len(),
    {
        self.items.len()
    }

    /// Puts `item` at position `index`; the items from there on move one
    /// place later.
    pub fn insert(&mut self, index: usize, item: Item)
        requires
            index <= old(self)@.len(),
        ensures
            final(self)@ == old(self)@.insert(index as int, item@),
    {
        self.items.insert(index, item);
        assert(self.items.deep_view() =~= old(self).items.deep_view().insert(index as int, item@));
    }

    /// Takes the item at position `index` out; the items after it move one
    /// place earlier.
    pub fn remove(&mut self, index: usize) -> (item: Item)
        requires
            index < old(self)@.len(),
        ensures
            item@ == old(self)@[index as int],
            final(self)@ == old(self)@.remove(index as int),
    {
        let item = self.items.remove(index);
        assert(self.items.deep_view() =~= old(self).items.deep_view().remove(index as int));
        item
    }

    /// Turns over the flag of the item at position `index`.
    pub fn toggle(&mut self, index: usize)
        requires
            index < old(self)@.len(),
        ensures
            final(self)@ == old(self)@.update(index as int, old(self)@[index as int].toggled()),
    {
        self.items[index].completed = !self.items[index].completed;
        assert(self.items.deep_view() =~= old(self).items.deep_view().update(
            index as int,
            old(self).items.deep_view()[index as int].toggled(),
        ));
    }

    /// The list as it stands.
    pub fn snapshot(&self) -> (items: &Vec<Item>)
        ensures
            items.deep_view() == self@,
    {
        &self.items
    }

    /// Makes `items` the whole content of the store.
    pub fn replace_all(&mut self, items: Vec<Item>)
        ensures
            final(self)@ == items.deep_view(),
    {
        self.items = items;
    }
}

} // verus!
