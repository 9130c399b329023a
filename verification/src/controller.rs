//! The intents of the presentation layer, resolved into a change of the list
//! and the bytes to keep it under.

use vstd::prelude::*;

use crate::error::StoreError;
use crate::gateway::bytes_of;
use crate::gateway::load;
use crate::gateway::loaded;
use crate::gateway::save;
use crate::gateway::saved;
use crate::item::Item;
use crate::item::ItemView;
use crate::store::ItemStore;

verus! {

/// The list after a new item with this text was added: it stands first and
/// is not completed.
pub open spec fn after_add(items: Seq<ItemView>, description: Seq<char>) -> Seq<ItemView> {
    items.insert(0, ItemView { completed: false, description })
}

/// The list after the flag at `index` was to be turned over: where it has
/// no item at `index`, it is as it was.
pub open spec fn after_toggle(items: Seq<ItemView>, index: int) -> Seq<ItemView> {
    if 0 <= index < items.len() {
        items.update(index, items[index].toggled())
    } else {
        items
    }
}

/// The list after the item at `index` was to be taken out: where it has no
/// item at `index`, it is as it was.
pub open spec fn after_remove(items: Seq<ItemView>, index: int) -> Seq<ItemView> {
    if 0 <= index < items.len() {
        items.remove(index)
    } else {
        items
    }
}

/// Owns the list and answers the presentation layer. An intent changes the
/// list in memory and hands back the bytes under which the new list is to be
/// stored; writing them is the caller's part. Where no such bytes can be
/// made, the change stands all the same and the failed save is reported.
pub struct Controller {
    store: ItemStore,
}

/// What a removal hands back.
#[derive(Debug)]
pub struct Removed {
    /// The item that was taken out.
    pub item: Item,
    /// The bytes to store the remaining list under, or the failed save.
    pub stored: Result<Vec<u8>, StoreError>,
}

impl View for Controller {
    type V = Seq<ItemView>;

    closed spec fn view(&self) -> Seq<ItemView> {
        self.store@
    }
}

/// What an intent reports of the save that follows the change: bytes that
/// are a stored form of the list, or `StorageWrite`.
pub open spec fn stored_as(stored: Result<Vec<u8>, StoreError>, items: Seq<ItemView>) -> bool {
    match stored {
        Ok(bytes) => saved(items, bytes@),
        Err(e) => e == StoreError::StorageWrite,
    }
}

impl Controller {
    /// A controller with an empty list.
    pub fn new() -> (controller: Controller)
        ensures
            controller@ == Seq::<ItemView>::empty(),
    {
        Controller { store: ItemStore::new() }
    }

    /// The current list, for rendering.
    pub fn get_items(&self) -> (items: &Vec<Item>)
        ensures
            items.deep_view() == self@,
    {
        self.store.snapshot()
    }

    /// Fills the list from the contents of the store file (`None`: there is no
    /// file). Where the contents are corrupt the list is left empty and the
    /// error is handed back.
    pub fn load_on_startup(&mut self, contents: Option<&[u8]>) -> (r: Result<(), StoreError>)
        ensures
            match loaded(bytes_of(contents)) {
                Ok(items) => r is Ok && final(self)@ == items,
                Err(e) => r == Err::<(), StoreError>(e) && final(self)@ == Seq::<ItemView>::empty(),
            },
    {
        match load(contents) {
            Ok(items) => {
                self.store.replace_all(items);
                Ok(())
            },
            Err(e) => {
                self.store.replace_all(Vec::new());
                assert(self.store@ =~= Seq::<ItemView>::empty());
                Err(e)
            },
        }
    }

    /// Adds a new, incomplete item with this text at the front of the list.
    pub fn add_item(&mut self, description: String) -> (stored: Result<Vec<u8>, StoreError>)
        ensures
            final(self)@ == after_add(old(self)@, description@),
            stored_as(stored, final(self)@),
    {
        self.store.insert(0, Item::new(description));
        save(self.store.snapshot())
    }

    /// Turns over the flag of the item at `index`. Where the list has no such
    /// item, it stays as it is and the index is reported.
    pub fn toggle_item(&mut self, index: usize) -> (stored: Result<Vec<u8>, StoreError>)
        ensures
            final(self)@ == after_toggle(old(self)@, index as int),
            index < old(self)@.len() ==> stored_as(stored, final(self)@),
            index >= old(self)@.len() ==> stored == Err::<Vec<u8>, StoreError>(
                StoreError::IndexOutOfRange { index, len: old(self)@.len() as usize },
            ),
    {
        let len: usize = self.store.len();
        if index >= len {
            return Err(StoreError::IndexOutOfRange { index, len });
        }
        self.store.toggle(index);
        save(self.store.snapshot())
    }

    /// Takes the item at `index` out of the list and hands it back. Where the
    /// list has no such item, it stays as it is and the index is reported.
    pub fn remove_item(&mut self, index: usize) -> (r: Result<Removed, StoreError>)
        ensures
            final(self)@ == after_remove(old(self)@, index as int),
            index < old(self)@.len() ==> (r matches Ok(removed) && removed.item@ == old(
                self,
            )@[index as int] && stored_as(removed.stored, final(self)@)),
            index >= old(self)@.len() ==> r == Err::<Removed, StoreError>(
                StoreError::IndexOutOfRange { index, len: old(self)@.len() as usize },
            ),
    {
        let len: usize = self.store.len();
        if index >= len {
            return Err(StoreError::IndexOutOfRange { index, len });
        }
        let item = self.store.remove(index);
        let stored = save(self.store.snapshot());
        Ok(Removed { item, stored })
    }
}

} // verus!
