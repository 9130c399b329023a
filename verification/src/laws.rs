//! What holds of the list and of its stored form, whatever the list.

use vstd::prelude::*;

use crate::controller::after_add;
use crate::controller::after_remove;
use crate::controller::after_toggle;
use crate::controller::stored_as;
use crate::error::StoreError;
use crate::gateway::loaded;
use crate::gateway::saved;
use crate::item::ItemView;

verus! {

/// Loading the bytes under which a list was saved gives that list back: the
/// same items, in the same order, with the same fields.
pub proof fn law_round_trip(items: Seq<ItemView>, bytes: Seq<u8>)
    requires
        saved(items, bytes),
    ensures
        loaded(Some(bytes)) == Ok::<Seq<ItemView>, StoreError>(items),
{
}

/// After an intent, the bytes handed back for storing load as the list that
/// the intent left in memory.
pub proof fn law_stored_matches_memory(stored: Result<Vec<u8>, StoreError>, items: Seq<ItemView>)
    requires
        stored_as(stored, items),
    ensures
        stored matches Ok(bytes) ==> loaded(Some(bytes@)) == Ok::<Seq<ItemView>, StoreError>(items),
{
}

/// On the first run there is nothing to load: no file and an empty file both
/// give the empty list, and no error.
pub proof fn law_first_run()
    ensures
        loaded(None) == Ok::<Seq<ItemView>, StoreError>(Seq::empty()),
        loaded(Some(Seq::empty())) == Ok::<Seq<ItemView>, StoreError>(Seq::empty()),
{
}

/// A new item stands first, and the items that were there follow in their
/// order.
pub proof fn law_add_prepends(items: Seq<ItemView>, description: Seq<char>)
    ensures
        after_add(items, description).len() == items.len() + 1,
        after_add(items, description)[0] == (ItemView { completed: false, description }),
        after_add(items, description).skip(1) == items,
{
    assert(after_add(items, description).skip(1) =~= items);
}

/// Toggling the same position twice gives the list back: the flag is as it
/// was, and neither a text nor the order has changed.
pub proof fn law_toggle_twice(items: Seq<ItemView>, index: int)
    ensures
        after_toggle(after_toggle(items, index), index) == items,
        after_toggle(items, index).len() == items.len(),
        forall|k: int|
            0 <= k < items.len() ==> #[trigger] after_toggle(items, index)[k].description
                == items[k].description,
{
    assert(after_toggle(after_toggle(items, index), index) =~= items);
}

/// Removing shifts the later items one place earlier and leaves the earlier
/// ones where they were.
pub proof fn law_remove_shifts(items: Seq<ItemView>, index: int)
    requires
        0 <= index < items.len(),
    ensures
        after_remove(items, index).len() == items.len() - 1,
        forall|k: int| 0 <= k < index ==> #[trigger] after_remove(items, index)[k] == items[k],
        forall|k: int|
            index <= k < items.len() - 1 ==> #[trigger] after_remove(items, index)[k] == items[k
                + 1],
{
}

} // verus!
