use vstd::prelude::*;

verus! {

/// What can go wrong with the list or with its stored form.
#[derive(Debug, Clone, Copy, PartialEq, Eq, Structural)]
pub enum StoreError {
    /// The list could not be brought into storage: no bytes could be made for
    /// it, or the bytes could not be written.
    StorageWrite,
    /// The stored bytes do not hold a list.
    StorageCorrupt,
    /// An intent named a position at which the list has no item.
    IndexOutOfRange { index: usize, len: usize },
}

} // verus!
