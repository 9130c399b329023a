//! The stored form of the list: MessagePack bytes, made and read by
//! `rmp_serde`. Nothing here touches a file; the caller reads and writes.
//!
//! The encoder and the decoder are outside code. Of the encoder it is taken
//! on trust that the bytes it gives depend on the records alone; of the
//! decoder, that its answer depends on the bytes alone. That the bytes of a
//! list load back as that list is not taken on trust: `save` reads its own
//! bytes back before it hands them out.

use vstd::prelude::*;

use crate::error::StoreError;
use crate::item::Item;
use crate::item::ItemView;

verus! {

/// The error of `rmp_serde`'s encoder. It is carried, never read.
#[verifier::external_type_specification]
#[verifier::external_body]
pub struct ExEncodeError(rmp_serde::encode::Error);

/// The error of `rmp_serde`'s decoder. It is carried, never read.
#[verifier::external_type_specification]
#[verifier::external_body]
pub struct ExDecodeError(rmp_serde::decode::Error);

/// The bytes that `rmp_serde::to_vec` gives for a list of records, where it
/// gives any.
pub uninterp spec fn msgpack_bytes(records: Seq<(bool, Seq<char>)>) -> Seq<u8>;

/// The records that `rmp_serde::from_slice` reads from `bytes`, or `None`
/// where it reports an error.
pub uninterp spec fn msgpack_records(bytes: Seq<u8>) -> Option<Seq<(bool, Seq<char>)>>;

/// The records of a list, in order.
pub open spec fn records_of(items: Seq<ItemView>) -> Seq<(bool, Seq<char>)> {
    Seq::new(items.len(), |i: int| items[i].record())
}

/// The list that a sequence of records stands for.
pub open spec fn items_of(records: Seq<(bool, Seq<char>)>) -> Seq<ItemView> {
    Seq::new(records.len(), |i: int| ItemView::of_record(records[i]))
}

/// The contents of a store file as a sequence of bytes, where there is a file.
pub open spec fn bytes_of(contents: Option<&[u8]>) -> Option<Seq<u8>> {
    match contents {
        Some(bytes) => Some(bytes@),
        None => None,
    }
}

/// What loading makes of a store file: `None` stands for a file that is not
/// there. No file and an empty file are the first run and give the empty
/// list; any other content is decoded, and is corrupt if that fails.
pub open spec fn loaded(contents: Option<Seq<u8>>) -> Result<Seq<ItemView>, StoreError> {
    match contents {
        None => Ok(Seq::empty()),
        Some(bytes) => if bytes.len() == 0 {
            Ok(Seq::empty())
        } else {
            match msgpack_records(bytes) {
                Some(records) => Ok(items_of(records)),
                None => Err(StoreError::StorageCorrupt),
            }
        },
    }
}

/// `bytes` is a stored form of `items`: the encoding of its records, and
/// loading it gives `items` back.
pub open spec fn saved(items: Seq<ItemView>, bytes: Seq<u8>) -> bool {
    &&& items.len() <= u32::MAX
    &&& bytes == msgpack_bytes(records_of(items))
    &&& loaded(Some(bytes)) == Ok::<Seq<ItemView>, StoreError>(items)
}

/// Calls `rmp_serde::to_vec` on the records. Claimed: where it succeeds, the
/// bytes depend on the records alone. Nothing is claimed of when it
/// succeeds: it reports an error where memory for the bytes cannot be had.
/// Lists of more than `u32::MAX` records are left out, since the encoder
/// counts the elements of such a list in a `u32`.
#[verifier::external_body]
fn to_msgpack(records: &Vec<(bool, String)>) -> (encoded: Result<Vec<u8>, rmp_serde::encode::Error>)
    requires
        records.len() <= u32::MAX,
    ensures
        encoded matches Ok(bytes) ==> bytes@ == msgpack_bytes(records.deep_view()),
{
    rmp_serde::to_vec(records)
}

/// Calls `rmp_serde::from_slice` for a list of records. Claimed: whether it
/// succeeds, and with which records, depends on the bytes alone.
#[verifier::external_body]
fn from_msgpack(bytes: &[u8]) -> (decoded: Result<Vec<(bool, String)>, rmp_serde::decode::Error>)
    ensures
        decoded matches Ok(records) ==> msgpack_records(bytes@) == Some(records.deep_view()),
        decoded is Err ==> msgpack_records(bytes@) is None,
{
    rmp_serde::from_slice(bytes)
}

/// The records of `items`, for the encoder.
pub fn to_records(items: &Vec<Item>) -> (records: Vec<(bool, String)>)
    ensures
        records.len() == items.len(),
        records.deep_view() == records_of(items.deep_view()),
{
    let mut records: Vec<(bool, String)> = Vec::new();
    for i in 0..items.len()
        invariant
            records.len() == i,
            forall|k: int| 0 <= k < i ==> records[k].deep_view() == items[k]@.record(),
    {
        records.push(items[i].to_record());
    }
    assert(records.deep_view() =~= records_of(items.deep_view()));
    records
}

/// The list that `records` stands for.
pub fn from_records(records: Vec<(bool, String)>) -> (items: Vec<Item>)
    ensures
        items.len() == records.len(),
        items.deep_view() == items_of(records.deep_view()),
{
    let mut items: Vec<Item> = Vec::new();
    for record in it: records.into_iter()
        invariant
            it.seq() == records@,
            items.len() == it.index(),
            forall|k: int|
                0 <= k < items.len() ==> items[k]@ == ItemView::of_record(records[k].deep_view()),
    {
        items.push(Item::from_record(record));
    }
    assert(items.deep_view() =~= items_of(records.deep_view()));
    items
}

/// Whether two lists hold the same items in the same order.
pub fn same_items(a: &Vec<Item>, b: &Vec<Item>) -> (same: bool)
    ensures
        same == (a.deep_view() == b.deep_view()),
{
    let same = a == b;
    proof {
        if same {
            assert(a.deep_view() =~= b.deep_view());
        } else if a.len() == b.len() {
            let k = choose|k: int| 0 <= k < a.len() && !(#[trigger] a[k]@ == b[k]@);
            assert(a.deep_view()[k] != b.deep_view()[k]);
        } else {
            assert(a.deep_view().len() != b.deep_view().len());
        }
    }
    same
}

/// What the decoder's answer means for the store: its records as a list, or
/// `StorageCorrupt` whatever its error was.
pub fn read_outcome(decoded: Result<Vec<(bool, String)>, rmp_serde::decode::Error>) -> (r: Result<
    Vec<Item>,
    StoreError,
>)
    ensures
        match decoded {
            Ok(records) => r matches Ok(items) && items.deep_view() == items_of(
                records.deep_view(),
            ),
            Err(_) => r == Err::<Vec<Item>, StoreError>(StoreError::StorageCorrupt),
        },
{
    match decoded {
        Ok(records) => Ok(from_records(records)),
        Err(_) => Err(StoreError::StorageCorrupt),
    }
}

/// Loads the list from the contents of the store file; `None` where there is
/// no file.
pub fn load(contents: Option<&[u8]>) -> (r: Result<Vec<Item>, StoreError>)
    ensures
        contents is None ==> (r matches Ok(items) && items@.len() == 0),
        match r {
            Ok(items) => loaded(bytes_of(contents)) == Ok::<Seq<ItemView>, StoreError>(
                items.deep_view(),
            ),
            Err(e) => loaded(bytes_of(contents)) == Err::<Seq<ItemView>, StoreError>(e),
        },
{
    match contents {
        None => Ok(no_items()),
        Some(bytes) => {
            if bytes.len() == 0 {
                Ok(no_items())
            } else {
                read_outcome(from_msgpack(bytes))
            }
        },
    }
}

/// Accepts what the encoder gave for `items` only if loading the bytes gives
/// `items` back; anything else is a failed save.
pub fn confirm(items: &Vec<Item>, encoded: Result<Vec<u8>, rmp_serde::encode::Error>) -> (r: Result<
    Vec<u8>,
    StoreError,
>)
    ensures
        match r {
            Ok(bytes) => encoded matches Ok(given) && bytes == given && loaded(Some(given@))
                == Ok::<Seq<ItemView>, StoreError>(items.deep_view()),
            Err(e) => e == StoreError::StorageWrite && !(encoded matches Ok(given) && loaded(
                Some(given@),
            ) == Ok::<Seq<ItemView>, StoreError>(items.deep_view())),
        },
{
    match encoded {
        Err(_) => Err(StoreError::StorageWrite),
        Ok(bytes) => {
            match load(Some(bytes.as_slice())) {
                Ok(back) => {
                    if same_items(&back, items) {
                        Ok(bytes)
                    } else {
                        Err(StoreError::StorageWrite)
                    }
                },
                Err(_) => Err(StoreError::StorageWrite),
            }
        },
    }
}

/// The bytes to put in the store file for `items`. The encoder decides
/// whether there are any; a list of more than `u32::MAX` items has none.
pub fn save(items: &Vec<Item>) -> (r: Result<Vec<u8>, StoreError>)
    ensures
        match r {
            Ok(bytes) => saved(items.deep_view(), bytes@),
            Err(e) => e == StoreError::StorageWrite,
        },
        items.len() > u32::MAX ==> r is Err,
{
    if items.len() > u32::MAX as usize {
        return Err(StoreError::StorageWrite);
    }
    let records = to_records(items);
    confirm(items, to_msgpack(&records))
}

/// The empty list.
fn no_items() -> (items: Vec<Item>)
    ensures
        items@.len() == 0,
        items.deep_view() == Seq::<ItemView>::empty(),
{
    let items: Vec<Item> = Vec::new();
    assert(items.deep_view() =~= Seq::<ItemView>::empty());
    items
}

} // verus!
