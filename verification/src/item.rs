use vstd::prelude::*;

verus! {

/// One entry of the list.
#[derive(Debug)]
pub struct Item {
    pub completed: bool,
    pub description: String,
}

/// An item as contracts see it: the flag and the characters of the text.
pub struct ItemView {
    pub completed: bool,
    pub description: Seq<char>,
}

impl View for Item {
    type V = ItemView;

    open spec fn view(&self) -> ItemView {
        ItemView { completed: self.completed, description: self.description@ }
    }
}

impl DeepView for Item {
    type V = ItemView;

    open spec fn deep_view(&self) -> ItemView {
        self@
    }
}

impl ItemView {
    /// The same item with its flag turned over.
    pub open spec fn toggled(self) -> ItemView {
        ItemView { completed: !self.completed, description: self.description }
    }

    /// The item as a record: the pair of its two fields, flag first.
    pub open spec fn record(self) -> (bool, Seq<char>) {
        (self.completed, self.description)
    }

    /// The item that a record stands for.
    pub open spec fn of_record(record: (bool, Seq<char>)) -> ItemView {
        ItemView { completed: record.0, description: record.1 }
    }
}

impl Item {
    /// A new item: not yet completed.
    pub fn new(description: String) -> (item: Item)
        ensures
            item@ == (ItemView { completed: false, description: description@ }),
    {
        Item { completed: false, description }
    }

    /// The record of this item, for the encoder.
    pub fn to_record(&self) -> (record: (bool, String))
        ensures
            record.deep_view() == self@.record(),
    {
        (self.completed, self.description.clone())
    }

    /// The item that a decoded record stands for.
    pub fn from_record(record: (bool, String)) -> (item: Item)
        ensures
            item@ == ItemView::of_record(record.deep_view()),
    {
        Item { completed: record.0, description: record.1 }
    }
}

impl Clone for Item {
    fn clone(&self) -> (copy: Item)
        ensures
            copy@ == self@,
    {
        Item { completed: self.completed, description: self.description.clone() }
    }
}

impl PartialEq for Item {
    fn eq(&self, other: &Item) -> (same: bool) {
        self.completed == other.completed && self.description == other.description
    }
}

impl vstd::std_specs::cmp::PartialEqSpecImpl for Item {
    open spec fn obeys_eq_spec() -> bool {
        true
    }

    open spec fn eq_spec(&self, other: &Item) -> bool {
        self@ == other@
    }
}

} // verus!
