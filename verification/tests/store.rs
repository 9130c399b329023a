use todo_list::item::Item;
use todo_list::store::ItemStore;

fn item(text: &str) -> Item {
    Item::new(String::from(text))
}

fn texts(store: &ItemStore) -> Vec<String> {
    store.snapshot().iter().map(|i| i.description.clone()).collect()
}

#[test]
fn new_store_is_empty() {
    let store = ItemStore::new();
    assert_eq!(store.len(), 0);
    assert!(store.snapshot().is_empty());
}

#[test]
fn new_item_is_incomplete() {
    let it = item("water the plants");
    assert!(!it.completed);
    assert_eq!(it.description, "water the plants");
}

#[test]
fn insert_at_front_prepends() {
    let mut store = ItemStore::new();
    store.insert(0, item("B"));
    store.insert(0, item("A"));
    store.insert(0, item("C"));
    assert_eq!(texts(&store), vec!["C", "A", "B"]);
    assert_eq!(store.len(), 3);
}

#[test]
fn insert_in_the_middle_shifts_later_items() {
    let mut store = ItemStore::new();
    store.insert(0, item("A"));
    store.insert(1, item("C"));
    store.insert(1, item("B"));
    assert_eq!(texts(&store), vec!["A", "B", "C"]);
}

#[test]
fn insert_at_len_appends() {
    let mut store = ItemStore::new();
    store.insert(0, item("A"));
    store.insert(1, item("B"));
    let len = store.len();
    store.insert(len, item("C"));
    assert_eq!(texts(&store), vec!["A", "B", "C"]);
}

#[test]
fn insert_keeps_duplicates() {
    let mut store = ItemStore::new();
    store.insert(0, item("same"));
    store.insert(0, item("same"));
    assert_eq!(store.len(), 2);
    assert_eq!(store.snapshot()[0], store.snapshot()[1]);
}

#[test]
fn remove_returns_the_item_and_shifts_the_rest() {
    let mut store = ItemStore::new();
    store.insert(0, item("C"));
    store.insert(0, item("B"));
    store.insert(0, item("A"));
    let removed = store.remove(1);
    assert_eq!(removed, item("B"));
    assert_eq!(texts(&store), vec!["A", "C"]);
}

#[test]
fn remove_first_and_last() {
    let mut store = ItemStore::new();
    store.insert(0, item("C"));
    store.insert(0, item("B"));
    store.insert(0, item("A"));
    assert_eq!(store.remove(2).description, "C");
    assert_eq!(store.remove(0).description, "A");
    assert_eq!(texts(&store), vec!["B"]);
}

#[test]
fn remove_after_insert_restores_the_list() {
    let mut store = ItemStore::new();
    store.insert(0, item("B"));
    store.insert(0, item("A"));
    store.insert(1, item("X"));
    let removed = store.remove(1);
    assert_eq!(removed.description, "X");
    assert_eq!(texts(&store), vec!["A", "B"]);
}

#[test]
fn toggle_flips_only_the_flag_at_the_index() {
    let mut store = ItemStore::new();
    store.insert(0, item("B"));
    store.insert(0, item("A"));
    store.toggle(1);
    assert!(!store.snapshot()[0].completed);
    assert!(store.snapshot()[1].completed);
    assert_eq!(texts(&store), vec!["A", "B"]);
    store.toggle(1);
    assert!(!store.snapshot()[1].completed);
}

#[test]
fn snapshot_reflects_the_latest_mutation() {
    let mut store = ItemStore::new();
    store.insert(0, item("A"));
    assert_eq!(texts(&store), vec!["A"]);
    store.insert(0, item("B"));
    assert_eq!(texts(&store), vec!["B", "A"]);
    store.remove(0);
    assert_eq!(texts(&store), vec!["A"]);
}

#[test]
fn replace_all_discards_prior_content() {
    let mut store = ItemStore::new();
    store.insert(0, item("old"));
    store.replace_all(vec![
        Item { completed: true, description: String::from("X") },
        Item { completed: false, description: String::from("Y") },
    ]);
    assert_eq!(store.len(), 2);
    assert_eq!(texts(&store), vec!["X", "Y"]);
    assert!(store.snapshot()[0].completed);
    store.replace_all(Vec::new());
    assert_eq!(store.len(), 0);
}

#[test]
fn items_compare_by_both_fields() {
    let a = Item { completed: false, description: String::from("A") };
    assert_eq!(a, a.clone());
    assert_ne!(a, Item { completed: true, description: String::from("A") });
    assert_ne!(a, Item { completed: false, description: String::from("B") });
}

#[test]
fn records_carry_both_fields() {
    let a = Item { completed: true, description: String::from("A") };
    assert_eq!(a.to_record(), (true, String::from("A")));
    assert_eq!(Item::from_record((false, String::from("B"))), item("B"));
}
