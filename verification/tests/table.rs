use dorp::Table;

#[test]
fn table_insert_get_remove() {
    let mut t: Table<u64, i32> = Table::new();
    assert_eq!(t.len(), 0);
    assert!(!t.contains_key(&7));
    t.insert(7, 70);
    t.insert(8, 80);
    assert_eq!(t.len(), 2);
    assert_eq!(t.get(&7), Some(&70));
    assert_eq!(t.get(&8), Some(&80));
    assert_eq!(t.get(&9), None);
    t.insert(7, 71);
    assert_eq!(t.len(), 2);
    assert_eq!(t.get(&7), Some(&71));
    assert_eq!(t.remove(&7), Some(71));
    assert_eq!(t.remove(&7), None);
    assert_eq!(t.len(), 1);
    assert_eq!(t.get(&8), Some(&80));
}

#[test]
fn table_keeps_insertion_order() {
    let mut t: Table<u64, &'static str> = Table::new();
    t.insert(3, "c");
    t.insert(1, "a");
    t.insert(2, "b");
    t.insert(1, "a2");
    assert_eq!(t.keys(), vec![3, 1, 2]);
    assert_eq!(*t.get_index(0).1, "c");
    assert_eq!(*t.get_index(1).1, "a2");
    assert_eq!(*t.get_index(2).1, "b");
}
