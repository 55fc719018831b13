use tringlib::error::BridgeError;
use tringlib::handles::HandleTable;

#[test]
fn a_new_table_resolves_nothing() {
    let table: HandleTable<u32> = HandleTable::new();
    assert_eq!(table.resolve(0), Err(BridgeError::InvalidHandle));
    assert_eq!(table.resolve(1), Err(BridgeError::InvalidHandle));
    assert_eq!(table.resolve(-1), Err(BridgeError::InvalidHandle));
    assert_eq!(table.resolve(0x1_0000_0000), Err(BridgeError::InvalidHandle));
    assert!(!table.contains(0));
}

#[test]
fn an_issued_handle_resolves_to_its_object() {
    let mut table: HandleTable<String> = HandleTable::new();
    let a = table.insert("a".to_string()).unwrap();
    let b = table.insert("b".to_string()).unwrap();
    assert_ne!(a, 0);
    assert_ne!(b, 0);
    assert_ne!(a, b);
    assert_eq!(table.resolve(a), Ok(&"a".to_string()));
    assert_eq!(table.resolve(b), Ok(&"b".to_string()));
    assert!(table.contains(a));
}

#[test]
fn the_first_handle_is_generation_one_of_slot_zero() {
    let mut table: HandleTable<u8> = HandleTable::new();
    assert_eq!(table.insert(1), Some(0x1_0000_0000));
    assert_eq!(table.insert(2), Some(0x1_0000_0001));
}

#[test]
fn a_removed_handle_never_resolves_again() {
    let mut table: HandleTable<u32> = HandleTable::new();
    let old = table.insert(1).unwrap();
    assert_eq!(table.remove(old), Ok(1));
    assert_eq!(table.resolve(old), Err(BridgeError::InvalidHandle));
    assert_eq!(table.remove(old), Err(BridgeError::InvalidHandle));
    let new = table.insert(2).unwrap();
    assert_ne!(new, old);
    assert_eq!(new, 0x2_0000_0000);
    assert_eq!(table.resolve(old), Err(BridgeError::InvalidHandle));
    assert_eq!(table.resolve(new), Ok(&2));
}

#[test]
fn a_made_up_handle_does_not_resolve() {
    let mut table: HandleTable<u32> = HandleTable::new();
    let h = table.insert(1).unwrap();
    assert_eq!(table.resolve(h + 1), Err(BridgeError::InvalidHandle));
    assert_eq!(table.resolve(h + 0x1_0000_0000), Err(BridgeError::InvalidHandle));
    assert_eq!(table.resolve(h - 0x1_0000_0000), Err(BridgeError::InvalidHandle));
    assert_eq!(table.resolve(i64::MAX), Err(BridgeError::InvalidHandle));
    assert_eq!(table.resolve(i64::MIN), Err(BridgeError::InvalidHandle));
}

#[test]
fn an_object_can_be_changed_in_place() {
    let mut table: HandleTable<Vec<u8>> = HandleTable::new();
    let h = table.insert(vec![1]).unwrap();
    let other = table.insert(vec![9]).unwrap();
    table.resolve_mut(h).unwrap().push(2);
    assert_eq!(table.resolve(h), Ok(&vec![1, 2]));
    assert_eq!(table.resolve(other), Ok(&vec![9]));
    assert!(table.resolve_mut(0).is_err());
}
