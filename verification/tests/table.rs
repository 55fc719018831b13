use tringlib::error::DispatchError;
use tringlib::table::CallbackTable;

#[test]
fn a_single_holder_destroys_on_release() {
    let mut table = CallbackTable::new();
    assert!(!table.is_released());
    assert!(table.release());
    assert!(table.is_released());
}

#[test]
fn the_destructor_runs_once_for_many_holders() {
    let mut table = CallbackTable::new();
    assert_eq!(table.share(), Ok(()));
    assert_eq!(table.share(), Ok(()));
    let fired: Vec<bool> = (0..5).map(|_| table.release()).collect();
    assert_eq!(fired, vec![false, false, true, false, false]);
    assert!(table.is_released());
}

#[test]
fn a_table_that_is_torn_down_cannot_be_shared() {
    let mut table = CallbackTable::new();
    assert!(table.release());
    assert_eq!(table.share(), Err(DispatchError::TableReleased));
    assert!(table.is_released());
    assert!(!table.release());
}

#[test]
fn releases_interleaved_with_shares() {
    let mut table = CallbackTable::new();
    assert_eq!(table.share(), Ok(()));
    assert!(!table.release());
    assert_eq!(table.share(), Ok(()));
    assert!(!table.release());
    assert!(table.release());
}
