use todo_backend::{acknowledged, deleted, single_write, Cardinality, Reply, Statement, StoreError, Todo};

fn item(title: &str, order: Option<i32>, completed: Option<bool>) -> Todo {
    Todo::new(None, Some(title.to_string()), order, completed)
}

fn stored(uid: i32, title: &str, order: i32, completed: bool) -> Todo {
    Todo::from_row(uid, title.to_string(), Some(order), Some(completed))
}

#[test]
fn accessors_fall_back_to_defaults() {
    let t = Todo::new(None, None, None, None);
    assert_eq!(*t.uid(), None);
    assert_eq!(t.title(), "");
    assert_eq!(t.order(), 0);
    assert!(!t.completed());
}

#[test]
fn accessors_read_given_fields() {
    let t = Todo::new(Some(4), Some("Walk".to_string()), Some(-3), Some(true));
    assert_eq!(*t.uid(), Some(4));
    assert_eq!(t.title(), "Walk");
    assert_eq!(t.order(), -3);
    assert!(t.completed());
}

#[test]
fn set_uid_keeps_other_fields() {
    let mut t = item("Read", Some(2), None);
    t.set_uid(11);
    assert_eq!(*t.uid(), Some(11));
    assert_eq!(t.title(), "Read");
    assert_eq!(t.order(), 2);
    assert!(!t.completed());
}

#[test]
fn merge_replaces_only_given_fields() {
    let mut target = item("A", Some(1), Some(false));
    target.merge(Todo::new(None, Some("B".to_string()), None, None));
    assert_eq!(target.title(), "B");
    assert_eq!(target.order(), 1);
    assert!(!target.completed());
}

#[test]
fn merge_with_empty_diff_changes_nothing() {
    let mut target = Todo::new(Some(8), Some("A".to_string()), Some(1), Some(true));
    target.merge(Todo::new(None, None, None, None));
    assert_eq!(*target.uid(), Some(8));
    assert_eq!(target.title(), "A");
    assert_eq!(target.order(), 1);
    assert!(target.completed());
}

#[test]
fn merge_never_touches_identity() {
    let mut target = Todo::new(Some(8), Some("A".to_string()), None, None);
    target.merge(Todo::new(Some(9), None, Some(5), Some(true)));
    assert_eq!(*target.uid(), Some(8));
    assert_eq!(target.title(), "A");
    assert_eq!(target.order(), 5);
    assert!(target.completed());
}

#[test]
fn cardinality_of_counts() {
    assert_eq!(Cardinality::of_count(0), Cardinality::Zero);
    assert_eq!(Cardinality::of_count(1), Cardinality::One);
    assert_eq!(Cardinality::of_count(2), Cardinality::Many);
    assert_eq!(Cardinality::of_count(u64::MAX), Cardinality::Many);
    assert_eq!(Cardinality::of_len(3), Cardinality::Many);
}

#[test]
fn single_write_maps_touched_rows() {
    assert_eq!(single_write(1), Ok(()));
    assert_eq!(single_write(0), Err(StoreError::NotFound));
    assert_eq!(single_write(2), Err(StoreError::InternalFault));
}

#[test]
fn draft_saves_as_insert_with_defaults() {
    let t = item("Buy milk", None, None);
    match t.save_statement() {
        Statement::Insert { title, order, completed } => {
            assert_eq!(title, "Buy milk");
            assert_eq!(order, 0);
            assert!(!completed);
        }
        _ => panic!("a draft must be inserted"),
    }
}

#[test]
fn stored_item_saves_as_update() {
    let t = stored(3, "Call", 2, true);
    match t.save_statement() {
        Statement::Update { uid, title, order, completed } => {
            assert_eq!(uid, 3);
            assert_eq!(title, "Call");
            assert_eq!(order, 2);
            assert!(completed);
        }
        _ => panic!("a stored item must be updated"),
    }
}

#[test]
fn saved_draft_is_found_with_same_fields() {
    let mut t = item("Pay rent", Some(4), None);
    assert_eq!(t.saved(Reply::Ids(vec![17])), Ok(()));
    assert_eq!(*t.uid(), Some(17));
    let back = Todo::found(Reply::Rows(vec![stored(17, "Pay rent", 4, false)])).unwrap();
    assert_eq!(*back.uid(), Some(17));
    assert_eq!(back.title(), t.title());
    assert_eq!(back.order(), t.order());
    assert_eq!(back.completed(), t.completed());
}

#[test]
fn insert_without_exactly_one_identity_is_a_fault() {
    let mut t = item("X", None, None);
    assert_eq!(t.saved(Reply::Ids(vec![])), Err(StoreError::InternalFault));
    assert_eq!(*t.uid(), None);
    assert_eq!(t.saved(Reply::Ids(vec![1, 2])), Err(StoreError::InternalFault));
    assert_eq!(*t.uid(), None);
    assert_eq!(t.saved(Reply::Fault), Err(StoreError::InternalFault));
    assert_eq!(t.saved(Reply::Touched(1)), Err(StoreError::InternalFault));
    assert_eq!(*t.uid(), None);
}

#[test]
fn update_of_missing_identity_is_not_found() {
    let mut t = stored(99, "Gone", 0, false);
    assert_eq!(t.saved(Reply::Touched(0)), Err(StoreError::NotFound));
    assert_eq!(*t.uid(), Some(99));
}

#[test]
fn update_outcomes() {
    let mut t = stored(5, "Y", 0, false);
    assert_eq!(t.saved(Reply::Touched(1)), Ok(()));
    assert_eq!(*t.uid(), Some(5));
    assert_eq!(t.saved(Reply::Touched(2)), Err(StoreError::InternalFault));
    assert_eq!(t.saved(Reply::Fault), Err(StoreError::InternalFault));
    assert_eq!(t.saved(Reply::Ids(vec![5])), Err(StoreError::InternalFault));
}

#[test]
fn lookup_outcomes() {
    assert!(matches!(Todo::found(Reply::Rows(vec![])), Err(StoreError::NotFound)));
    assert!(matches!(
        Todo::found(Reply::Rows(vec![stored(1, "a", 0, false), stored(1, "b", 0, false)])),
        Err(StoreError::InternalFault)
    ));
    assert!(matches!(Todo::found(Reply::Fault), Err(StoreError::InternalFault)));
    let t = Todo::found(Reply::Rows(vec![stored(2, "c", 7, true)])).unwrap();
    assert_eq!(*t.uid(), Some(2));
    assert_eq!(t.title(), "c");
    assert_eq!(t.order(), 7);
    assert!(t.completed());
}

#[test]
fn row_with_null_columns_reads_defaults() {
    let t = Todo::from_row(6, "n".to_string(), None, None);
    assert_eq!(*t.uid(), Some(6));
    assert_eq!(t.order(), 0);
    assert!(!t.completed());
}

#[test]
fn deleted_item_is_not_found() {
    assert_eq!(deleted(Reply::Touched(1)), Ok(()));
    assert!(matches!(Todo::found(Reply::Rows(vec![])), Err(StoreError::NotFound)));
}

#[test]
fn delete_outcomes() {
    assert_eq!(deleted(Reply::Touched(0)), Err(StoreError::NotFound));
    assert_eq!(deleted(Reply::Touched(3)), Err(StoreError::InternalFault));
    assert_eq!(deleted(Reply::Fault), Err(StoreError::InternalFault));
}

#[test]
fn cleared_collection_lists_nothing() {
    assert_eq!(acknowledged(Reply::Touched(0)), Ok(()));
    let all = Todo::listed(Reply::Rows(vec![])).unwrap();
    assert!(all.is_empty());
}

#[test]
fn acknowledged_fails_only_on_fault() {
    assert_eq!(acknowledged(Reply::Touched(12)), Ok(()));
    assert_eq!(acknowledged(Reply::Fault), Err(StoreError::InternalFault));
}

#[test]
fn listing_outcomes() {
    let all = Todo::listed(Reply::Rows(vec![stored(1, "a", 0, false), stored(2, "b", 1, true)])).unwrap();
    assert_eq!(all.len(), 2);
    assert_eq!(all[1].title(), "b");
    assert!(matches!(Todo::listed(Reply::Fault), Err(StoreError::InternalFault)));
    assert!(matches!(Todo::listed(Reply::Touched(1)), Err(StoreError::InternalFault)));
}

#[test]
fn buy_milk_round_trip() {
    // insert
    let mut t = Todo::new(None, Some("Buy milk".to_string()), None, None);
    assert!(matches!(t.save_statement(), Statement::Insert { .. }));
    assert_eq!(t.saved(Reply::Ids(vec![1])), Ok(()));
    assert_eq!(*t.uid(), Some(1));
    assert_eq!(t.order(), 0);
    assert!(!t.completed());

    // patch id 1 with completed = true
    let uid = todo_backend::parse_uid("1").unwrap();
    assert!(matches!(Statement::SelectById { uid }, Statement::SelectById { uid: 1 }));
    let mut current = Todo::found(Reply::Rows(vec![stored(1, "Buy milk", 0, false)])).unwrap();
    current.merge(Todo::new(None, None, None, Some(true)));
    match current.save_statement() {
        Statement::Update { uid, title, order, completed } => {
            assert_eq!((uid, title.as_str(), order, completed), (1, "Buy milk", 0, true));
        }
        _ => panic!("a stored item must be updated"),
    }
    assert_eq!(current.saved(Reply::Touched(1)), Ok(()));
    assert_eq!(current.title(), "Buy milk");
    assert_eq!(current.order(), 0);
    assert!(current.completed());

    // delete id 1, then get id 1
    assert_eq!(deleted(Reply::Touched(1)), Ok(()));
    assert!(matches!(Todo::found(Reply::Rows(vec![])), Err(StoreError::NotFound)));

    // list all
    assert!(Todo::listed(Reply::Rows(vec![])).unwrap().is_empty());
}
