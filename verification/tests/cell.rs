use open_pi_scope::mutex_box::MutexBox;

#[test]
fn new_cell_is_empty_and_free() {
    let mut cell: MutexBox<u32> = MutexBox::new();
    assert!(!cell.is_taken());
    assert_eq!(cell.take_sync(|v| (v + 1, v)), None);
    assert_eq!(cell.take(), None);
    assert!(!cell.is_taken());
    assert_eq!(cell.clone_inner(), Ok(None));
}

#[test]
fn operation_sees_the_value_and_stores_its_result() {
    let mut cell = MutexBox::new();
    assert_eq!(cell.set(Some(41u32)), Ok(()));
    assert_eq!(cell.take_sync(|v| (v + 1, v * 2)), Some(82));
    assert_eq!(cell.clone_inner(), Ok(Some(42)));
    assert!(!cell.is_taken());
}

#[test]
fn no_increment_is_lost() {
    let mut cell = MutexBox::new();
    assert!(cell.set(Some(5u64)).is_ok());
    let mut seen = Vec::new();
    for _ in 0..1000 {
        match cell.open(|v| (v + 1, v)) {
            Ok(Some(before)) => seen.push(before),
            _ => panic!("the cell was free and full"),
        }
    }
    assert_eq!(cell.clone_inner(), Ok(Some(1005)));
    for (i, before) in seen.iter().enumerate() {
        assert_eq!(*before, 5 + i as u64);
    }
}

#[test]
fn value_is_out_of_the_cell_during_an_operation() {
    let mut cell = MutexBox::new();
    assert!(cell.set(Some(String::from("mount"))).is_ok());
    let value = cell.take();
    assert_eq!(value, Some(String::from("mount")));
    assert!(cell.is_taken());
    assert_eq!(cell.take(), None);
    assert_eq!(cell.take_sync(|v| (v, 1)), None);
    assert!(cell.is_taken());
    assert_eq!(cell.clone_inner(), Err(()));
    assert_eq!(cell.set(Some(String::from("other"))), Err(Some(String::from("other"))));
    assert_eq!(cell.set(None), Err(None));
    match cell.open(|v: String| (v, 7)) {
        Err(f) => assert_eq!(f(String::from("x")), (String::from("x"), 7)),
        Ok(_) => panic!("the value is out"),
    }
    cell.put_back(String::from("moved"));
    assert!(!cell.is_taken());
    assert_eq!(cell.clone_inner(), Ok(Some(String::from("moved"))));
    assert_eq!(cell.open(|v: String| (v, 7)).ok(), Some(Some(7)));
}

#[test]
fn set_replaces_and_clears() {
    let mut cell = MutexBox::new();
    assert!(cell.set(Some(1)).is_ok());
    assert!(cell.set(Some(2)).is_ok());
    assert_eq!(cell.clone_inner(), Ok(Some(2)));
    assert!(cell.set(None).is_ok());
    assert_eq!(cell.clone_inner(), Ok(None));
    assert_eq!(cell.take_sync(|v: i32| (v, ())), None);
}
