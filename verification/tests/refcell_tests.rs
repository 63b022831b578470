use sync_primitives::refcell::RefCell;
use sync_primitives::refcell::RefCellState;

#[test]
fn test_borrow_twice() {
    let mut data = RefCell::new(37);

    let observer_1 = data.borrow();
    let observer_2 = data.borrow();
    assert_eq!(data.state(), RefCellState::Shared(2));
    assert_eq!(observer_1.unwrap().value, 37);
    assert_eq!(observer_2.unwrap().value, 37);
}

#[test]
fn test_borrow_mut_once() {
    let mut data = RefCell::new(37);

    let mut modifier = data.borrow_mut().unwrap();
    assert_eq!(modifier.value, 37);
    modifier.value = 73;
    assert_eq!(data.state(), RefCellState::Exclusive);
}

#[test]
fn test_borrow_once_drop_borrow_mut_once_modify_drop_borrow_once() {
    let mut data = RefCell::new(37);

    {
        let observer = data.borrow().unwrap();
        assert_eq!(observer.value, 37);
        data.end_borrow(observer);
    }
    {
        let mut modifier = data.borrow_mut().unwrap();
        assert_eq!(modifier.value, 37);
        modifier.value = 73;
        data.end_borrow_mut(modifier);
    }
    let observer = data.borrow().unwrap();
    assert_eq!(observer.value, 73);
}

#[test]
#[should_panic]
fn test_borrow_once_and_borrow_mut_once() {
    let mut data = RefCell::new(37);

    let observer = data.borrow();
    let modifier = data.borrow_mut();
    assert_eq!(observer.unwrap().value, 37);
    let _ = modifier.unwrap().value;
}

#[test]
fn test_borrow_mut_refused_while_shared() {
    let mut data = RefCell::new(5);
    let observer = data.borrow().unwrap();
    assert!(data.borrow_mut().is_none());
    data.end_borrow(observer);
    assert!(data.borrow_mut().is_some());
}

#[test]
fn test_borrow_refused_while_exclusive() {
    let mut data = RefCell::new(5);
    let modifier = data.borrow_mut().unwrap();
    assert!(data.borrow().is_none());
    data.end_borrow_mut(modifier);
    assert_eq!(data.state(), RefCellState::Shared(0));
    assert!(data.borrow().is_some());
}

#[test]
fn test_end_one_of_two_observers() {
    let mut data = RefCell::new(1);
    let first = data.borrow().unwrap();
    let second = data.borrow().unwrap();
    assert_eq!(data.state(), RefCellState::Shared(2));
    data.end_borrow(first);
    assert_eq!(data.state(), RefCellState::Shared(1));
    data.end_borrow(second);
    assert_eq!(data.state(), RefCellState::Shared(0));
}
