use sync_primitives::cell::Cell;

#[test]
fn test_new() {
    let cell = Cell::new(37);
    assert_eq!(cell.get(), 37);
}

#[test]
fn test_set() {
    let mut cell = Cell::new(37);
    cell.set(73);
    assert_eq!(cell.get(), 73);
}

#[test]
fn test_set_multiple_times() {
    let mut cell = Cell::new(37);
    cell.set(73);
    cell.set(137);
    assert_eq!(cell.get(), 137);
}

#[test]
fn test_set_and_get_with_different_types() {
    let mut cell = Cell::new("hello");
    assert_eq!(cell.get(), "hello");
    cell.set("world");
    assert_eq!(cell.get(), "world");
}

#[test]
fn test_copy_types() {
    let mut cell = Cell::new((37, 73, 137));
    assert_eq!(cell.get(), (37, 73, 137));
    cell.set((0, 0, 0));
    assert_eq!(cell.get(), (0, 0, 0));
}
