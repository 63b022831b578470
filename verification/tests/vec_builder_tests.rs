use sync_primitives::vec_builder::new_vec;
use sync_primitives::vec_builder::new_vec_filled;

#[test]
fn test_create_empty_vec() {
    let empty_vec: Vec<u64> = new_vec();
    assert!(empty_vec.is_empty());
}

#[test]
fn test_create_vec_with_the_same_element_occurring_n_times() {
    let new_vec = new_vec_filled(0_u64, 1024);
    assert!(!new_vec.is_empty());
    assert_eq!(new_vec.len(), 1024);
    assert_eq!(new_vec[0], 0);
    assert_eq!(new_vec.last(), Some(&0_u64));
}

#[test]
fn test_filled_vec_every_slot() {
    let v = new_vec_filled(9_i32, 4);
    assert_eq!(v, vec![9, 9, 9, 9]);
}

#[test]
fn test_filled_vec_zero_count() {
    let v: Vec<u8> = new_vec_filled(7, 0);
    assert!(v.is_empty());
}
