use sync_primitives::flatten::flatten;
use sync_primitives::flatten::IteratorExt;

#[test]
fn test_flatten_empty() {
    let mut iter = flatten::<()>(vec![vec![], vec![]]);
    assert!(iter.next().is_none());
}

#[test]
fn test_element_count() {
    assert_eq!(flatten::<()>(vec![vec![], vec![]]).count(), 0);
    assert_eq!(flatten(vec![vec![37]]).count(), 1);
    assert_eq!(flatten(vec![vec![37, 73]]).count(), 2);
    assert_eq!(flatten(vec![vec![37], vec![73]]).count(), 2);
    assert_eq!(flatten(vec![vec![37, 73, 137], vec![], vec![0]]).count(), 4);
}

fn collect_backwards<T>(mut iter: sync_primitives::flatten::Flatten<T>) -> Vec<T> {
    let mut out = Vec::new();
    while let Some(item) = iter.next_back() {
        out.push(item);
    }
    out
}

#[test]
fn test_reverse() {
    assert_eq!(collect_backwards(flatten(vec![vec![0, 1, 2]])), vec![2, 1, 0]);
    assert_eq!(
        collect_backwards(flatten(vec![vec![0], vec![1], vec![2]])),
        vec![2, 1, 0]
    );
}

#[test]
fn test_next_and_next_back_together() {
    let mut iter = flatten(vec![vec![1, 2, 3], vec![4, 5]]);
    assert_eq!(iter.next(), Some(1));
    assert_eq!(iter.next_back(), Some(5));
    assert_eq!(iter.next(), Some(2));
    assert_eq!(iter.next_back(), Some(4));
    assert_eq!(iter.next_back(), Some(3));
    assert_eq!(iter.next(), None);
    assert_eq!(iter.next_back(), None);
}

#[test]
fn test_flatten_twice() {
    assert_eq!(flatten(flatten(vec![vec![vec![0, 1], vec![2]]]).to_vec()).count(), 3);
}

#[test]
fn test_our_flatten_method() {
    assert_eq!(vec![vec![0, 1]].our_flatten().count(), 2);
}

#[test]
fn test_flatten_complex() {
    let result = vec![vec![vec![1, 2], vec![3]], vec![vec![4], vec![5, 6]]]
        .our_flatten()
        .to_vec()
        .our_flatten()
        .to_vec();
    assert_eq!(result, vec![1, 2, 3, 4, 5, 6]);
}

#[test]
fn test_to_vec_in_order() {
    let v = flatten(vec![vec![1], vec![], vec![2, 3]]).to_vec();
    assert_eq!(v, vec![1, 2, 3]);
}

#[test]
fn test_next_from_back_buffer() {
    let mut iter = flatten(vec![vec![1, 2]]);
    assert_eq!(iter.next_back(), Some(2));
    assert_eq!(iter.next(), Some(1));
    assert_eq!(iter.next(), None);
}
