use sync_primitives::atomics::Mutex;

#[test]
fn test_new_holds_value() {
    let mut m = Mutex::new(37_u64);
    let read = m.with_lock_v3(|v: u64| (v, v));
    assert_eq!(read, 37);
}

#[test]
fn test_with_lock_v1_increments() {
    let mut m = Mutex::new(0_u64);
    for _ in 0..1000 {
        m.with_lock_v1(|v: u64| (v + 1, ()));
    }
    assert_eq!(m.with_lock_v1(|v: u64| (v, v)), 1000);
}

#[test]
fn test_with_lock_v2_increments() {
    let mut m = Mutex::new(0_u64);
    for _ in 0..1000 {
        m.with_lock_v2(|v: u64| (v + 1, ()));
    }
    assert_eq!(m.with_lock_v2(|v: u64| (v, v)), 1000);
}

#[test]
fn test_with_lock_v3_increments() {
    let mut m = Mutex::new(0_u64);
    for _ in 0..1000 {
        m.with_lock_v3(|v: u64| (v + 1, ()));
    }
    assert_eq!(m.with_lock_v3(|v: u64| (v, v)), 1000);
}

#[test]
fn test_with_lock_returns_closure_result() {
    let mut m = Mutex::new(String::from("lock"));
    let len = m.with_lock_v3(|s: String| {
        let n = s.len();
        (s, n)
    });
    assert_eq!(len, 4);
}
