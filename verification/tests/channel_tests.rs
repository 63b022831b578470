use sync_primitives::channel::channel;

#[test]
fn test_send_and_receive() {
    let (mut tx, mut rx) = channel();
    tx.send(37);
    assert_eq!(rx.receive(), Some(37));
}

#[test]
fn test_multiple_send_receive() {
    let (mut tx, mut rx) = channel();
    tx.send(1);
    tx.send(2);
    assert_eq!(rx.receive(), Some(1));
    assert_eq!(rx.receive(), Some(2));
}

#[test]
fn test_closed_tx() {
    let (tx, mut rx) = channel::<()>();
    drop(tx);
    assert_eq!(rx.receive(), None);
}

#[test]
fn test_closed_rx() {
    let (mut tx, rx) = channel();
    drop(rx);
    tx.send(42);
}

#[test]
fn test_fifo_order_across_batches() {
    let (mut tx, mut rx) = channel();
    tx.send(10);
    tx.send(20);
    tx.send(30);
    assert_eq!(rx.receive(), Some(10));
    tx.send(40);
    assert_eq!(rx.receive(), Some(20));
    assert_eq!(rx.receive(), Some(30));
    assert_eq!(rx.receive(), Some(40));
    drop(tx);
    assert_eq!(rx.receive(), None);
}

#[test]
fn test_fan_in_all_values() {
    let (mut tx, mut rx) = channel();
    let mut clones = Vec::new();
    for i in 0..10 {
        let mut tx_clone = tx.clone();
        tx_clone.send(i);
        clones.push(tx_clone);
    }
    tx.send(10);
    let mut received_values = Vec::new();
    for _ in 0..11 {
        received_values.push(rx.receive().unwrap());
    }
    received_values.sort_unstable();
    assert_eq!(received_values, [0, 1, 2, 3, 4, 5, 6, 7, 8, 9, 10]);
}

#[test]
fn test_clone_keeps_channel_open() {
    let (tx, mut rx) = channel();
    let mut tx_clone = tx.clone();
    drop(tx);
    tx_clone.send(7);
    assert_eq!(rx.receive(), Some(7));
    drop(tx_clone);
    assert_eq!(rx.receive(), None);
}
