use termdash::HistoryBuffer;

#[test]
fn capacity_never_exceeded() {
    let mut buf: HistoryBuffer<u64> = HistoryBuffer::new(5);
    for i in 0..100u64 {
        buf.push(i);
        assert!(buf.len() <= 5);
    }
}

#[test]
fn fifo_window_of_twenty() {
    let mut buf: HistoryBuffer<u64> = HistoryBuffer::new(20);
    for i in 1..=25u64 {
        buf.push(i);
    }
    let expected: Vec<u64> = (6..=25).collect();
    assert_eq!(*buf.snapshot(), expected);
}

#[test]
fn under_capacity_keeps_everything_in_order() {
    let mut buf: HistoryBuffer<u64> = HistoryBuffer::new(20);
    buf.push(10);
    buf.push(20);
    buf.push(30);
    assert_eq!(*buf.snapshot(), vec![10, 20, 30]);
    assert_eq!(buf.len(), 3);
}

#[test]
fn eviction_is_oldest_first() {
    let mut buf: HistoryBuffer<u64> = HistoryBuffer::new(2);
    buf.push(1);
    buf.push(2);
    buf.push(3);
    assert_eq!(*buf.snapshot(), vec![2, 3]);
    buf.push(4);
    assert_eq!(*buf.snapshot(), vec![3, 4]);
}

#[test]
fn capacity_one_holds_only_newest() {
    let mut buf: HistoryBuffer<u64> = HistoryBuffer::new(1);
    buf.push(7);
    buf.push(8);
    assert_eq!(*buf.snapshot(), vec![8]);
    assert_eq!(buf.len(), 1);
}
