use wattson::state::RingBuffer;

#[test]
fn test_ring_buffer_push_and_iter() {
    let mut buf = RingBuffer::new(4);
    buf.push(1.0);
    buf.push(2.0);
    buf.push(3.0);
    let v: Vec<f64> = buf.iter().copied().collect();
    assert_eq!(v, vec![1.0, 2.0, 3.0]);
}

#[test]
fn test_ring_buffer_wraps() {
    let mut buf = RingBuffer::new(3);
    buf.push(1.0);
    buf.push(2.0);
    buf.push(3.0);
    buf.push(4.0); // overwrites 1.0
    let v: Vec<f64> = buf.iter().copied().collect();
    assert_eq!(v, vec![2.0, 3.0, 4.0]);
}

#[test]
fn test_ring_buffer_empty() {
    let buf = RingBuffer::new(4);
    assert_eq!(buf.len(), 0);
    let v: Vec<f64> = buf.iter().copied().collect();
    assert!(v.is_empty());
}

#[test]
fn ring_buffer_keeps_the_newest_items() {
    let mut buf = RingBuffer::new(5);
    for i in 0..12 {
        buf.push(i);
        assert!(buf.len() <= buf.capacity());
    }
    let v: Vec<i32> = buf.iter().copied().collect();
    assert_eq!(v, vec![7, 8, 9, 10, 11]);
    assert_eq!(buf.capacity(), 5);
    assert!(!buf.is_empty());
}

#[test]
fn ring_buffer_of_capacity_zero_keeps_everything() {
    let mut buf = RingBuffer::new(0);
    buf.push('a');
    buf.push('b');
    buf.push('c');
    let v: Vec<char> = buf.iter().copied().collect();
    assert_eq!(v, vec!['a', 'b', 'c']);
}
