use fifo_queue::queue::{GQueue, Queue};

#[test]
fn test_queue() {
    let mut q = Queue::new();

    q.push('0');
    q.push('1');
    assert_eq!(q.pop(), Some('0'));

    q.push('&');
    assert_eq!(q.pop(), Some('1'));
    assert_eq!(q.pop(), Some('&'));
    assert_eq!(q.pop(), None);

    // is_empty
    q.push('a');
    assert!(!q.is_empty());
    assert_eq!(q.pop(), Some('a'));
    assert!(q.is_empty());

    // split
    q.push('P');
    q.push('D');
    assert_eq!(q.pop(), Some('P'));
    q.push('X');
    let (older, younger) = q.split();
    assert_eq!(older, vec!['D']);
    assert_eq!(younger, vec!['X']);

    // constructor
    let mut q = Queue::new();
    q.push('*');
    assert_eq!(q.pop(), Some('*'));
}

#[test]
fn test_gqueue() {
    let mut c = GQueue::<char>::new();

    let mut q = GQueue::new();
    let mut r = GQueue::new();

    q.push("CAD");
    r.push(0.74);

    q.push("BTC");
    r.push(2737.7);

    assert!(c.is_empty());
    assert!(!q.is_empty());
    assert!(!r.is_empty());

    c.push('C');
}
