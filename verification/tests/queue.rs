use sjmb::ircbot::IrcOp;
use sjmb::queue::FifoQueue;

#[test]
fn fifo_executes_in_enqueue_order() {
    let mut q: FifoQueue<IrcOp> = FifoQueue::new();
    q.enqueue(IrcOp::Nick("a".to_string()));
    q.enqueue(IrcOp::Nick("b".to_string()));
    q.enqueue(IrcOp::Nick("c".to_string()));
    assert_eq!(q.len(), 3);
    let order: Vec<String> = [q.dequeue(), q.dequeue(), q.dequeue()]
        .into_iter()
        .map(|op| match op {
            Some(IrcOp::Nick(n)) => n,
            other => panic!("unexpected {:?}", other),
        })
        .collect();
    assert_eq!(order, vec!["a".to_string(), "b".to_string(), "c".to_string()]);
    assert!(q.dequeue().is_none());
    assert!(q.is_empty());
}

#[test]
fn take_all_preserves_order_and_empties() {
    let mut q: FifoQueue<u64> = FifoQueue::new();
    for x in [10u64, 20, 30, 40] {
        q.enqueue(x);
    }
    let all = q.take_all();
    assert_eq!(all, vec![10u64, 20, 30, 40]);
    assert!(q.is_empty());
}

#[test]
fn dequeue_interleaved_with_enqueue_keeps_order() {
    let mut q: FifoQueue<u64> = FifoQueue::new();
    q.enqueue(1);
    q.enqueue(2);
    assert_eq!(q.dequeue(), Some(1));
    q.enqueue(3);
    assert_eq!(q.dequeue(), Some(2));
    assert_eq!(q.dequeue(), Some(3));
    assert_eq!(q.dequeue(), None);
}
