use coffee_machine::blocking_queue::BlockingQueue;

#[test]
fn fifo_pop_order_matches_push_order() {
    let mut queue: BlockingQueue<String> = BlockingQueue::new();
    queue.push_back(String::from("A"));
    queue.push_back(String::from("B"));
    queue.push_back(String::from("C"));
    let first = queue.pop_front();
    let second = queue.pop_front();
    let third = queue.pop_front();
    assert_eq!(first, "A");
    assert_eq!(second, "B");
    assert_eq!(third, "C");
    assert!(queue.is_empty());
}

#[test]
fn three_pops_return_all_three_values_without_loss() {
    let mut queue: BlockingQueue<u64> = BlockingQueue::new();
    queue.push_back(10);
    queue.push_back(20);
    queue.push_back(30);
    let mut popped = vec![queue.pop_front(), queue.pop_front(), queue.pop_front()];
    popped.sort();
    assert_eq!(popped, vec![10, 20, 30]);
    assert_eq!(queue.len(), 0);
}

#[test]
fn new_queue_is_empty() {
    let queue: BlockingQueue<u64> = BlockingQueue::new();
    assert!(queue.is_empty());
    assert_eq!(queue.len(), 0);
}

#[test]
fn peek_front_shows_the_next_pop_without_removing_it() {
    let mut queue: BlockingQueue<u64> = BlockingQueue::new();
    assert!(queue.peek_front().is_none());
    queue.push_back(7);
    queue.push_back(8);
    assert_eq!(queue.peek_front(), Some(&7));
    assert_eq!(queue.len(), 2);
    assert_eq!(queue.pop_front(), 7);
    assert_eq!(queue.peek_front(), Some(&8));
}

#[test]
fn interleaved_pushes_and_pops_keep_order() {
    let mut queue: BlockingQueue<u64> = BlockingQueue::new();
    queue.push_back(1);
    queue.push_back(2);
    assert_eq!(queue.pop_front(), 1);
    queue.push_back(3);
    assert_eq!(queue.pop_front(), 2);
    assert_eq!(queue.pop_front(), 3);
    assert!(queue.is_empty());
}
