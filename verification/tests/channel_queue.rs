use rolling_sampler::channel_queue::ChannelQueue;

#[test]
fn overflow_keeps_the_most_recent() {
    let mut queue = ChannelQueue::new(4);
    for sample in 1..=10u32 {
        queue.push(sample);
    }
    assert_eq!(queue.len(), 4);
    assert_eq!(queue.drain_available(), vec![7, 8, 9, 10]);
}

#[test]
fn drain_is_first_in_first_out_and_empties() {
    let mut queue = ChannelQueue::new(8);
    queue.push(3);
    queue.push(1);
    queue.push(2);
    assert!(!queue.is_empty());
    assert_eq!(queue.drain_available(), vec![3, 1, 2]);
    assert!(queue.is_empty());
    assert_eq!(queue.drain_available(), Vec::<u32>::new());
    assert_eq!(queue.capacity(), 8);
}

#[test]
fn drain_of_fresh_queue_is_empty() {
    let mut queue = ChannelQueue::new(2);
    assert_eq!(queue.drain_available(), Vec::<u32>::new());
}

#[test]
fn queue_without_room_keeps_nothing() {
    let mut queue = ChannelQueue::new(0);
    queue.push(1);
    queue.push(2);
    assert_eq!(queue.len(), 0);
    assert_eq!(queue.drain_available(), Vec::<u32>::new());
}

#[test]
fn exactly_capacity_drops_nothing() {
    let mut queue = ChannelQueue::new(3);
    queue.push(1);
    queue.push(2);
    queue.push(3);
    assert_eq!(queue.len(), 3);
    queue.push(4);
    assert_eq!(queue.drain_available(), vec![2, 3, 4]);
}

#[test]
fn clear_drops_what_is_queued() {
    let mut queue = ChannelQueue::new(3);
    queue.push(1);
    queue.clear();
    assert!(queue.is_empty());
    queue.push(2);
    assert_eq!(queue.drain_available(), vec![2]);
}
