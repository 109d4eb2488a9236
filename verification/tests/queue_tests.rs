use render_core::command::{CommandBuffer, CommandEncoder};
use render_core::handle::BufferId;
use render_core::queue::{CommandBufferQueue, CommandQueueItem, QueueError};

fn buffer(tag: u8) -> CommandBuffer {
    let mut encoder = CommandEncoder::new("test");
    encoder.copy_buffer_to_buffer(vec![tag], 0, BufferId(u64::from(tag)), 0, 1);
    encoder.finish()
}

fn item(name: &str, tag: u8) -> CommandQueueItem {
    CommandQueueItem { buffer: buffer(tag), name: name.to_string() }
}

#[test]
fn new_queue_is_empty_and_open() {
    let queue = CommandBufferQueue::new(8);
    assert_eq!(queue.len(), 0);
    assert!(queue.is_empty());
    assert_eq!(queue.capacity(), 8);
    assert!(queue.is_open());
}

#[test]
fn drain_returns_items_oldest_first() {
    let mut queue = CommandBufferQueue::new(8);
    assert_eq!(queue.push(item("a", 1)), Ok(()));
    assert_eq!(queue.push(item("b", 2)), Ok(()));
    assert_eq!(queue.push(item("c", 3)), Ok(()));
    assert_eq!(queue.len(), 3);
    let drained = queue.drain_in_order();
    assert_eq!(drained, vec![item("a", 1), item("b", 2), item("c", 3)]);
}

#[test]
fn queue_is_empty_after_drain_and_second_drain_is_empty() {
    let mut queue = CommandBufferQueue::new(4);
    queue.push(item("a", 1)).unwrap();
    queue.push(item("b", 2)).unwrap();
    assert_eq!(queue.drain_in_order().len(), 2);
    assert!(queue.is_empty());
    assert_eq!(queue.len(), 0);
    assert_eq!(queue.drain_in_order(), Vec::<CommandQueueItem>::new());
    assert_eq!(queue.capacity(), 4);
    assert!(queue.is_open());
}

#[test]
fn drain_of_empty_queue_is_empty() {
    let mut queue = CommandBufferQueue::new(4);
    assert!(queue.drain_in_order().is_empty());
}

#[test]
fn push_to_full_queue_is_reported_and_changes_nothing() {
    let mut queue = CommandBufferQueue::new(2);
    assert_eq!(queue.push(item("a", 1)), Ok(()));
    assert_eq!(queue.push(item("b", 2)), Ok(()));
    assert_eq!(queue.push(item("c", 3)), Err(QueueError::Full));
    assert_eq!(queue.len(), 2);
    assert_eq!(queue.drain_in_order(), vec![item("a", 1), item("b", 2)]);
}

#[test]
fn queue_without_room_turns_every_push_down() {
    let mut queue = CommandBufferQueue::new(0);
    assert_eq!(queue.push(item("a", 1)), Err(QueueError::Full));
    assert!(queue.is_empty());
}

#[test]
fn push_after_shut_down_is_reported() {
    let mut queue = CommandBufferQueue::new(4);
    queue.push(item("a", 1)).unwrap();
    queue.shut_down();
    assert!(!queue.is_open());
    assert_eq!(queue.push(item("b", 2)), Err(QueueError::ShutDown));
    assert_eq!(queue.len(), 1);
    assert_eq!(queue.drain_in_order(), vec![item("a", 1)]);
}

#[test]
fn shut_down_is_reported_before_full() {
    let mut queue = CommandBufferQueue::new(1);
    queue.push(item("a", 1)).unwrap();
    queue.shut_down();
    assert_eq!(queue.push(item("b", 2)), Err(QueueError::ShutDown));
}

#[test]
fn push_after_drain_waits_for_the_next_drain() {
    let mut queue = CommandBufferQueue::new(2);
    queue.push(item("a", 1)).unwrap();
    queue.push(item("b", 2)).unwrap();
    assert_eq!(queue.drain_in_order(), vec![item("a", 1), item("b", 2)]);
    assert_eq!(queue.push(item("c", 3)), Ok(()));
    assert_eq!(queue.push(item("d", 4)), Ok(()));
    assert_eq!(queue.drain_in_order(), vec![item("c", 3), item("d", 4)]);
}

#[test]
fn interleaved_producers_keep_their_own_order() {
    let mut queue = CommandBufferQueue::new(16);
    let arrivals = [("x", 1u8), ("y", 10), ("y", 11), ("x", 2), ("z", 20), ("x", 3), ("y", 12)];
    for (producer, tag) in arrivals {
        queue.push(item(producer, tag)).unwrap();
    }
    let drained = queue.drain_in_order();
    assert_eq!(drained.len(), arrivals.len());
    for producer in ["x", "y", "z"] {
        let pushed: Vec<CommandQueueItem> = arrivals
            .iter()
            .filter(|(p, _)| *p == producer)
            .map(|(p, tag)| item(p, *tag))
            .collect();
        let came_out: Vec<CommandQueueItem> =
            drained.iter().filter(|i| i.name == producer).cloned().collect();
        assert_eq!(came_out, pushed);
    }
}

#[test]
fn encoder_keeps_label_and_order() {
    let mut encoder = CommandEncoder::new("frame");
    encoder.copy_buffer_to_buffer(vec![1, 2], 0, BufferId(5), 4, 2);
    encoder.copy_buffer_to_buffer(vec![3], 0, BufferId(6), 0, 1);
    let buffer = encoder.finish();
    assert_eq!(buffer.label(), "frame");
    assert_eq!(buffer.commands().len(), 2);
    match &buffer.commands()[0] {
        render_core::command::Command::CopyBuffer(copy) => {
            assert_eq!(copy.data, vec![1, 2]);
            assert_eq!(copy.source_offset, 0);
            assert_eq!(copy.destination, BufferId(5));
            assert_eq!(copy.destination_offset, 4);
            assert_eq!(copy.size, 2);
        }
        other => panic!("unexpected command {:?}", other),
    }
}
