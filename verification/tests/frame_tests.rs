use render_core::command::CommandEncoder;
use render_core::error::{ConfigurationError, PassError};
use render_core::frame::collect_submission;
use render_core::queue::{CommandBufferQueue, CommandQueueItem, QueueError};

fn named(name: &str) -> CommandQueueItem {
    CommandQueueItem { buffer: CommandEncoder::new(name).finish(), name: name.to_string() }
}

fn filled() -> CommandBufferQueue {
    let mut queue = CommandBufferQueue::new(4);
    queue.push(named("skybox")).unwrap();
    queue.push(named("mesh")).unwrap();
    queue
}

#[test]
fn frame_without_errors_submits_everything_in_order() {
    let mut queue = filled();
    let submission = collect_submission(&mut queue, &vec![]);
    assert_eq!(submission, vec![named("skybox"), named("mesh")]);
    assert!(queue.is_empty());
}

#[test]
fn lost_pass_output_does_not_stop_the_frame() {
    let mut queue = filled();
    let errors = vec![PassError::Queue(QueueError::Full), PassError::Queue(QueueError::ShutDown)];
    let submission = collect_submission(&mut queue, &errors);
    assert_eq!(submission, vec![named("skybox"), named("mesh")]);
    assert!(queue.is_empty());
}

#[test]
fn fatal_error_submits_nothing_and_resets_the_queue() {
    let mut queue = filled();
    let errors = vec![
        PassError::Queue(QueueError::Full),
        PassError::Configuration(ConfigurationError::PipelineNotFound),
    ];
    let submission = collect_submission(&mut queue, &errors);
    assert!(submission.is_empty());
    assert!(queue.is_empty());
    assert_eq!(queue.capacity(), 4);
}

#[test]
fn configuration_errors_are_fatal_and_queue_errors_are_not() {
    assert!(PassError::Configuration(ConfigurationError::PipelineNotFound).is_fatal());
    assert!(PassError::Configuration(ConfigurationError::BindGroupNotFound).is_fatal());
    assert!(PassError::Configuration(ConfigurationError::BufferNotFound).is_fatal());
    assert!(PassError::Configuration(ConfigurationError::DepthViewMissing).is_fatal());
    assert!(!PassError::Queue(QueueError::Full).is_fatal());
    assert!(!PassError::Queue(QueueError::ShutDown).is_fatal());
}
