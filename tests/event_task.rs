use photo_echo::event::{Event, Message};
use photo_echo::gateway::GatewayError;
use photo_echo::poll::{PollAction, PollLoop};
use photo_echo::task::{EventTask, Stage, TaskAction, TaskEvent, TaskOutcome};

fn with_photo(id: i64, chat_id: i64, message_id: i64, sizes: &[&str]) -> Event {
    Event {
        id,
        message: Some(Message {
            chat_id,
            message_id,
            photo_sizes: Some(sizes.iter().map(|s| s.to_string()).collect()),
        }),
    }
}

fn text_only(id: i64) -> Event {
    Event { id, message: Some(Message { chat_id: 1, message_id: 2, photo_sizes: None }) }
}

#[test]
fn reference_is_largest_size() {
    let e = with_photo(1, 10, 20, &["small", "medium", "large"]);
    assert_eq!(e.payload_reference(), Some("large".to_string()));
    assert_eq!(text_only(2).payload_reference(), None);
    assert_eq!(Event { id: 3, message: None }.payload_reference(), None);
    assert_eq!(with_photo(4, 1, 1, &[]).payload_reference(), None);
}

#[test]
fn event_without_reference_is_noop() {
    for e in [text_only(1), Event { id: 2, message: None }, with_photo(3, 1, 1, &[])] {
        let (mut task, action) = EventTask::start(&e);
        assert!(matches!(action, TaskAction::Complete));
        assert!(matches!(task.stage(), Stage::Finished(TaskOutcome::Skipped)));
        assert!(matches!(task.advance(TaskEvent::ArtifactFetched(vec![1])), TaskAction::Complete));
        assert!(matches!(task.advance(TaskEvent::Submitted), TaskAction::Complete));
        assert!(matches!(task.stage(), Stage::Finished(TaskOutcome::Skipped)));
    }
}

#[test]
fn photo_is_fetched_then_submitted() {
    let (mut task, action) = EventTask::start(&with_photo(7, 55, 66, &["s", "big"]));
    match action {
        TaskAction::FetchArtifact { reference } => assert_eq!(reference, "big"),
        other => panic!("unexpected {:?}", other),
    }
    assert!(!task.is_finished());
    match task.advance(TaskEvent::ArtifactFetched(vec![0xff, 0xd8, 0x01])) {
        TaskAction::Submit { artifact, chat_id, reply_to } => {
            assert_eq!(artifact, vec![0xff, 0xd8, 0x01]);
            assert_eq!(chat_id, 55);
            assert_eq!(reply_to, 66);
        }
        other => panic!("unexpected {:?}", other),
    }
    assert!(matches!(task.advance(TaskEvent::Submitted), TaskAction::Complete));
    assert!(matches!(task.stage(), Stage::Finished(TaskOutcome::Delivered)));
}

#[test]
fn failed_fetch_submits_nothing() {
    let (mut task, _) = EventTask::start(&with_photo(7, 55, 66, &["x"]));
    let a = task.advance(TaskEvent::ArtifactFailed(GatewayError::NotFound));
    assert!(matches!(a, TaskAction::Complete));
    assert!(matches!(task.stage(), Stage::Finished(TaskOutcome::FetchFailed(GatewayError::NotFound))));
    assert!(matches!(task.advance(TaskEvent::ArtifactFetched(vec![1])), TaskAction::Complete));
    assert!(task.is_finished());
}

#[test]
fn failed_submit_is_not_retried() {
    let (mut task, _) = EventTask::start(&with_photo(7, 55, 66, &["x"]));
    assert!(matches!(task.advance(TaskEvent::ArtifactFetched(vec![2])), TaskAction::Submit { .. }));
    let err = GatewayError::Remote("{\"ok\":false}".to_string());
    assert!(matches!(task.advance(TaskEvent::SubmitFailed(err)), TaskAction::Complete));
    match task.stage() {
        Stage::Finished(TaskOutcome::SubmitFailed(GatewayError::Remote(raw))) => {
            assert_eq!(raw, "{\"ok\":false}")
        }
        other => panic!("unexpected {:?}", other),
    }
    assert!(matches!(task.advance(TaskEvent::Submitted), TaskAction::Complete));
    assert!(matches!(task.stage(), Stage::Finished(TaskOutcome::SubmitFailed(_))));
}

#[test]
fn mismatched_report_changes_nothing() {
    let (mut task, _) = EventTask::start(&with_photo(7, 55, 66, &["x"]));
    assert!(matches!(task.advance(TaskEvent::Submitted), TaskAction::Wait));
    assert!(matches!(task.stage(), Stage::Fetching { chat_id: 55, reply_to: 66 }));
    assert!(matches!(task.advance(TaskEvent::ArtifactFetched(vec![])), TaskAction::Submit { .. }));
    assert!(matches!(
        task.advance(TaskEvent::ArtifactFailed(GatewayError::NotFound)),
        TaskAction::Wait
    ));
    assert!(matches!(task.stage(), Stage::Submitting { chat_id: 55, reply_to: 66 }));
}

#[test]
fn mixed_round_completes_before_next_fetch() {
    let mut poll = PollLoop::new();
    let batch = vec![text_only(200), with_photo(201, 5, 50, &["missing"]), with_photo(202, 6, 60, &["ok"])];
    assert_eq!(poll.on_batch(&batch), Ok(()));
    assert_eq!(poll.cursor(), 203);

    let (noop, a0) = EventTask::start(&batch[0]);
    assert!(matches!(a0, TaskAction::Complete));
    assert!(noop.is_finished());
    assert_eq!(poll.on_task_finished(), Ok(()));
    assert_eq!(poll.next_action(), PollAction::AwaitTasks { remaining: 2 });

    let (mut failing, a1) = EventTask::start(&batch[1]);
    assert!(matches!(a1, TaskAction::FetchArtifact { .. }));
    let a1 = failing.advance(TaskEvent::ArtifactFailed(GatewayError::Transport("timed out".to_string())));
    assert!(matches!(a1, TaskAction::Complete));
    assert!(matches!(failing.stage(), Stage::Finished(TaskOutcome::FetchFailed(_))));
    assert_eq!(poll.on_task_finished(), Ok(()));
    assert_eq!(poll.cursor(), 203);
    assert_eq!(poll.next_action(), PollAction::AwaitTasks { remaining: 1 });

    let (mut good, a2) = EventTask::start(&batch[2]);
    assert!(matches!(a2, TaskAction::FetchArtifact { .. }));
    assert!(matches!(good.advance(TaskEvent::ArtifactFetched(vec![9])), TaskAction::Submit { chat_id: 6, reply_to: 60, .. }));
    assert!(matches!(good.advance(TaskEvent::Submitted), TaskAction::Complete));
    assert!(matches!(good.stage(), Stage::Finished(TaskOutcome::Delivered)));
    assert_eq!(poll.on_task_finished(), Ok(()));
    assert_eq!(poll.next_action(), PollAction::Fetch { cursor: 203, wait_secs: 60 });
}
