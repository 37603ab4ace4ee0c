use pulsar_cat::formatter::ConsumedMessage;
use pulsar_cat::poller::{
    consumer_name, generate_consumer_id, idle_exit_notice, subscription_name, PollerAction,
    PollerPhase, ReceiveMode, ReceiveOutcome, StreamPoller, IDLE_THRESHOLD_MS, PROBE_TIMEOUT_MS,
    STEADY_TIMEOUT_MS,
};

fn message() -> ReceiveOutcome {
    ReceiveOutcome::Message(ConsumedMessage {
        topic: "t".to_string(),
        message_id: "id".to_string(),
        key: None,
        payload: b"x".to_vec(),
        publish_time: 1,
        headers: Vec::new(),
    })
}

#[test]
fn timeout_constants() {
    assert_eq!(PROBE_TIMEOUT_MS, 300);
    assert_eq!(STEADY_TIMEOUT_MS, 500);
    assert_eq!(IDLE_THRESHOLD_MS, 1000);
}

#[test]
fn empty_topic_with_early_exit_closes_after_one_probe() {
    let mut p = StreamPoller::new(true, 0);
    assert_eq!(p.phase, PollerPhase::Probing);
    assert_eq!(p.next_receive(), Some(ReceiveMode::Timed(300)));
    let a = p.on_outcome(&ReceiveOutcome::TimedOut, 100);
    assert_eq!(a, PollerAction::NoticeEmptyTopic);
    assert_eq!(p.phase, PollerPhase::Closed);
    assert_eq!(p.next_receive(), None);
    assert!(!p.idle.seen_any_message);
}

#[test]
fn probe_end_of_stream_is_empty_topic() {
    let mut p = StreamPoller::new(true, 0);
    let a = p.on_outcome(&ReceiveOutcome::EndOfStream, 50);
    assert_eq!(a, PollerAction::NoticeEmptyTopic);
    assert_eq!(p.phase, PollerPhase::Closed);
}

#[test]
fn probe_error_is_fatal() {
    let mut p = StreamPoller::new(true, 0);
    let a = p.on_outcome(&ReceiveOutcome::Failed("broken".to_string()), 50);
    assert_eq!(a, PollerAction::Fatal);
    assert_eq!(p.phase, PollerPhase::Closed);
}

#[test]
fn probe_message_starts_streaming_with_steady_timeout() {
    let mut p = StreamPoller::new(true, 0);
    let a = p.on_outcome(&message(), 120);
    assert_eq!(a, PollerAction::Emit);
    assert_eq!(p.phase, PollerPhase::Streaming);
    assert!(p.idle.seen_any_message);
    assert_eq!(p.idle.last_message_time, 120);
    assert_eq!(p.next_receive(), Some(ReceiveMode::Timed(500)));
}

#[test]
fn idle_over_threshold_terminates_without_further_receives() {
    let mut p = StreamPoller::new(true, 0);
    assert_eq!(p.on_outcome(&message(), 1000), PollerAction::Emit);
    // Quiet for only half a second: keep polling.
    assert_eq!(p.on_outcome(&ReceiveOutcome::TimedOut, 1500), PollerAction::KeepPolling);
    assert_eq!(p.phase, PollerPhase::Streaming);
    // Quiet for longer than the idle threshold: drain, no further receive.
    assert_eq!(p.on_outcome(&ReceiveOutcome::TimedOut, 2100), PollerAction::IdleExit);
    assert_eq!(p.phase, PollerPhase::Draining);
    assert_eq!(p.next_receive(), None);
    p.on_drained();
    assert_eq!(p.phase, PollerPhase::Closed);
}

#[test]
fn idle_exactly_at_threshold_keeps_polling() {
    let mut p = StreamPoller::new(true, 0);
    p.on_outcome(&message(), 1000);
    assert_eq!(p.on_outcome(&ReceiveOutcome::TimedOut, 2000), PollerAction::KeepPolling);
    assert_eq!(p.phase, PollerPhase::Streaming);
}

#[test]
fn message_resets_idle_clock() {
    let mut p = StreamPoller::new(true, 0);
    p.on_outcome(&message(), 1000);
    p.on_outcome(&message(), 5000);
    assert_eq!(p.idle.last_message_time, 5000);
    assert_eq!(p.elapsed_idle(5600), 600);
    assert_eq!(p.on_outcome(&ReceiveOutcome::TimedOut, 5600), PollerAction::KeepPolling);
}

#[test]
fn without_early_exit_receives_are_unbounded() {
    let mut p = StreamPoller::new(false, 0);
    assert_eq!(p.phase, PollerPhase::Streaming);
    assert_eq!(p.next_receive(), Some(ReceiveMode::Unbounded));
    assert_eq!(p.on_outcome(&message(), 10), PollerAction::Emit);
    assert_eq!(p.next_receive(), Some(ReceiveMode::Unbounded));
}

#[test]
fn end_of_stream_while_streaming_drains() {
    let mut p = StreamPoller::new(false, 0);
    let a = p.on_outcome(&ReceiveOutcome::EndOfStream, 10);
    assert_eq!(a, PollerAction::NoticeEndOfStream);
    assert_eq!(p.phase, PollerPhase::Draining);
}

#[test]
fn receive_error_while_streaming_drains() {
    let mut p = StreamPoller::new(false, 0);
    let a = p.on_outcome(&ReceiveOutcome::Failed("gone".to_string()), 10);
    assert_eq!(a, PollerAction::ReportError);
    assert_eq!(p.phase, PollerPhase::Draining);
}

#[test]
fn interrupt_drains_an_open_stream() {
    let mut p = StreamPoller::new(false, 0);
    p.on_interrupt();
    assert_eq!(p.phase, PollerPhase::Draining);

    let mut closed = StreamPoller::new(true, 0);
    closed.on_outcome(&ReceiveOutcome::TimedOut, 10);
    assert_eq!(closed.phase, PollerPhase::Closed);
    closed.on_interrupt();
    assert_eq!(closed.phase, PollerPhase::Closed);
}

#[test]
fn elapsed_idle_clamps_backward_clock() {
    let p = StreamPoller::new(true, 100);
    assert_eq!(p.elapsed_idle(40), 0);
}

#[test]
fn idle_exit_notice_text() {
    assert_eq!(idle_exit_notice(1206), "No new messages received for 1206 ms, exiting...");
}

#[test]
fn consumer_id_is_decimal() {
    let id = generate_consumer_id();
    assert!(!id.is_empty());
    assert!(id.chars().all(|c| c.is_ascii_digit()));
    assert!(id.len() == 1 || !id.starts_with('0'));
}

#[test]
fn naming_helpers() {
    assert_eq!(subscription_name("123"), "pulsar-cat-consumer-123");
    assert_eq!(consumer_name("123"), "pulsar-cat-123");
}
