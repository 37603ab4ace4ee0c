use vstd::prelude::*;

use crate::formatter::ConsumedMessage;
use crate::text::{chars_to_string, dec_digits, push_str_chars, u64_dec_chars, u64_to_decimal};
use std::time::{SystemTime, UNIX_EPOCH};
use vstd::string::StringExecFns;

verus! {

/// Timeout of the single probing receive that decides whether a topic is
/// empty, in milliseconds.
pub const PROBE_TIMEOUT_MS: u64 = 300;

/// Timeout of each steady-state receive once a message has been seen and
/// early exit is enabled, in milliseconds.
pub const STEADY_TIMEOUT_MS: u64 = 500;

/// Quiet period after which an early-exit consumer concludes the topic is
/// exhausted, in milliseconds. Strictly longer than one short-timeout cycle,
/// so a single transient delivery gap does not end the stream.
pub const IDLE_THRESHOLD_MS: u64 = 1000;

/// How one receive attempt ended: a message, the broker's explicit
/// end-of-stream, a timeout, or a broker error (already rendered).
#[derive(Debug, Clone)]
pub enum ReceiveOutcome {
    Message(ConsumedMessage),
    EndOfStream,
    TimedOut,
    Failed(String),
}

/// The consume loop's phase. `Probing` issues the single short-timeout
/// receive that detects an empty topic; `Streaming` is the main loop;
/// `Draining` closes the consumer handle; `Closed` is terminal.
#[derive(Debug, Clone, Copy, PartialEq, Eq, Structural)]
pub enum PollerPhase {
    Probing,
    Streaming,
    Draining,
    Closed,
}

/// Idle tracking, updated once per receive attempt. `last_message_time` only
/// moves on a successfully received message, never on timeout or error.
#[derive(Debug, Clone, Copy, PartialEq, Eq, Structural)]
pub struct IdleState {
    pub last_message_time: u64,
    pub seen_any_message: bool,
    pub early_exit_enabled: bool,
}

/// What the caller owes after a step: render and acknowledge the received
/// message, print a notice, keep polling, or propagate a fatal error.
#[derive(Debug, Clone, Copy, PartialEq, Eq, Structural)]
pub enum PollerAction {
    Emit,
    NoticeEmptyTopic,
    NoticeEndOfStream,
    IdleExit,
    ReportError,
    Fatal,
    KeepPolling,
}

/// How the next receive must be issued: with a timeout in milliseconds, or
/// waiting without bound.
#[derive(Debug, Clone, Copy, PartialEq, Eq, Structural)]
pub enum ReceiveMode {
    Timed(u64),
    Unbounded,
}

/// The consume-side state machine. The broker offers no "end of topic"
/// marker, so exhaustion is inferred from the probe timeout and from idle
/// duration; this type makes every such decision, while the surrounding
/// binary performs the receives, rendering, acknowledgments and closing.
#[derive(Debug, Clone, Copy, PartialEq, Eq, Structural)]
pub struct StreamPoller {
    pub phase: PollerPhase,
    pub idle: IdleState,
}

/// Milliseconds elapsed since `last`, clamped at zero if the clock moved
/// backwards.
pub open spec fn idle_duration(now_ms: u64, last: u64) -> int {
    if now_ms >= last {
        now_ms - last
    } else {
        0
    }
}

/// The poller a consume run starts with: probing when early exit is
/// requested, otherwise streaming with unbounded receives.
pub open spec fn initial_spec(early_exit: bool, now_ms: u64) -> StreamPoller {
    StreamPoller {
        phase: if early_exit {
            PollerPhase::Probing
        } else {
            PollerPhase::Streaming
        },
        idle: IdleState {
            last_message_time: now_ms,
            seen_any_message: false,
            early_exit_enabled: early_exit,
        },
    }
}

/// Which receive the current phase calls for, if any.
pub open spec fn next_receive_spec(s: StreamPoller) -> Option<ReceiveMode> {
    match s.phase {
        PollerPhase::Probing => Some(ReceiveMode::Timed(PROBE_TIMEOUT_MS)),
        PollerPhase::Streaming => if s.idle.early_exit_enabled {
            Some(ReceiveMode::Timed(STEADY_TIMEOUT_MS))
        } else {
            Some(ReceiveMode::Unbounded)
        },
        PollerPhase::Draining => None,
        PollerPhase::Closed => None,
    }
}

/// The transition taken for one receive outcome.
///
/// A message is processed and keeps the stream open; a probe timeout or a
/// probe end-of-stream means the topic is empty; a steady-state timeout ends
/// the stream only once the quiet period exceeds the idle threshold; an
/// end-of-stream or broker error while streaming drains the consumer; a
/// broker error while probing is fatal.
pub open spec fn step_spec(s: StreamPoller, outcome: ReceiveOutcome, now_ms: u64) -> (
    StreamPoller,
    PollerAction,
)
    recommends
        s.phase == PollerPhase::Probing || s.phase == PollerPhase::Streaming,
{
    match outcome {
        ReceiveOutcome::Message(_) => (
            StreamPoller {
                phase: PollerPhase::Streaming,
                idle: IdleState {
                    last_message_time: now_ms,
                    seen_any_message: true,
                    early_exit_enabled: s.idle.early_exit_enabled,
                },
            },
            PollerAction::Emit,
        ),
        ReceiveOutcome::EndOfStream => if s.phase == PollerPhase::Probing {
            (StreamPoller { phase: PollerPhase::Closed, idle: s.idle }, PollerAction::NoticeEmptyTopic)
        } else {
            (
                StreamPoller { phase: PollerPhase::Draining, idle: s.idle },
                PollerAction::NoticeEndOfStream,
            )
        },
        ReceiveOutcome::TimedOut => if s.phase == PollerPhase::Probing {
            (StreamPoller { phase: PollerPhase::Closed, idle: s.idle }, PollerAction::NoticeEmptyTopic)
        } else if s.idle.early_exit_enabled && idle_duration(now_ms, s.idle.last_message_time)
            > IDLE_THRESHOLD_MS {
            (StreamPoller { phase: PollerPhase::Draining, idle: s.idle }, PollerAction::IdleExit)
        } else {
            (s, PollerAction::KeepPolling)
        },
        ReceiveOutcome::Failed(_) => if s.phase == PollerPhase::Probing {
            (StreamPoller { phase: PollerPhase::Closed, idle: s.idle }, PollerAction::Fatal)
        } else {
            (StreamPoller { phase: PollerPhase::Draining, idle: s.idle }, PollerAction::ReportError)
        },
    }
}

impl StreamPoller {
    /// Internal consistency: probing happens only in early-exit mode before
    /// any message, and an early-exit streamer has seen a message.
    pub open spec fn wf(self) -> bool {
        &&& (self.phase == PollerPhase::Probing ==> self.idle.early_exit_enabled
            && !self.idle.seen_any_message)
        &&& (self.phase == PollerPhase::Streaming && self.idle.early_exit_enabled
            ==> self.idle.seen_any_message)
    }

    /// A fresh poller for one consume run.
    pub fn new(early_exit: bool, now_ms: u64) -> (p: Self)
        ensures
            p == initial_spec(early_exit, now_ms),
            p.wf(),
    {
        StreamPoller {
            phase: if early_exit {
                PollerPhase::Probing
            } else {
                PollerPhase::Streaming
            },
            idle: IdleState {
                last_message_time: now_ms,
                seen_any_message: false,
                early_exit_enabled: early_exit,
            },
        }
    }

    /// Which receive to issue next, if the stream is still open.
    pub fn next_receive(&self) -> (r: Option<ReceiveMode>)
        ensures
            r == next_receive_spec(*self),
    {
        match self.phase {
            PollerPhase::Probing => Some(ReceiveMode::Timed(PROBE_TIMEOUT_MS)),
            PollerPhase::Streaming => if self.idle.early_exit_enabled {
                Some(ReceiveMode::Timed(STEADY_TIMEOUT_MS))
            } else {
                Some(ReceiveMode::Unbounded)
            },
            PollerPhase::Draining => None,
            PollerPhase::Closed => None,
        }
    }

    /// Advances the machine by one receive outcome.
    pub fn on_outcome(&mut self, outcome: &ReceiveOutcome, now_ms: u64) -> (a: PollerAction)
        requires
            old(self).wf(),
            old(self).phase == PollerPhase::Probing || old(self).phase == PollerPhase::Streaming,
        ensures
            *final(self) == step_spec(*old(self), *outcome, now_ms).0,
            a == step_spec(*old(self), *outcome, now_ms).1,
            final(self).wf(),
    {
        match outcome {
            ReceiveOutcome::Message(_) => {
                self.phase = PollerPhase::Streaming;
                self.idle.last_message_time = now_ms;
                self.idle.seen_any_message = true;
                PollerAction::Emit
            },
            ReceiveOutcome::EndOfStream => {
                if self.phase == PollerPhase::Probing {
                    self.phase = PollerPhase::Closed;
                    PollerAction::NoticeEmptyTopic
                } else {
                    self.phase = PollerPhase::Draining;
                    PollerAction::NoticeEndOfStream
                }
            },
            ReceiveOutcome::TimedOut => {
                if self.phase == PollerPhase::Probing {
                    self.phase = PollerPhase::Closed;
                    PollerAction::NoticeEmptyTopic
                } else if self.idle.early_exit_enabled && now_ms > self.idle.last_message_time
                    && now_ms - self.idle.last_message_time > IDLE_THRESHOLD_MS {
                    self.phase = PollerPhase::Draining;
                    PollerAction::IdleExit
                } else {
                    PollerAction::KeepPolling
                }
            },
            ReceiveOutcome::Failed(_) => {
                if self.phase == PollerPhase::Probing {
                    self.phase = PollerPhase::Closed;
                    PollerAction::Fatal
                } else {
                    self.phase = PollerPhase::Draining;
                    PollerAction::ReportError
                }
            },
        }
    }

    /// An external interrupt moves an open stream directly to draining.
    pub fn on_interrupt(&mut self)
        ensures
            final(self).phase == (if old(self).phase == PollerPhase::Closed {
                PollerPhase::Closed
            } else {
                PollerPhase::Draining
            }),
            final(self).idle == old(self).idle,
            final(self).wf(),
    {
        if self.phase != PollerPhase::Closed {
            self.phase = PollerPhase::Draining;
        }
    }

    /// The consumer handle has been closed (or closing it failed, which is
    /// logged and not fatal): the stream is over.
    pub fn on_drained(&mut self)
        requires
            old(self).phase == PollerPhase::Draining,
        ensures
            final(self).phase == PollerPhase::Closed,
            final(self).idle == old(self).idle,
            final(self).wf(),
    {
        self.phase = PollerPhase::Closed;
    }

    /// Milliseconds of quiet since the last message, clamped at zero.
    pub fn elapsed_idle(&self, now_ms: u64) -> (r: u64)
        ensures
            r as int == idle_duration(now_ms, self.idle.last_message_time),
    {
        if now_ms >= self.idle.last_message_time {
            now_ms - self.idle.last_message_time
        } else {
            0
        }
    }
}

/// Consuming an empty topic with early exit enabled ends after the single
/// probing receive: the first probe uses the short probe timeout, and its
/// timing out closes the stream with the empty-topic notice, no message
/// emitted and no further receive issued.
pub proof fn lemma_empty_topic_probe(early_exit: bool, start_ms: u64, now_ms: u64)
    requires
        early_exit,
    ensures
        next_receive_spec(initial_spec(early_exit, start_ms)) == Some(
            ReceiveMode::Timed(PROBE_TIMEOUT_MS),
        ),
        step_spec(initial_spec(early_exit, start_ms), ReceiveOutcome::TimedOut, now_ms).0.phase
            == PollerPhase::Closed,
        step_spec(initial_spec(early_exit, start_ms), ReceiveOutcome::TimedOut, now_ms).1
            == PollerAction::NoticeEmptyTopic,
        next_receive_spec(
            step_spec(initial_spec(early_exit, start_ms), ReceiveOutcome::TimedOut, now_ms).0,
        ) is None,
{
}

/// Once at least one message has been received with early exit enabled, a
/// quiet period longer than the idle threshold terminates consumption: the
/// poller drains, emits nothing further, and issues no further receive.
pub proof fn lemma_idle_exhaustion(s: StreamPoller, now_ms: u64)
    requires
        s.wf(),
        s.phase == PollerPhase::Streaming,
        s.idle.early_exit_enabled,
        s.idle.seen_any_message,
        idle_duration(now_ms, s.idle.last_message_time) > IDLE_THRESHOLD_MS,
    ensures
        step_spec(s, ReceiveOutcome::TimedOut, now_ms).0.phase == PollerPhase::Draining,
        step_spec(s, ReceiveOutcome::TimedOut, now_ms).1 == PollerAction::IdleExit,
        step_spec(s, ReceiveOutcome::TimedOut, now_ms).1 != PollerAction::Emit,
        next_receive_spec(step_spec(s, ReceiveOutcome::TimedOut, now_ms).0) is None,
{
}

/// Relies on `std::time::SystemTime::now` and the duration since
/// `UNIX_EPOCH`: the current wall-clock time in milliseconds since the
/// epoch, clamped at zero if the clock sits before the epoch. The machine's
/// clock decides the value; nothing is promised of it.
#[verifier::external_body]
fn now_unix_millis() -> u64 {
    SystemTime::now().duration_since(UNIX_EPOCH).unwrap_or_default().as_millis() as u64
}

/// A fresh consumer identifier: the current time in milliseconds since the
/// epoch, rendered in decimal.
pub fn generate_consumer_id() -> (r: String)
    ensures
        exists|n: nat| r@ == dec_digits(n),
{
    let ms = now_unix_millis();
    let r = u64_to_decimal(ms);
    proof {
        assert(r@ == dec_digits(ms as nat));
    }
    r
}

/// The subscription name a consume run registers under.
pub fn subscription_name(id: &str) -> (r: String)
    ensures
        r@ == "pulsar-cat-consumer-"@ + id@,
{
    let mut s = "pulsar-cat-consumer-".to_owned();
    s.append(id);
    s
}

/// The consumer name a consume run registers under.
pub fn consumer_name(id: &str) -> (r: String)
    ensures
        r@ == "pulsar-cat-"@ + id@,
{
    let mut s = "pulsar-cat-".to_owned();
    s.append(id);
    s
}

/// The notice printed when the idle threshold ends the stream.
pub fn idle_exit_notice(idle_ms: u64) -> (r: String)
    ensures
        r@ == "No new messages received for "@ + dec_digits(idle_ms as nat) + " ms, exiting..."@,
{
    let mut out: Vec<char> = Vec::new();
    push_str_chars(&mut out, "No new messages received for ");
    let mut digits = u64_dec_chars(idle_ms);
    out.append(&mut digits);
    push_str_chars(&mut out, " ms, exiting...");
    chars_to_string(&out)
}

} // verus!
