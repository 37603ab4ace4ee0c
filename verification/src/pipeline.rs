use vstd::prelude::*;

use crate::error::PulsarCatError;
use crate::parser::{delimiter_view, parse_line, parse_spec, ParsedMessage};

verus! {

/// Capacity of the bounded queue between the line reader and the send
/// pipeline: the only admission control the produce path has.
pub const LINE_QUEUE_CAPACITY: usize = 100;

/// Merges the three shutdown triggers — user interrupt, input exhausted,
/// internal failure — into one broadcast signal. First trigger wins;
/// redundant triggers are no-ops; the coordinator itself performs no I/O.
#[derive(Debug, Clone, Copy, PartialEq, Eq, Structural)]
pub struct ShutdownCoordinator {
    pub triggered: bool,
}

/// The state a trigger leaves the coordinator in, whatever it held before.
pub open spec fn triggered_spec(s: ShutdownCoordinator) -> ShutdownCoordinator {
    ShutdownCoordinator { triggered: true }
}

impl ShutdownCoordinator {
    pub fn new() -> (s: Self)
        ensures
            !s.triggered,
    {
        ShutdownCoordinator { triggered: false }
    }

    /// Raises the signal. Idempotent: see `lemma_trigger_idempotent`.
    pub fn trigger(&mut self)
        ensures
            *final(self) == triggered_spec(*old(self)),
    {
        self.triggered = true;
    }

    pub fn is_triggered(&self) -> (r: bool)
        ensures
            r == self.triggered,
    {
        self.triggered
    }
}

/// Redundant shutdown triggers are no-ops: a second trigger leaves the
/// coordinator exactly where the first left it, from any starting state.
pub proof fn lemma_trigger_idempotent(s: ShutdownCoordinator)
    ensures
        triggered_spec(triggered_spec(s)) == triggered_spec(s),
        triggered_spec(s).triggered,
{
}

/// Book-keeping of the produce pipeline: whether new lines are still being
/// admitted from the queue, and how many units of work are in flight or
/// done. A shutdown stops admission but never cancels units already in
/// flight; the produce operation is finished only when admission has
/// stopped and every outstanding unit has completed or failed.
#[derive(Debug, Clone, Copy, PartialEq, Eq, Structural)]
pub struct SendPipeline {
    pub accepting: bool,
    pub in_flight: u64,
    pub completed: u64,
    pub failed: u64,
}

impl SendPipeline {
    pub fn new() -> (p: Self)
        ensures
            p.accepting,
            p.in_flight == 0,
            p.completed == 0,
            p.failed == 0,
    {
        SendPipeline { accepting: true, in_flight: 0, completed: 0, failed: 0 }
    }

    /// The shutdown signal stops the pipeline from admitting new lines;
    /// units already spawned are unaffected and will still be awaited.
    pub fn on_shutdown(&mut self)
        ensures
            !final(self).accepting,
            final(self).in_flight == old(self).in_flight,
            final(self).completed == old(self).completed,
            final(self).failed == old(self).failed,
    {
        self.accepting = false;
    }

    /// One dequeued line becomes one independently scheduled unit of work.
    pub fn on_spawn(&mut self)
        requires
            old(self).accepting,
            old(self).in_flight < u64::MAX,
        ensures
            final(self).accepting,
            final(self).in_flight == old(self).in_flight + 1,
            final(self).completed == old(self).completed,
            final(self).failed == old(self).failed,
    {
        self.in_flight = self.in_flight + 1;
    }

    /// One unit resolved. A failure is local to its unit: the pipeline keeps
    /// going, only the tally changes.
    pub fn on_unit_done(&mut self, ok: bool)
        requires
            old(self).in_flight > 0,
            old(self).completed < u64::MAX,
            old(self).failed < u64::MAX,
        ensures
            final(self).accepting == old(self).accepting,
            final(self).in_flight == old(self).in_flight - 1,
            final(self).completed == old(self).completed + (if ok {
                1int
            } else {
                0int
            }),
            final(self).failed == old(self).failed + (if ok {
                0int
            } else {
                1int
            }),
    {
        self.in_flight = self.in_flight - 1;
        if ok {
            self.completed = self.completed + 1;
        } else {
            self.failed = self.failed + 1;
        }
    }

    /// The produce operation may be declared finished: admission has
    /// stopped and no unit is outstanding.
    pub fn is_finished(&self) -> (r: bool)
        ensures
            r == (!self.accepting && self.in_flight == 0),
    {
        !self.accepting && self.in_flight == 0
    }
}

/// The views of the non-empty lines of `lines`, in order: what the line
/// source hands on to the pipeline, empty lines skipped silently.
pub open spec fn non_empty_views(lines: Seq<String>) -> Seq<Seq<char>>
    decreases lines.len(),
{
    if lines.len() == 0 {
        Seq::empty()
    } else {
        let rest = non_empty_views(lines.drop_last());
        if lines.last()@.len() != 0 {
            rest.push(lines.last()@)
        } else {
            rest
        }
    }
}

/// The whole produce run's parse decisions, one per non-empty input line:
/// which lines become submissions (with which key and payload) and which
/// fail. Each line is decided independently — a failed line never affects
/// the lines after it.
pub fn plan_produce(lines: &Vec<String>, delimiter: Option<&str>, enforce_key: bool) -> (r: Vec<
    Result<ParsedMessage, PulsarCatError>,
>)
    ensures
        r@.len() == non_empty_views(lines@).len(),
        forall|i: int|
            0 <= i < r@.len() ==> #[trigger] parse_spec(
                non_empty_views(lines@)[i],
                delimiter_view(delimiter),
                enforce_key,
                r@[i],
            ),
{
    let n = lines.len();
    let mut r: Vec<Result<ParsedMessage, PulsarCatError>> = Vec::new();
    let mut i: usize = 0;
    proof {
        assert(lines@.subrange(0, 0) =~= Seq::<String>::empty());
    }
    while i < n
        invariant
            i <= n,
            n == lines@.len(),
            r@.len() == non_empty_views(lines@.subrange(0, i as int)).len(),
            forall|j: int|
                0 <= j < r@.len() ==> #[trigger] parse_spec(
                    non_empty_views(lines@.subrange(0, i as int))[j],
                    delimiter_view(delimiter),
                    enforce_key,
                    r@[j],
                ),
        decreases n - i,
    {
        let ghost prefix = lines@.subrange(0, i as int);
        let line = &lines[i];
        if !line.as_str().is_empty() {
            let parsed = parse_line(line.as_str(), delimiter, enforce_key);
            r.push(parsed);
        }
        i = i + 1;
        proof {
            let prefix1 = lines@.subrange(0, i as int);
            assert(prefix1.drop_last() =~= prefix);
            assert(prefix1.last() == lines@[i - 1]);
        }
    }
    proof {
        assert(lines@.subrange(0, n as int) =~= lines@);
    }
    r
}

} // verus!
