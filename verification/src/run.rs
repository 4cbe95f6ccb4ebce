//! The run coordinator: the state machine that drives one remote run to
//! completion. It polls the run's status on a fixed cadence up to a hard
//! deadline, and when the run pauses for a tool call it decides which local
//! handler to invoke, builds the matching output, and only returns to polling
//! once every pending call has been settled. The surrounding process performs
//! the remote calls and the sleeps; this machine makes every decision.

use vstd::prelude::*;
use vstd::string::*;

use crate::json::{json_field_str, json_is_valid, spec_json_field_str, spec_json_valid};
use crate::text::str_eq;

verus! {

/// A remote run's status, as far as this service distinguishes it. Statuses
/// other than the three recognized ones are treated opaquely.
#[derive(Clone, Copy, PartialEq, Eq, Structural, Debug)]
pub enum RunStatus {
    Queued,
    InProgress,
    RequiresAction,
    Completed,
    Failed,
    Other,
}

pub open spec fn spec_parse_run_status(s: Seq<char>) -> RunStatus {
    if s == "queued"@ {
        RunStatus::Queued
    } else if s == "in_progress"@ {
        RunStatus::InProgress
    } else if s == "requires_action"@ {
        RunStatus::RequiresAction
    } else if s == "completed"@ {
        RunStatus::Completed
    } else if s == "failed"@ {
        RunStatus::Failed
    } else {
        RunStatus::Other
    }
}

/// Classifies the status string a poll returned.
pub fn parse_run_status(s: &str) -> (st: RunStatus)
    ensures
        st == spec_parse_run_status(s@),
{
    if str_eq(s, "queued") {
        RunStatus::Queued
    } else if str_eq(s, "in_progress") {
        RunStatus::InProgress
    } else if str_eq(s, "requires_action") {
        RunStatus::RequiresAction
    } else if str_eq(s, "completed") {
        RunStatus::Completed
    } else if str_eq(s, "failed") {
        RunStatus::Failed
    } else {
        RunStatus::Other
    }
}

/// One tool call a paused run asks the caller to execute: its identifier,
/// the function name, and the argument blob — the remote service sends the
/// arguments as a JSON document in a string, and `None` stands for a payload
/// that was not a string at all.
pub struct ToolCall {
    pub id: String,
    pub name: String,
    pub arguments: Option<String>,
}

pub struct ToolCallView {
    pub id: Seq<char>,
    pub name: Seq<char>,
    pub arguments: Option<Seq<char>>,
}

impl View for ToolCall {
    type V = ToolCallView;

    open spec fn view(&self) -> ToolCallView {
        ToolCallView {
            id: self.id@,
            name: self.name@,
            arguments: match self.arguments {
                Some(ref a) => Some(a@),
                None => None,
            },
        }
    }
}

/// The `{tool_call_id, output}` pair submitted back into a paused run.
pub struct ToolOutput {
    pub tool_call_id: String,
    pub output: String,
}

pub struct ToolOutputView {
    pub tool_call_id: Seq<char>,
    pub output: Seq<char>,
}

impl View for ToolOutput {
    type V = ToolOutputView;

    open spec fn view(&self) -> ToolOutputView {
        ToolOutputView { tool_call_id: self.tool_call_id@, output: self.output@ }
    }
}

/// What the coordinator decides to do with one tool call: fetch the caller's
/// orders, fetch one order's status, or skip the call (unrecognized name or
/// undecodable arguments — logged and skipped, never failing the run).
pub enum ToolDecision {
    FetchOrders,
    FetchOrderStatus { order_id: String },
    Skip,
}

pub enum ToolDecisionView {
    FetchOrders,
    FetchOrderStatus(Seq<char>),
    Skip,
}

impl View for ToolDecision {
    type V = ToolDecisionView;

    open spec fn view(&self) -> ToolDecisionView {
        match self {
            ToolDecision::FetchOrders => ToolDecisionView::FetchOrders,
            ToolDecision::FetchOrderStatus { order_id } => ToolDecisionView::FetchOrderStatus(
                order_id@,
            ),
            ToolDecision::Skip => ToolDecisionView::Skip,
        }
    }
}

/// The dispatch rule: `get_orders` runs when its arguments are well-formed
/// JSON; an order-status lookup runs when the arguments carry a string
/// `order_id` field; everything else is skipped.
pub open spec fn spec_tool_decision(c: ToolCallView) -> ToolDecisionView {
    if c.name == "get_orders"@ {
        match c.arguments {
            Some(a) => if spec_json_valid(a) {
                ToolDecisionView::FetchOrders
            } else {
                ToolDecisionView::Skip
            },
            None => ToolDecisionView::Skip,
        }
    } else if c.name == "get_order_status_dummy"@ || c.name == "get_order_status"@ {
        match c.arguments {
            Some(a) => match spec_json_field_str(a, "order_id"@) {
                Some(oid) => ToolDecisionView::FetchOrderStatus(oid),
                None => ToolDecisionView::Skip,
            },
            None => ToolDecisionView::Skip,
        }
    } else {
        ToolDecisionView::Skip
    }
}

/// Decides what to do with one tool call.
pub fn decide_tool_call(call: &ToolCall) -> (d: ToolDecision)
    ensures
        d@ == spec_tool_decision(call@),
{
    if str_eq(call.name.as_str(), "get_orders") {
        match &call.arguments {
            Some(a) => {
                if json_is_valid(a.as_str()) {
                    ToolDecision::FetchOrders
                } else {
                    ToolDecision::Skip
                }
            },
            None => ToolDecision::Skip,
        }
    } else if str_eq(call.name.as_str(), "get_order_status_dummy") || str_eq(
        call.name.as_str(),
        "get_order_status",
    ) {
        match &call.arguments {
            Some(a) => match json_field_str(a.as_str(), "order_id") {
                Some(oid) => ToolDecision::FetchOrderStatus { order_id: oid },
                None => ToolDecision::Skip,
            },
            None => ToolDecision::Skip,
        }
    } else {
        ToolDecision::Skip
    }
}

/// The text an output carries: the handler's result, or the given fallback
/// where the handler found nothing.
pub open spec fn spec_output_text(result: Option<Seq<char>>, fallback: Seq<char>) -> Seq<char> {
    match result {
        Some(s) => s,
        None => fallback,
    }
}

/// Builds the `{tool_call_id, output}` pair for one settled tool call: the
/// output always answers exactly the call it was made for.
pub fn build_tool_output(call_id: &str, result: Option<String>, fallback: &str) -> (out: ToolOutput)
    ensures
        out@.tool_call_id == call_id@,
        out@.output == spec_output_text(
            match result {
                Some(ref s) => Some(s@),
                None => None,
            },
            fallback@,
        ),
{
    let output = match result {
        Some(s) => s,
        None => String::from_str(fallback),
    };
    ToolOutput { tool_call_id: String::from_str(call_id), output }
}

/// The order-status lookup handler. The lookup against application data is
/// not wired up yet; every order reports the same fixed status.
pub fn get_order_status_dummy(user_id: &str, order_id: &str) -> (r: Option<String>)
    ensures
        match r {
            Some(s) => s@ == "delivered"@,
            None => false,
        },
{
    let _ = user_id;
    let _ = order_id;
    Some(String::from_str("delivered"))
}

/// The order-status lookup handler of the earlier tool set: a fixed
/// delivery date for every order.
pub fn get_order_status(order_id: &str) -> (r: Option<String>)
    ensures
        match r {
            Some(s) => s@ == "2023-12-31 12:00:00"@,
            None => false,
        },
{
    let _ = order_id;
    Some(String::from_str("2023-12-31 12:00:00"))
}

/// The polling configuration: the hard wall-clock deadline and the fixed
/// sleep between polls, both in milliseconds.
#[derive(Clone, Copy, PartialEq, Eq, Structural, Debug)]
pub struct RunConfig {
    pub deadline_ms: u64,
    pub poll_interval_ms: u64,
}

impl RunConfig {
    /// A usable configuration: polling makes progress, and the elapsed clock
    /// can never overflow.
    pub open spec fn wf(&self) -> bool {
        &&& self.poll_interval_ms > 0
        &&& self.deadline_ms + self.poll_interval_ms <= u64::MAX
    }
}

/// How a finished run coordination ended: the run reached `completed`, or the
/// deadline passed first. Timing out is a normal outcome, not an error.
#[derive(Clone, Copy, PartialEq, Eq, Structural, Debug)]
pub enum RunOutcome {
    Completed,
    TimedOut,
}

/// Where the coordinator stands: about to poll, settling the pending tool
/// calls of a paused run, about to sleep, or finished.
#[derive(Clone, Copy, PartialEq, Eq, Structural, Debug)]
pub enum RunPhase {
    Polling,
    Dispatching,
    Waiting,
    Done(RunOutcome),
}

/// The run coordinator's state. `elapsed_ms` is the wall-clock time since
/// coordination began, advanced by one interval at every sleep; `pending`
/// and `next_tool` track the tool calls of a paused run.
pub struct RunCoordinator {
    pub config: RunConfig,
    pub elapsed_ms: u64,
    pub phase: RunPhase,
    pub pending: Vec<ToolCall>,
    pub next_tool: usize,
}

impl RunCoordinator {
    /// The coordinator's invariant. In particular: polling only happens
    /// strictly before the deadline, and a timed-out coordinator stopped no
    /// earlier than the deadline and less than one interval past it.
    pub open spec fn wf(&self) -> bool {
        &&& self.config.wf()
        &&& self.next_tool <= self.pending@.len()
        &&& match self.phase {
            RunPhase::Done(RunOutcome::TimedOut) => self.config.deadline_ms <= self.elapsed_ms
                < self.config.deadline_ms + self.config.poll_interval_ms,
            _ => self.elapsed_ms < self.config.deadline_ms,
        }
    }

    /// Begins coordinating a freshly created run. With a zero deadline the
    /// loop never polls and the run times out at once.
    pub fn start(config: RunConfig) -> (c: Self)
        requires
            config.wf(),
        ensures
            c.wf(),
            c.config == config,
            c.elapsed_ms == 0,
            c.phase == if config.deadline_ms == 0 {
                RunPhase::Done(RunOutcome::TimedOut)
            } else {
                RunPhase::Polling
            },
    {
        let phase = if config.deadline_ms == 0 {
            RunPhase::Done(RunOutcome::TimedOut)
        } else {
            RunPhase::Polling
        };
        RunCoordinator { config, elapsed_ms: 0, phase, pending: Vec::new(), next_tool: 0 }
    }

    /// Feeds in what a poll of the run returned. `completed` finishes the
    /// coordination; `requires_action` moves to settling the reported tool
    /// calls; any other status leads to a sleep and another poll.
    pub fn on_poll(&mut self, status: RunStatus, tool_calls: Vec<ToolCall>)
        requires
            old(self).wf(),
            old(self).phase == RunPhase::Polling,
        ensures
            final(self).wf(),
            final(self).config == old(self).config,
            final(self).elapsed_ms == old(self).elapsed_ms,
            status == RunStatus::Completed ==> final(self).phase == RunPhase::Done(
                RunOutcome::Completed,
            ),
            status == RunStatus::RequiresAction ==> final(self).phase == RunPhase::Dispatching
                && final(self).pending == tool_calls && final(self).next_tool == 0,
            (status != RunStatus::Completed && status != RunStatus::RequiresAction)
                ==> final(self).phase == RunPhase::Waiting,
    {
        if status == RunStatus::Completed {
            self.phase = RunPhase::Done(RunOutcome::Completed);
        } else if status == RunStatus::RequiresAction {
            self.pending = tool_calls;
            self.next_tool = 0;
            self.phase = RunPhase::Dispatching;
        } else {
            self.phase = RunPhase::Waiting;
        }
    }

    /// Whether a tool call is still waiting to be settled.
    pub fn has_pending_tool(&self) -> (r: bool)
        ensures
            r == (self.phase == RunPhase::Dispatching && self.next_tool < self.pending@.len()),
    {
        match self.phase {
            RunPhase::Dispatching => self.next_tool < self.pending.len(),
            _ => false,
        }
    }

    /// The decision for the tool call now due, so the caller knows which
    /// local handler to run before settling it.
    pub fn tool_decision(&self) -> (d: ToolDecision)
        requires
            self.phase == RunPhase::Dispatching,
            self.next_tool < self.pending@.len(),
        ensures
            d@ == spec_tool_decision(self.pending@[self.next_tool as int]@),
    {
        decide_tool_call(&self.pending[self.next_tool])
    }

    /// Settles the tool call now due. For a recognized call the result of the
    /// local handler (or the fallback text, where it found nothing) becomes
    /// exactly one output, carrying that call's identifier, to submit before
    /// the next poll; a skipped call produces none. Once the last pending
    /// call is settled the coordinator moves on to the sleep before the next
    /// poll — it never polls with a call still pending.
    pub fn settle_tool(&mut self, handler_result: Option<String>) -> (out: Option<ToolOutput>)
        requires
            old(self).wf(),
            old(self).phase == RunPhase::Dispatching,
            old(self).next_tool < old(self).pending@.len(),
        ensures
            final(self).wf(),
            final(self).config == old(self).config,
            final(self).elapsed_ms == old(self).elapsed_ms,
            final(self).pending == old(self).pending,
            final(self).next_tool == old(self).next_tool + 1,
            final(self).phase == if old(self).next_tool + 1 == old(self).pending@.len() {
                RunPhase::Waiting
            } else {
                RunPhase::Dispatching
            },
            ({
                let call = old(self).pending@[old(self).next_tool as int]@;
                let result = match handler_result {
                    Some(ref s) => Some(s@),
                    None => None,
                };
                match spec_tool_decision(call) {
                    ToolDecisionView::Skip => out is None,
                    ToolDecisionView::FetchOrders => match out {
                        Some(o) => o@.tool_call_id == call.id && o@.output == spec_output_text(
                            result,
                            "No orders found"@,
                        ),
                        None => false,
                    },
                    ToolDecisionView::FetchOrderStatus(_) => match out {
                        Some(o) => o@.tool_call_id == call.id && o@.output == spec_output_text(
                            result,
                            "Unknown order ID"@,
                        ),
                        None => false,
                    },
                }
            }),
    {
        let n = self.pending.len();
        let call = &self.pending[self.next_tool];
        let out = match decide_tool_call(call) {
            ToolDecision::Skip => None,
            ToolDecision::FetchOrders => Some(
                build_tool_output(call.id.as_str(), handler_result, "No orders found"),
            ),
            ToolDecision::FetchOrderStatus { order_id: _ } => Some(
                build_tool_output(call.id.as_str(), handler_result, "Unknown order ID"),
            ),
        };
        self.next_tool = self.next_tool + 1;
        if self.next_tool == n {
            self.phase = RunPhase::Waiting;
        }
        out
    }

    /// Accounts for the fixed sleep between polls. When the clock reaches the
    /// deadline the coordination times out; otherwise it polls again.
    pub fn on_sleep(&mut self)
        requires
            old(self).wf(),
            old(self).phase == RunPhase::Waiting,
        ensures
            final(self).wf(),
            final(self).config == old(self).config,
            final(self).elapsed_ms == old(self).elapsed_ms + old(self).config.poll_interval_ms,
            final(self).phase == if old(self).elapsed_ms + old(self).config.poll_interval_ms
                >= old(self).config.deadline_ms {
                RunPhase::Done(RunOutcome::TimedOut)
            } else {
                RunPhase::Polling
            },
    {
        self.elapsed_ms = self.elapsed_ms + self.config.poll_interval_ms;
        if self.elapsed_ms >= self.config.deadline_ms {
            self.phase = RunPhase::Done(RunOutcome::TimedOut);
        } else {
            self.phase = RunPhase::Polling;
        }
    }

    /// The outcome, once the coordination has finished.
    pub fn outcome(&self) -> (r: Option<RunOutcome>)
        ensures
            r == match self.phase {
                RunPhase::Done(o) => Some(o),
                _ => None::<RunOutcome>,
            },
    {
        match self.phase {
            RunPhase::Done(o) => Some(o),
            _ => None,
        }
    }
}

/// The deadline is respected: a timed-out coordination stopped no earlier
/// than the deadline and no later than one polling interval past it.
pub proof fn lemma_deadline_respected(c: &RunCoordinator)
    requires
        c.wf(),
        c.phase == RunPhase::Done(RunOutcome::TimedOut),
    ensures
        c.config.deadline_ms <= c.elapsed_ms,
        c.elapsed_ms < c.config.deadline_ms + c.config.poll_interval_ms,
{
}

/// What a polling loop fed a given sequence of statuses ends with: the first
/// `completed` status stops it, and otherwise it sleeps one interval after
/// each poll until the deadline is reached. The second component is the
/// elapsed time at the end.
pub open spec fn spec_drive(
    statuses: Seq<RunStatus>,
    elapsed: int,
    deadline: int,
    interval: int,
) -> (RunOutcome, int)
    decreases statuses.len(),
{
    if statuses.len() == 0 {
        (RunOutcome::TimedOut, elapsed)
    } else if statuses[0] == RunStatus::Completed {
        (RunOutcome::Completed, elapsed)
    } else if elapsed + interval >= deadline {
        (RunOutcome::TimedOut, elapsed + interval)
    } else {
        spec_drive(statuses.skip(1), elapsed + interval, deadline, interval)
    }
}

/// Drives a run whose successive poll results are given: the executable form
/// of the plain polling loop, with the status sequence standing in for the
/// remote run. Returns the outcome and the elapsed time it was reached at.
pub fn drive_to_completion(config: &RunConfig, statuses: &Vec<RunStatus>) -> (r: (
    RunOutcome,
    u64,
))
    requires
        config.wf(),
        config.deadline_ms > 0,
    ensures
        (r.0, r.1 as int) == spec_drive(
            statuses@,
            0,
            config.deadline_ms as int,
            config.poll_interval_ms as int,
        ),
{
    let ghost deadline = config.deadline_ms as int;
    let ghost interval = config.poll_interval_ms as int;
    let mut elapsed: u64 = 0;
    let mut i: usize = 0;
    proof {
        assert(statuses@.skip(0) =~= statuses@);
    }
    while i < statuses.len()
        invariant
            i <= statuses@.len(),
            config.wf(),
            elapsed < deadline,
            deadline == config.deadline_ms as int,
            interval == config.poll_interval_ms as int,
            spec_drive(statuses@, 0, deadline, interval) == spec_drive(
                statuses@.skip(i as int),
                elapsed as int,
                deadline,
                interval,
            ),
        decreases statuses@.len() - i,
    {
        let ghost tail = statuses@.skip(i as int);
        proof {
            assert(tail[0] == statuses@[i as int]);
            assert(tail.skip(1) =~= statuses@.skip(i as int + 1));
        }
        if statuses[i] == RunStatus::Completed {
            return (RunOutcome::Completed, elapsed);
        }
        elapsed = elapsed + config.poll_interval_ms;
        if elapsed >= config.deadline_ms {
            return (RunOutcome::TimedOut, elapsed);
        }
        i = i + 1;
    }
    proof {
        assert(statuses@.skip(statuses@.len() as int) =~= Seq::<RunStatus>::empty());
    }
    (RunOutcome::TimedOut, elapsed)
}

/// A run that never reports `completed` times out, and it does so no earlier
/// than the deadline and less than one polling interval past it — provided
/// the status script covers the whole deadline.
pub proof fn lemma_drive_timeout_bounds(
    statuses: Seq<RunStatus>,
    elapsed: int,
    deadline: int,
    interval: int,
)
    requires
        interval > 0,
        0 <= elapsed < deadline,
        elapsed + statuses.len() * interval >= deadline,
        forall|k: int| 0 <= k < statuses.len() ==> statuses[k] != RunStatus::Completed,
    ensures
        ({
            let (o, e) = spec_drive(statuses, elapsed, deadline, interval);
            o == RunOutcome::TimedOut && deadline <= e < deadline + interval
        }),
    decreases statuses.len(),
{
    if statuses.len() == 0 {
        assert(false);
    } else if elapsed + interval >= deadline {
    } else {
        assert(elapsed + statuses.len() * interval == (elapsed + interval) + (statuses.len() - 1)
            * interval) by (nonlinear_arith);
        lemma_drive_timeout_bounds(statuses.skip(1), elapsed + interval, deadline, interval);
    }
}

} // verus!
