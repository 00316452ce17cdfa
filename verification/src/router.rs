//! Fan-out notification dispatcher.
//!
//! Dispatch is best-effort per channel: one channel's failure never blocks or
//! rolls back the others, and a partial failure is aggregated into the result
//! set, never raised. The only failure of the call as a whole is a malformed
//! request (a missing required target).
//!
//! The dispatcher is a state machine: the embedding host asks for the next
//! pending channel, performs that one outbound call with its own timeout, and
//! reports the transport outcome back. The dispatcher decides — deliver,
//! retry (transient failures, within a bounded budget of two retries), or
//! fail the channel — and aggregates one result per channel. If the host's
//! overall deadline elapses first, the pending remainder is marked failed by
//! timeout while the completed outcomes are kept.

use vstd::prelude::*;
use crate::errors::{IncidentError, InputKind};

verus! {

/// A notification channel.
#[derive(Clone, Copy, Debug, PartialEq, Eq, Structural)]
pub enum Channel {
    Chat,
    Sms,
    Email,
    Discord,
    WarRoom,
}

/// What the host transport reports for one attempt of one channel call.
#[derive(Clone, Copy, Debug, PartialEq, Eq, Structural)]
pub enum TransportOutcome {
    /// The call completed with this HTTP status code.
    Status(u16),
    /// The connection failed before any status was received.
    ConnectionError,
    /// The per-call timeout elapsed.
    Timeout,
}

/// Why a channel's delivery failed.
#[derive(Clone, Copy, Debug, PartialEq, Eq, Structural)]
pub enum FailReason {
    /// A non-success HTTP status, after any retries.
    Http(u16),
    /// Connection failures exhausted the retry budget.
    Connection,
    /// Timeouts exhausted the retry budget, or the overall deadline elapsed
    /// before the channel completed.
    Timeout,
}

/// Final delivery outcome of one channel.
#[derive(Clone, Copy, Debug, PartialEq, Eq, Structural)]
pub enum DeliveryOutcome {
    Delivered,
    Failed(FailReason),
}

/// The aggregated result of one channel of a dispatch.
#[derive(Clone, Copy, Debug, PartialEq, Eq, Structural)]
pub struct NotificationResult {
    pub channel: Channel,
    pub outcome: DeliveryOutcome,
    pub latency_ms: u64,
}

/// The textual name of a channel.
pub open spec fn spec_channel_label(c: Channel) -> Seq<char> {
    match c {
        Channel::Chat => "chat"@,
        Channel::Sms => "sms"@,
        Channel::Email => "email"@,
        Channel::Discord => "discord"@,
        Channel::WarRoom => "war_room"@,
    }
}

/// The one-line audit text of a channel's result: its channel name and
/// whether it delivered.
pub open spec fn spec_result_text(r: NotificationResult) -> Seq<char> {
    spec_channel_label(r.channel) + (match r.outcome {
        DeliveryOutcome::Delivered => ": delivered"@,
        DeliveryOutcome::Failed(_) => ": failed"@,
    })
}

/// Renders a channel back to its textual name.
pub fn channel_label(c: Channel) -> (r: String)
    ensures
        r@ == spec_channel_label(c),
{
    match c {
        Channel::Chat => "chat".to_owned(),
        Channel::Sms => "sms".to_owned(),
        Channel::Email => "email".to_owned(),
        Channel::Discord => "discord".to_owned(),
        Channel::WarRoom => "war_room".to_owned(),
    }
}

/// Renders the one-line audit text of a channel's result.
pub fn describe_result(r: NotificationResult) -> (text: String)
    ensures
        text@ == spec_result_text(r),
{
    let mut text = channel_label(r.channel);
    match r.outcome {
        DeliveryOutcome::Delivered => text.append(": delivered"),
        DeliveryOutcome::Failed(_) => text.append(": failed"),
    }
    text
}

/// One per-dispatch notification request: where to deliver what, with the
/// severity kept for channel-specific styling.
#[derive(Debug)]
pub struct NotificationRequest {
    pub channel: Channel,
    pub target: String,
    pub message: String,
    pub severity: String,
}

/// Mathematical model of a [`NotificationRequest`].
pub struct NotificationRequestModel {
    pub channel: Channel,
    pub target: Seq<char>,
    pub message: Seq<char>,
    pub severity: Seq<char>,
}

impl View for NotificationRequest {
    type V = NotificationRequestModel;

    open spec fn view(&self) -> NotificationRequestModel {
        NotificationRequestModel {
            channel: self.channel,
            target: self.target@,
            message: self.message@,
            severity: self.severity@,
        }
    }
}

impl Clone for NotificationRequest {
    fn clone(&self) -> (r: Self)
        ensures
            r@ == self@,
    {
        NotificationRequest {
            channel: self.channel,
            target: self.target.clone(),
            message: self.message.clone(),
            severity: self.severity.clone(),
        }
    }
}

/// Maximum attempts per channel: the first call plus up to two retries.
pub const MAX_ATTEMPTS: u8 = 3;

/// Whether a transport outcome is a successful delivery (a 2xx status).
pub open spec fn spec_is_success(o: TransportOutcome) -> bool {
    match o {
        TransportOutcome::Status(code) => 200 <= code < 300,
        _ => false,
    }
}

/// Whether a transport outcome is transient and so worth a retry: connection
/// errors, timeouts and 5xx statuses. A 4xx (or any other non-success status)
/// is not retried.
pub open spec fn spec_is_transient(o: TransportOutcome) -> bool {
    match o {
        TransportOutcome::Status(code) => 500 <= code < 600,
        TransportOutcome::ConnectionError => true,
        TransportOutcome::Timeout => true,
    }
}

/// The failure reason a non-success outcome surfaces as.
pub open spec fn spec_fail_reason(o: TransportOutcome) -> FailReason {
    match o {
        TransportOutcome::Status(code) => FailReason::Http(code),
        TransportOutcome::ConnectionError => FailReason::Connection,
        TransportOutcome::Timeout => FailReason::Timeout,
    }
}

/// The dispatcher's verdict on one attempt.
#[derive(Clone, Copy, Debug, PartialEq, Eq, Structural)]
pub enum AttemptVerdict {
    /// The channel delivered.
    Delivered,
    /// Transient failure with budget left: the host should call again.
    RetryScheduled,
    /// The channel failed for good.
    Failed(FailReason),
}

/// The verdict on an attempt, given how many attempts (this one included)
/// have now been made: success delivers; a transient failure is retried while
/// the budget lasts; anything else fails the channel at once.
pub open spec fn spec_judge(o: TransportOutcome, attempts_made: nat) -> AttemptVerdict {
    if spec_is_success(o) {
        AttemptVerdict::Delivered
    } else if spec_is_transient(o) && attempts_made < MAX_ATTEMPTS {
        AttemptVerdict::RetryScheduled
    } else {
        AttemptVerdict::Failed(spec_fail_reason(o))
    }
}

/// Decides the verdict on an attempt; the executable mirror of [`spec_judge`].
pub fn judge_outcome(o: TransportOutcome, attempts_made: u8) -> (v: AttemptVerdict)
    ensures
        v == spec_judge(o, attempts_made as nat),
{
    match o {
        TransportOutcome::Status(code) => {
            if 200 <= code && code < 300 {
                AttemptVerdict::Delivered
            } else if 500 <= code && code < 600 && attempts_made < MAX_ATTEMPTS {
                AttemptVerdict::RetryScheduled
            } else {
                AttemptVerdict::Failed(FailReason::Http(code))
            }
        },
        TransportOutcome::ConnectionError => {
            if attempts_made < MAX_ATTEMPTS {
                AttemptVerdict::RetryScheduled
            } else {
                AttemptVerdict::Failed(FailReason::Connection)
            }
        },
        TransportOutcome::Timeout => {
            if attempts_made < MAX_ATTEMPTS {
                AttemptVerdict::RetryScheduled
            } else {
                AttemptVerdict::Failed(FailReason::Timeout)
            }
        },
    }
}

/// One channel of a dispatch in flight.
#[derive(Debug)]
struct ChannelTask {
    request: NotificationRequest,
    attempts: u8,
    result: Option<NotificationResult>,
}

/// Mathematical model of one channel of a dispatch.
pub struct TaskModel {
    pub request: NotificationRequestModel,
    pub attempts: nat,
    pub result: Option<NotificationResult>,
}

impl View for ChannelTask {
    type V = TaskModel;

    closed spec fn view(&self) -> TaskModel {
        TaskModel {
            request: self.request@,
            attempts: self.attempts as nat,
            result: self.result,
        }
    }
}

/// The dispatch invariant: no channel exceeds its attempt budget, and an
/// unresolved channel still has budget left.
pub open spec fn spec_dispatch_wf(tasks: Seq<TaskModel>) -> bool {
    forall|i: int|
        0 <= i < tasks.len() ==> (#[trigger] tasks[i]).attempts <= MAX_ATTEMPTS && (
        tasks[i].result is None ==> tasks[i].attempts < MAX_ATTEMPTS)
}

/// A fan-out dispatch in flight: one task per requested channel.
#[derive(Debug)]
pub struct Dispatch {
    tasks: Vec<ChannelTask>,
}

impl View for Dispatch {
    type V = Seq<TaskModel>;

    closed spec fn view(&self) -> Seq<TaskModel> {
        self.tasks@.map_values(|t: ChannelTask| t@)
    }
}

impl Dispatch {
    /// Opens a dispatch over `requests`, one pending task per request.
    ///
    /// The one way the call fails is a wholly malformed request: a missing
    /// (empty) target. A reachable or unreachable channel is not an error
    /// here — reachability is decided per channel by the outcomes.
    pub fn start(requests: Vec<NotificationRequest>) -> (r: Result<Dispatch, IncidentError>)
        ensures
            match r {
                Ok(d) => {
                    &&& forall|i: int|
                        0 <= i < requests@.len() ==> (#[trigger] requests@[i])@.target.len() > 0
                    &&& d@.len() == requests@.len()
                    &&& forall|i: int|
                        0 <= i < d@.len() ==> (#[trigger] d@[i]).request == requests@[i]@
                            && d@[i].attempts == 0 && d@[i].result is None
                    &&& spec_dispatch_wf(d@)
                },
                Err(e) => {
                    &&& exists|i: int|
                        0 <= i < requests@.len() && (#[trigger] requests@[i])@.target.len() == 0
                    &&& e == (IncidentError::Validation { input: InputKind::Target })
                },
            },
    {
        let n = requests.len();
        let mut i: usize = 0;
        while i < n
            invariant
                n == requests@.len(),
                i <= n,
                forall|j: int| 0 <= j < i ==> (#[trigger] requests@[j])@.target.len() > 0,
            decreases n - i,
        {
            if requests[i].target.as_str().is_empty() {
                return Err(IncidentError::Validation { input: InputKind::Target });
            }
            i += 1;
        }
        let mut tasks: Vec<ChannelTask> = Vec::new();
        let mut k: usize = 0;
        while k < n
            invariant
                n == requests@.len(),
                k <= n,
                tasks@.len() == k,
                forall|j: int|
                    0 <= j < k ==> (#[trigger] tasks@[j])@.request == requests@[j]@
                        && tasks@[j]@.attempts == 0 && tasks@[j]@.result is None,
            decreases n - k,
        {
            let t = ChannelTask { request: requests[k].clone(), attempts: 0, result: None };
            tasks.push(t);
            k += 1;
        }
        Ok(Dispatch { tasks })
    }

    /// The number of channels of the dispatch.
    pub fn len(&self) -> (n: usize)
        ensures
            n == self@.len(),
    {
        self.tasks.len()
    }

    /// The state of channel `i`: its request's channel, the attempts made,
    /// and its result so far.
    pub fn task_state(&self, i: usize) -> (r: Option<(Channel, u8, Option<NotificationResult>)>)
        ensures
            match r {
                Some(state) => i < self@.len() && state.0 == self@[i as int].request.channel
                    && state.1 as nat == self@[i as int].attempts
                    && state.2 == self@[i as int].result,
                None => i >= self@.len(),
            },
    {
        if i < self.tasks.len() {
            let t = &self.tasks[i];
            Some((t.request.channel, t.attempts, t.result))
        } else {
            None
        }
    }

    /// The first channel still awaiting an outcome, if any.
    pub fn next_pending(&self) -> (r: Option<usize>)
        ensures
            match r {
                Some(i) => i < self@.len() && self@[i as int].result is None && (forall|j: int|
                    0 <= j < i ==> (#[trigger] self@[j]).result is Some),
                None => forall|j: int| 0 <= j < self@.len() ==> (#[trigger] self@[j]).result is Some,
            },
    {
        let n = self.tasks.len();
        let mut i: usize = 0;
        while i < n
            invariant
                n == self@.len(),
                i <= n,
                forall|j: int| 0 <= j < i ==> (#[trigger] self@[j]).result is Some,
            decreases n - i,
        {
            if self.tasks[i].result.is_none() {
                return Some(i);
            }
            i += 1;
        }
        None
    }

    /// Whether every channel has a result.
    pub fn is_complete(&self) -> (r: bool)
        ensures
            r == (forall|j: int| 0 <= j < self@.len() ==> (#[trigger] self@[j]).result is Some),
    {
        match self.next_pending() {
            Some(_) => false,
            None => true,
        }
    }

    /// Records the transport outcome of one attempt of channel `i` and
    /// applies the dispatch policy: a success delivers; a transient failure
    /// within the budget leaves the channel pending for another attempt;
    /// anything else fails the channel with its reason. The other channels
    /// are untouched — a failure here never blocks or rolls back the rest.
    pub fn record_outcome(&mut self, i: usize, outcome: TransportOutcome, latency_ms: u64)
        requires
            spec_dispatch_wf(old(self)@),
            i < old(self)@.len(),
            old(self)@[i as int].result is None,
        ensures
            spec_dispatch_wf(final(self)@),
            final(self)@.len() == old(self)@.len(),
            final(self)@[i as int].request == old(self)@[i as int].request,
            final(self)@[i as int].attempts == old(self)@[i as int].attempts + 1,
            final(self)@[i as int].result == match spec_judge(
                outcome,
                old(self)@[i as int].attempts + 1,
            ) {
                AttemptVerdict::Delivered => Some(
                    NotificationResult {
                        channel: old(self)@[i as int].request.channel,
                        outcome: DeliveryOutcome::Delivered,
                        latency_ms: latency_ms,
                    },
                ),
                AttemptVerdict::RetryScheduled => None,
                AttemptVerdict::Failed(reason) => Some(
                    NotificationResult {
                        channel: old(self)@[i as int].request.channel,
                        outcome: DeliveryOutcome::Failed(reason),
                        latency_ms: latency_ms,
                    },
                ),
            },
            forall|j: int|
                0 <= j < old(self)@.len() && j != i ==> final(self)@[j] == (#[trigger] old(
                    self,
                )@[j]),
    {
        let attempts_made = self.tasks[i].attempts + 1;
        let channel = self.tasks[i].request.channel;
        let verdict = judge_outcome(outcome, attempts_made);
        let result: Option<NotificationResult> = match verdict {
            AttemptVerdict::Delivered => Some(
                NotificationResult {
                    channel,
                    outcome: DeliveryOutcome::Delivered,
                    latency_ms,
                },
            ),
            AttemptVerdict::RetryScheduled => None,
            AttemptVerdict::Failed(reason) => Some(
                NotificationResult {
                    channel,
                    outcome: DeliveryOutcome::Failed(reason),
                    latency_ms,
                },
            ),
        };
        self.tasks[i].attempts = attempts_made;
        self.tasks[i].result = result;
        proof {
            assert(self@ =~= old(self)@.update(
                i as int,
                TaskModel {
                    request: old(self)@[i as int].request,
                    attempts: (old(self)@[i as int].attempts + 1) as nat,
                    result: result,
                },
            ));
        }
    }

    /// Marks every channel still pending as failed by timeout: the host's
    /// overall deadline elapsed. Completed outcomes are kept untouched.
    pub fn abandon_pending(&mut self)
        ensures
            final(self)@.len() == old(self)@.len(),
            forall|j: int|
                0 <= j < old(self)@.len() ==> final(self)@[j] == (if (#[trigger] old(
                    self,
                )@[j]).result is Some {
                    old(self)@[j]
                } else {
                    TaskModel {
                        result: Some(
                            NotificationResult {
                                channel: old(self)@[j].request.channel,
                                outcome: DeliveryOutcome::Failed(FailReason::Timeout),
                                latency_ms: 0,
                            },
                        ),
                        ..old(self)@[j]
                    }
                }),
    {
        let n = self.tasks.len();
        let mut i: usize = 0;
        while i < n
            invariant
                n == self@.len(),
                n == old(self)@.len(),
                i <= n,
                forall|j: int| i <= j < n ==> self@[j] == (#[trigger] old(self)@[j]),
                forall|j: int|
                    0 <= j < i ==> self@[j] == (if (#[trigger] old(self)@[j]).result is Some {
                        old(self)@[j]
                    } else {
                        TaskModel {
                            result: Some(
                                NotificationResult {
                                    channel: old(self)@[j].request.channel,
                                    outcome: DeliveryOutcome::Failed(FailReason::Timeout),
                                    latency_ms: 0,
                                },
                            ),
                            ..old(self)@[j]
                        }
                    }),
            decreases n - i,
        {
            if self.tasks[i].result.is_none() {
                let channel = self.tasks[i].request.channel;
                self.tasks[i].result = Some(
                    NotificationResult {
                        channel,
                        outcome: DeliveryOutcome::Failed(FailReason::Timeout),
                        latency_ms: 0,
                    },
                );
            }
            i += 1;
        }
    }

    /// The aggregated result set: one result per channel, in request order.
    /// Partial failure is reported here, never raised.
    pub fn results(&self) -> (r: Vec<NotificationResult>)
        requires
            forall|j: int| 0 <= j < self@.len() ==> (#[trigger] self@[j]).result is Some,
        ensures
            r@.len() == self@.len(),
            forall|j: int| 0 <= j < self@.len() ==> r@[j] == (#[trigger] self@[j]).result.unwrap(),
    {
        let n = self.tasks.len();
        let mut out: Vec<NotificationResult> = Vec::new();
        let mut i: usize = 0;
        while i < n
            invariant
                n == self@.len(),
                i <= n,
                out@.len() == i,
                forall|j: int| 0 <= j < self@.len() ==> (#[trigger] self@[j]).result is Some,
                forall|j: int| 0 <= j < i ==> out@[j] == (#[trigger] self@[j]).result.unwrap(),
            decreases n - i,
        {
            let result_opt = self.tasks[i].result;
            proof {
                assert(self@[i as int] == self.tasks@[i as int]@);
            }
            let result = result_opt.unwrap();
            out.push(result);
            i += 1;
        }
        out
    }
}

} // verus!
