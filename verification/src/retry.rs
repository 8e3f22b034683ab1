//! Sending a chat request to an endpoint that may still be starting up: a connection
//! that fails is tried again, after a delay that doubles each time.
use crate::error::{RunError, RunErrorView};
use vstd::prelude::*;

verus! {

/// How often a failed connection is tried again.
pub const MAX_RETRIES: u32 = 4;

/// How far the sending of a request has come.
#[derive(Debug)]
pub enum SendState {
    /// The request is under way, after `attempt` attempts that failed.
    Sending { attempt: u32 },
    /// The next attempt waits for its delay to pass.
    Waiting { attempt: u32 },
    /// The endpoint answered.
    Answered,
    /// The request is given up.
    Failed(RunError),
}

#[verifier::ext_equal]
pub enum SendStateView {
    Sending { attempt: u32 },
    Waiting { attempt: u32 },
    Answered,
    Failed(RunErrorView),
}

impl DeepView for SendState {
    type V = SendStateView;

    open spec fn deep_view(&self) -> SendStateView {
        match self {
            SendState::Sending { attempt } => SendStateView::Sending { attempt: *attempt },
            SendState::Waiting { attempt } => SendStateView::Waiting { attempt: *attempt },
            SendState::Answered => SendStateView::Answered,
            SendState::Failed(error) => SendStateView::Failed(error.deep_view()),
        }
    }
}

impl SendStateView {
    /// No more attempts than there are retries.
    pub open spec fn well_formed(self) -> bool {
        match self {
            SendStateView::Sending { attempt } => attempt <= MAX_RETRIES,
            SendStateView::Waiting { attempt } => attempt < MAX_RETRIES,
            _ => true,
        }
    }
}

impl SendState {
    /// Whether there were no more attempts than there are retries.
    pub fn is_well_formed(&self) -> (well_formed: bool)
        ensures
            well_formed == self.deep_view().well_formed(),
    {
        match self {
            SendState::Sending { attempt } => *attempt <= MAX_RETRIES,
            SendState::Waiting { attempt } => *attempt < MAX_RETRIES,
            _ => true,
        }
    }
}

/// What happens while a request is sent.
#[derive(Debug)]
pub enum SendEvent {
    /// The endpoint answered.
    Response,
    /// The attempt failed; `is_connect` says whether it was the connection that failed.
    Failure { is_connect: bool, message: String },
    /// The delay has passed.
    DelayPassed,
    /// The user cancelled the request.
    Cancelled,
}

#[verifier::ext_equal]
pub enum SendEventView {
    Response,
    Failure { is_connect: bool, message: Seq<char> },
    DelayPassed,
    Cancelled,
}

impl DeepView for SendEvent {
    type V = SendEventView;

    open spec fn deep_view(&self) -> SendEventView {
        match self {
            SendEvent::Response => SendEventView::Response,
            SendEvent::Failure { is_connect, message } => SendEventView::Failure {
                is_connect: *is_connect,
                message: message@,
            },
            SendEvent::DelayPassed => SendEventView::DelayPassed,
            SendEvent::Cancelled => SendEventView::Cancelled,
        }
    }
}

/// The state in which sending begins.
pub open spec fn first_state() -> SendStateView {
    SendStateView::Sending { attempt: 0 }
}

/// The state after an event. An event that does not belong to a state leaves it as it
/// is.
pub open spec fn next_state(state: SendStateView, event: SendEventView) -> SendStateView {
    match (state, event) {
        (SendStateView::Sending { .. }, SendEventView::Response) => SendStateView::Answered,
        (
            SendStateView::Sending { attempt },
            SendEventView::Failure { is_connect, message },
        ) => if is_connect && attempt < MAX_RETRIES {
            SendStateView::Waiting { attempt }
        } else {
            SendStateView::Failed(RunErrorView::Transport { message })
        },
        (SendStateView::Waiting { attempt }, SendEventView::DelayPassed) => SendStateView::Sending {
            attempt: (attempt + 1) as u32,
        },
        (SendStateView::Sending { .. }, SendEventView::Cancelled) => SendStateView::Failed(
            RunErrorView::Cancelled,
        ),
        (SendStateView::Waiting { .. }, SendEventView::Cancelled) => SendStateView::Failed(
            RunErrorView::Cancelled,
        ),
        (state, _) => state,
    }
}

/// The delay before the next attempt, in seconds: it doubles from one to the next.
pub open spec fn delay_seconds(attempt: u32) -> int
    decreases attempt,
{
    if attempt == 0 {
        1
    } else {
        2 * delay_seconds((attempt - 1) as u32)
    }
}

/// The state in which sending begins.
pub fn start_sending() -> (state: SendState)
    ensures
        state.deep_view() == first_state(),
        state.deep_view().well_formed(),
{
    SendState::Sending { attempt: 0 }
}

/// The delay before the next attempt, in seconds.
pub fn retry_delay_seconds(attempt: u32) -> (seconds: u64)
    requires
        attempt < MAX_RETRIES,
    ensures
        seconds == delay_seconds(attempt),
{
    let mut seconds: u64 = 1;
    let mut i: u32 = 0;
    while i < attempt
        invariant
            i <= attempt,
            attempt < MAX_RETRIES,
            seconds == delay_seconds(i),
            i == 0 ==> seconds == 1,
            i == 1 ==> seconds == 2,
            i == 2 ==> seconds == 4,
            i == 3 ==> seconds == 8,
        decreases attempt - i,
    {
        seconds = 2 * seconds;
        i = i + 1;
    }
    seconds
}

/// The state after the event.
pub fn step(state: SendState, event: SendEvent) -> (next: SendState)
    requires
        state.deep_view().well_formed(),
    ensures
        next.deep_view() == next_state(state.deep_view(), event.deep_view()),
        next.deep_view().well_formed(),
{
    match (state, event) {
        (SendState::Sending { .. }, SendEvent::Response) => SendState::Answered,
        (
            SendState::Sending { attempt },
            SendEvent::Failure { is_connect, message },
        ) => if is_connect && attempt < MAX_RETRIES {
            SendState::Waiting { attempt }
        } else {
            SendState::Failed(RunError::Transport { message })
        },
        (SendState::Waiting { attempt }, SendEvent::DelayPassed) => SendState::Sending {
            attempt: attempt + 1,
        },
        (SendState::Sending { .. }, SendEvent::Cancelled) => SendState::Failed(RunError::Cancelled),
        (SendState::Waiting { .. }, SendEvent::Cancelled) => SendState::Failed(RunError::Cancelled),
        (state, _) => state,
    }
}

// ---------------------------------------------------------------------------
// Laws

/// The state after a sequence of events.
pub open spec fn state_after(events: Seq<SendEventView>) -> SendStateView
    decreases events.len(),
{
    if events.len() == 0 {
        first_state()
    } else {
        next_state(state_after(events.drop_last()), events.last())
    }
}

/// How often the request was sent in the course of the events.
pub open spec fn attempts_made(events: Seq<SendEventView>) -> nat
    decreases events.len(),
{
    if events.len() == 0 {
        1
    } else {
        let before = attempts_made(events.drop_last());
        if state_after(events.drop_last()) is Waiting && state_after(events) is Sending {
            before + 1
        } else {
            before
        }
    }
}

/// How many seconds of delay were begun in the course of the events.
pub open spec fn seconds_waited(events: Seq<SendEventView>) -> int
    decreases events.len(),
{
    if events.len() == 0 {
        0
    } else {
        let before = seconds_waited(events.drop_last());
        match (state_after(events.drop_last()), state_after(events)) {
            (SendStateView::Sending { .. }, SendStateView::Waiting { attempt }) => before
                + delay_seconds(attempt),
            _ => before,
        }
    }
}

/// What the state says of the attempts and the delays so far.
proof fn lemma_state_counts(events: Seq<SendEventView>)
    ensures
        state_after(events).well_formed(),
        match state_after(events) {
            SendStateView::Sending { attempt } => {
                &&& attempts_made(events) == attempt + 1
                &&& seconds_waited(events) == delay_seconds(attempt) - 1
            },
            SendStateView::Waiting { attempt } => {
                &&& attempts_made(events) == attempt + 1
                &&& seconds_waited(events) == 2 * delay_seconds(attempt) - 1
            },
            _ => {
                &&& attempts_made(events) <= MAX_RETRIES + 1
                &&& seconds_waited(events) <= delay_seconds(MAX_RETRIES) - 1
            },
        },
    decreases events.len(),
{
    if events.len() > 0 {
        lemma_state_counts(events.drop_last());
        reveal_with_fuel(delay_seconds, 6);
    }
}

/// Whatever happens, a request is sent at most five times, and no more than fifteen
/// seconds are spent on delays.
pub proof fn law_sending_is_bounded(events: Seq<SendEventView>)
    ensures
        attempts_made(events) <= 5,
        seconds_waited(events) <= 15,
{
    lemma_state_counts(events);
    reveal_with_fuel(delay_seconds, 6);
}

/// The states that sending reaches are well-formed.
pub proof fn law_states_are_well_formed(events: Seq<SendEventView>)
    ensures
        state_after(events).well_formed(),
{
    lemma_state_counts(events);
}

/// A cancelled request is given up, unless it is over already.
pub proof fn law_cancellation_ends_sending(state: SendStateView)
    ensures
        match state {
            SendStateView::Answered => next_state(state, SendEventView::Cancelled) == state,
            SendStateView::Failed(_) => next_state(state, SendEventView::Cancelled) == state,
            _ => next_state(state, SendEventView::Cancelled) == SendStateView::Failed(
                RunErrorView::Cancelled,
            ),
        },
{
}

/// An attempt that fails for another reason than its connection is not repeated.
pub proof fn law_only_connections_are_retried(attempt: u32, message: Seq<char>)
    ensures
        next_state(
            SendStateView::Sending { attempt },
            SendEventView::Failure { is_connect: false, message },
        ) == SendStateView::Failed(RunErrorView::Transport { message }),
{
}

/// What is over stays over.
pub proof fn law_outcome_is_final(state: SendStateView, event: SendEventView)
    requires
        state is Answered || state is Failed,
    ensures
        next_state(state, event) == state,
{
}

/// The first response ends the sending, whichever attempt brought it.
pub proof fn law_response_ends_sending(attempt: u32)
    ensures
        next_state(SendStateView::Sending { attempt }, SendEventView::Response)
            == SendStateView::Answered,
{
}

/// A connection that fails is tried again four times: the next attempt waits for its
/// delay, and after the fourth retry the failure is what the request ends in.
pub proof fn law_connections_are_retried_four_times(attempt: u32, message: Seq<char>)
    ensures
        attempt < 4 ==> next_state(
            SendStateView::Sending { attempt },
            SendEventView::Failure { is_connect: true, message },
        ) == (SendStateView::Waiting { attempt }),
        attempt >= 4 ==> next_state(
            SendStateView::Sending { attempt },
            SendEventView::Failure { is_connect: true, message },
        ) == SendStateView::Failed(RunErrorView::Transport { message }),
{
}

/// Once its delay has passed, the next attempt is under way, and it counts as one more.
pub proof fn law_passed_delay_starts_the_next_attempt(attempt: u32)
    requires
        attempt < u32::MAX,
    ensures
        next_state(SendStateView::Waiting { attempt }, SendEventView::DelayPassed) matches
            SendStateView::Sending { attempt: next } && next == attempt + 1,
{
}

/// An attempt that is under way heeds no delay, and one that waits heeds nothing but its
/// delay and the user.
pub proof fn law_stray_events_change_nothing(
    attempt: u32,
    is_connect: bool,
    message: Seq<char>,
)
    ensures
        next_state(SendStateView::Sending { attempt }, SendEventView::DelayPassed)
            == (SendStateView::Sending { attempt }),
        next_state(SendStateView::Waiting { attempt }, SendEventView::Response)
            == (SendStateView::Waiting { attempt }),
        next_state(
            SendStateView::Waiting { attempt },
            SendEventView::Failure { is_connect, message },
        ) == (SendStateView::Waiting { attempt }),
{
}

/// Whether the events begin with `count` failed connections, each followed by its delay.
pub open spec fn begins_with_failures(events: Seq<SendEventView>, count: nat) -> bool {
    &&& events.len() >= 2 * count
    &&& forall|i: int|
        #![trigger events[2 * i]]
        0 <= i < count ==> (events[2 * i] matches SendEventView::Failure { is_connect, .. }
            && is_connect) && events[2 * i + 1] == SendEventView::DelayPassed
}

/// The first events begin with the failures that are wholly among them.
proof fn lemma_failures_of_first_events(events: Seq<SendEventView>, n: int, count: nat)
    requires
        2 * count <= n <= events.len(),
        begins_with_failures(events, count) || begins_with_failures(events, count + 1),
    ensures
        begins_with_failures(events.take(n), count),
{
    let first = events.take(n);
    assert forall|i: int|
        #![trigger first[2 * i]]
        0 <= i < count implies (first[2 * i] matches SendEventView::Failure { is_connect, .. }
        && is_connect) && first[2 * i + 1] == SendEventView::DelayPassed by {
        assert(first[2 * i] == events[2 * i]);
    }
}

/// After failed connections and their delays, the next attempt is under way.
proof fn lemma_state_after_failures(events: Seq<SendEventView>, count: nat)
    requires
        count <= 4,
        events.len() == 2 * count,
        begins_with_failures(events, count),
    ensures
        state_after(events) == (SendStateView::Sending { attempt: count as u32 }),
    decreases count,
{
    if count > 0 {
        let last = count - 1;
        let earlier = events.take(2 * last);
        lemma_failures_of_first_events(events, 2 * last, last as nat);
        lemma_state_after_failures(earlier, last as nat);
        assert(events[2 * last] is Failure);
        assert(events.drop_last().drop_last() =~= earlier);
        assert(events.drop_last().last() == events[2 * last]);
        assert(events.last() == events[2 * last + 1]);
        assert(state_after(events.drop_last()) == (SendStateView::Waiting {
            attempt: last as u32,
        }));
    }
}

/// An endpoint that comes up in time answers: a response after up to four failed
/// connections and their delays ends the sending with that response, and whatever comes
/// after it changes nothing.
pub proof fn law_late_endpoint_is_reached(events: Seq<SendEventView>, failures: nat)
    requires
        failures <= 4,
        begins_with_failures(events, failures),
        events.len() > 2 * failures,
        events[2 * failures as int] == SendEventView::Response,
    ensures
        state_after(events) == SendStateView::Answered,
    decreases events.len(),
{
    let earlier = events.drop_last();
    assert(earlier =~= events.take(events.len() - 1));
    lemma_failures_of_first_events(events, events.len() - 1, failures);
    if earlier.len() == 2 * failures {
        lemma_state_after_failures(earlier, failures);
    } else {
        law_late_endpoint_is_reached(earlier, failures);
    }
}

/// An endpoint that never comes up is given up: the fifth failed connection is what the
/// request ends in.
pub proof fn law_absent_endpoint_is_given_up(events: Seq<SendEventView>, message: Seq<char>)
    requires
        events.len() == 9,
        begins_with_failures(events, 4),
        events[8] == (SendEventView::Failure { is_connect: true, message }),
    ensures
        state_after(events) == SendStateView::Failed(RunErrorView::Transport { message }),
{
    let earlier = events.drop_last();
    assert(earlier =~= events.take(8));
    lemma_failures_of_first_events(events, 8, 4);
    lemma_state_after_failures(earlier, 4);
}

/// The first delay is one second, and each is twice the one before.
pub proof fn law_delays_double(attempt: u32)
    requires
        attempt < u32::MAX,
    ensures
        delay_seconds(0) == 1,
        delay_seconds((attempt + 1) as u32) == 2 * delay_seconds(attempt),
        delay_seconds(attempt) == vstd::arithmetic::power2::pow2(attempt as nat),
    decreases attempt,
{
    if attempt > 0 {
        law_delays_double((attempt - 1) as u32);
        vstd::arithmetic::power2::lemma_pow2_unfold(attempt as nat);
    } else {
        vstd::arithmetic::power2::lemma2_to64();
    }
}

/// Sending begins with the first attempt, and the states that can be stepped from are
/// those with at most four retries behind them, the last of them under way.
pub proof fn law_well_formed_states(attempt: u32, error: RunErrorView)
    ensures
        first_state() == (SendStateView::Sending { attempt: 0 }),
        state_after(seq![]) == (SendStateView::Sending { attempt: 0 }),
        (SendStateView::Sending { attempt }).well_formed() <==> attempt <= 4,
        (SendStateView::Waiting { attempt }).well_formed() <==> attempt < 4,
        SendStateView::Answered.well_formed(),
        SendStateView::Failed(error).well_formed(),
{
}

/// The view of a state is of its kind and has its attempt or its error, and that of an
/// event is of its kind and has its failure.
pub proof fn law_view_of_sending(state: SendState, event: SendEvent)
    ensures
        state matches SendState::Sending { attempt } ==> state.deep_view() == (
        SendStateView::Sending { attempt }),
        state matches SendState::Waiting { attempt } ==> state.deep_view() == (
        SendStateView::Waiting { attempt }),
        state is Answered ==> state.deep_view() is Answered,
        state matches SendState::Failed(error) ==> state.deep_view() == SendStateView::Failed(
            error.deep_view(),
        ),
        event is Response ==> event.deep_view() is Response,
        event matches SendEvent::Failure { is_connect, message } ==> event.deep_view() == (
        SendEventView::Failure { is_connect, message: message@ }),
        event is DelayPassed ==> event.deep_view() is DelayPassed,
        event is Cancelled ==> event.deep_view() is Cancelled,
{
}

} // verus!
