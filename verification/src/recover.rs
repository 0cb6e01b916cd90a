//! The retry loop that keeps a fallible operation alive.
//!
//! The loop is a state machine. Its driver performs what a [`Directive`]
//! asks for (run the operation, send a request, wait) and reports what
//! happened as a [`Progress`]; the machine decides what comes next.

use crate::api::{send_failure, sent, CommonApi};
use crate::errors::Error;
use crate::event::{BlockEvent, BlockEventView};
use crate::request::{Request, RequestCmdView, RequestView};
use std::time::Duration;
use tokio::sync::mpsc::error::SendError;
use vstd::prelude::*;

verus! {

/// Where the retry loop stands.
#[derive(Debug, Clone, Copy, PartialEq, Eq, Structural)]
pub enum RecoverState {
    /// The operation is running.
    Attempting,
    /// The operation failed and its error is on its way to the bar.
    Reporting,
    /// The error is displayed; a timer and the event stream are raced.
    Waiting,
    /// The operation succeeded. Terminal.
    Succeeded,
    /// The bar is gone. Terminal.
    Failed,
}

/// What the driver reports back to the loop.
pub enum Progress<T> {
    /// The operation finished with this result.
    Attempted(Result<T, Error>),
    /// The channel answered the send of the error request.
    Reported(Result<(), SendError<Request>>),
    /// The retry timer ran out.
    TimerElapsed,
    /// An event arrived while waiting.
    Received(BlockEvent),
}

/// What the loop asks its driver to do next.
pub enum Directive<T> {
    /// Run the operation once.
    Attempt,
    /// Send this request to the bar.
    Report(Request),
    /// Start a timer of this duration and race it against incoming events.
    Wait(Duration),
    /// Go on with the race that is under way; the timer is not restarted.
    KeepWaiting,
    /// Leave the loop with this result.
    Finish(Result<T, Error>),
}

/// Whether `input` ends a wait: the timer ran out or a refresh was demanded.
pub open spec fn is_wake<T>(input: Progress<T>) -> bool {
    match input {
        Progress::TimerElapsed => true,
        Progress::Received(event) => event@ == BlockEventView::UpdateRequest,
        _ => false,
    }
}

/// Whether `input` is something that can happen in `state`.
pub open spec fn accepts<T>(state: RecoverState, input: Progress<T>) -> bool {
    match (state, input) {
        (RecoverState::Attempting, Progress::Attempted(_)) => true,
        (RecoverState::Reporting, Progress::Reported(_)) => true,
        (RecoverState::Waiting, Progress::TimerElapsed) => true,
        (RecoverState::Waiting, Progress::Received(_)) => true,
        _ => false,
    }
}

/// The state that follows `state` on `input`.
pub open spec fn next_state<T>(state: RecoverState, input: Progress<T>) -> RecoverState {
    match (state, input) {
        (RecoverState::Attempting, Progress::Attempted(Ok(_))) => RecoverState::Succeeded,
        (RecoverState::Attempting, Progress::Attempted(Err(_))) => RecoverState::Reporting,
        (RecoverState::Reporting, Progress::Reported(Ok(_))) => RecoverState::Waiting,
        (RecoverState::Reporting, Progress::Reported(Err(_))) => RecoverState::Failed,
        (RecoverState::Waiting, _) => if is_wake(input) {
            RecoverState::Attempting
        } else {
            RecoverState::Waiting
        },
        _ => state,
    }
}

/// Whether `directive` is what instance `api` asks for when `input` happens
/// in `state`.
pub open spec fn directed<T>(
    api: CommonApi,
    state: RecoverState,
    input: Progress<T>,
    directive: Directive<T>,
) -> bool {
    match (state, input) {
        (RecoverState::Attempting, Progress::Attempted(Ok(value))) => directive
            == Directive::Finish(Ok::<T, Error>(value)),
        (RecoverState::Attempting, Progress::Attempted(Err(error))) => directive is Report
            && directive->Report_0@ == (RequestView {
            block_id: api.id,
            cmd: RequestCmdView::SetError(error@),
        }),
        (RecoverState::Reporting, Progress::Reported(Ok(_))) => directive == Directive::<T>::Wait(
            api.error_interval,
        ),
        (RecoverState::Reporting, Progress::Reported(Err(_))) => directive is Finish
            && directive->Finish_0 is Err && directive->Finish_0->Err_0@ == send_failure(),
        (RecoverState::Waiting, _) => if is_wake(input) {
            directive is Attempt
        } else {
            directive is KeepWaiting
        },
        _ => false,
    }
}

impl RecoverState {
    /// Whether `input` is something that can happen in this state.
    pub fn accepts<T>(&self, input: &Progress<T>) -> (b: bool)
        ensures
            b == accepts(*self, *input),
    {
        match (self, input) {
            (RecoverState::Attempting, Progress::Attempted(_)) => true,
            (RecoverState::Reporting, Progress::Reported(_)) => true,
            (RecoverState::Waiting, Progress::TimerElapsed) => true,
            (RecoverState::Waiting, Progress::Received(_)) => true,
            _ => false,
        }
    }
}

impl CommonApi {
    /// One step of the retry loop: given where the loop stands and what just
    /// happened, the state that follows and what to do next.
    ///
    /// A success leaves the loop with the value. A failure is reported to
    /// the bar; once delivered, the loop waits for the retry interval or a
    /// refresh demand, whichever comes first, and attempts again. Actions
    /// that arrive meanwhile are discarded. If the bar is gone, the loop
    /// ends with the send failure. The loop itself never gives up.
    pub fn recoverable<T>(&mut self, state: RecoverState, input: Progress<T>) -> (r: (
        RecoverState,
        Directive<T>,
    ))
        requires
            accepts(state, input),
        ensures
            *final(self) == *old(self),
            r.0 == next_state(state, input),
            directed(*old(self), state, input, r.1),
    {
        match input {
            Progress::Attempted(Ok(value)) => (RecoverState::Succeeded, Directive::Finish(Ok(value))),
            Progress::Attempted(Err(error)) => (
                RecoverState::Reporting,
                Directive::Report(self.set_error(error)),
            ),
            Progress::Reported(outcome) => match sent(outcome) {
                Ok(()) => (RecoverState::Waiting, Directive::Wait(self.error_interval)),
                Err(e) => (RecoverState::Failed, Directive::Finish(Err(e))),
            },
            Progress::TimerElapsed => (RecoverState::Attempting, Directive::Attempt),
            Progress::Received(event) => if self.wait_for_update_request(&event) {
                (RecoverState::Attempting, Directive::Attempt)
            } else {
                (RecoverState::Waiting, Directive::KeepWaiting)
            },
        }
    }
}

/// One error request per failed attempt, and one wait of the retry
/// interval per delivered error request: a step asks for a request exactly
/// when an attempt failed, and that request shows the attempt's error for
/// this instance; it starts a wait exactly when the request was delivered,
/// and the wait lasts the instance's retry interval.
pub proof fn lemma_one_report_per_failure<T>(
    api: CommonApi,
    state: RecoverState,
    input: Progress<T>,
    directive: Directive<T>,
)
    requires
        accepts(state, input),
        directed(api, state, input, directive),
    ensures
        directive is Report <==> input is Attempted && input->Attempted_0 is Err,
        directive is Report ==> directive->Report_0@ == (RequestView {
            block_id: api.id,
            cmd: RequestCmdView::SetError(input->Attempted_0->Err_0@),
        }),
        directive is Wait <==> input is Reported && input->Reported_0 is Ok,
        directive is Wait ==> directive->Wait_0 == api.error_interval,
        directive is Attempt <==> state == RecoverState::Waiting && is_wake(input),
{
}

/// The state reached from `state` after `inputs`, in order.
pub open spec fn run<T>(state: RecoverState, inputs: Seq<Progress<T>>) -> RecoverState
    decreases inputs.len(),
{
    if inputs.len() == 0 {
        state
    } else {
        next_state(run(state, inputs.drop_last()), inputs.last())
    }
}

/// Whether each of `inputs` can happen in the state that the ones before it
/// lead to from `state`.
pub open spec fn possible<T>(state: RecoverState, inputs: Seq<Progress<T>>) -> bool
    decreases inputs.len(),
{
    inputs.len() == 0 || (possible(state, inputs.drop_last()) && accepts(
        run(state, inputs.drop_last()),
        inputs.last(),
    ))
}

/// How many of `inputs` are failed attempts. Each is answered with one
/// error request.
pub open spec fn failures<T>(inputs: Seq<Progress<T>>) -> nat
    decreases inputs.len(),
{
    if inputs.len() == 0 {
        0
    } else {
        failures(inputs.drop_last()) + if inputs.last() is Attempted
            && inputs.last()->Attempted_0 is Err {
            1nat
        } else {
            0nat
        }
    }
}

/// How many of `inputs` end a wait.
pub open spec fn wakes<T>(inputs: Seq<Progress<T>>) -> nat
    decreases inputs.len(),
{
    if inputs.len() == 0 {
        0
    } else {
        wakes(inputs.drop_last()) + if is_wake(inputs.last()) {
            1nat
        } else {
            0nat
        }
    }
}

/// How many attempts `inputs` hold, failed or not.
pub open spec fn attempts<T>(inputs: Seq<Progress<T>>) -> nat
    decreases inputs.len(),
{
    if inputs.len() == 0 {
        0
    } else {
        attempts(inputs.drop_last()) + if inputs.last() is Attempted {
            1nat
        } else {
            0nat
        }
    }
}

/// Whether a failure is still unanswered by a wake in `state`.
pub open spec fn failure_pending(state: RecoverState) -> bool {
    state == RecoverState::Reporting || state == RecoverState::Waiting || state
        == RecoverState::Failed
}

/// Every failed attempt is followed by exactly one end of wait before the
/// next attempt: over any run of the loop from its start, the failures are
/// as many as the timer expiries and refresh demands that ended a wait,
/// plus the one failure that is still being reported or waited on, if any.
/// So two error reports are never closer than one retry interval unless a
/// refresh demand cut the wait short.
pub proof fn lemma_one_wake_per_failure<T>(inputs: Seq<Progress<T>>)
    requires
        possible(RecoverState::Attempting, inputs),
    ensures
        failures(inputs) == wakes(inputs) + if failure_pending(
            run(RecoverState::Attempting, inputs),
        ) {
            1nat
        } else {
            0nat
        },
    decreases inputs.len(),
{
    if inputs.len() > 0 {
        lemma_one_wake_per_failure(inputs.drop_last());
    }
}

/// Every attempt but the first is started by the end of a wait: over any
/// run of the loop from its start, the attempts that finished are as many
/// as the wakes, plus the first attempt, less the one that is still running.
pub proof fn lemma_attempts_follow_wakes<T>(inputs: Seq<Progress<T>>)
    requires
        possible(RecoverState::Attempting, inputs),
    ensures
        attempts(inputs) + if run(RecoverState::Attempting, inputs) == RecoverState::Attempting {
            1nat
        } else {
            0nat
        } == wakes(inputs) + 1,
    decreases inputs.len(),
{
    if inputs.len() > 0 {
        lemma_attempts_follow_wakes(inputs.drop_last());
    }
}

/// The loop ends only by success or because the bar is gone: a run that has
/// not seen a successful attempt or a failed send is still going.
pub proof fn lemma_never_gives_up<T>(inputs: Seq<Progress<T>>)
    requires
        possible(RecoverState::Attempting, inputs),
    ensures
        run(RecoverState::Attempting, inputs) == RecoverState::Succeeded ==> inputs.len() > 0
            && inputs.last() is Attempted && inputs.last()->Attempted_0 is Ok,
        run(RecoverState::Attempting, inputs) == RecoverState::Failed ==> inputs.len() > 0
            && inputs.last() is Reported && inputs.last()->Reported_0 is Err,
    decreases inputs.len(),
{
    if inputs.len() > 0 {
        lemma_never_gives_up(inputs.drop_last());
    }
}

/// Whether the times of a run never go backwards.
pub open spec fn ordered(times: Seq<nat>) -> bool
    decreases times.len(),
{
    times.len() <= 1 || (ordered(times.drop_last()) && times[times.len() - 2] <= times.last())
}

/// When the latest failed attempt of a run happened, if there was one.
/// That is also when its error request was issued.
pub open spec fn last_failure<T>(inputs: Seq<Progress<T>>, times: Seq<nat>) -> Option<nat>
    decreases inputs.len(),
{
    if inputs.len() == 0 {
        None
    } else if inputs.last() is Attempted && inputs.last()->Attempted_0 is Err {
        Some(times.last())
    } else {
        last_failure(inputs.drop_last(), times.drop_last())
    }
}

/// When the latest wait of a run began, that is, when its timer was started.
pub open spec fn wait_began<T>(inputs: Seq<Progress<T>>, times: Seq<nat>) -> Option<nat>
    decreases inputs.len(),
{
    if inputs.len() == 0 {
        None
    } else if inputs.last() is Reported && inputs.last()->Reported_0 is Ok {
        Some(times.last())
    } else {
        wait_began(inputs.drop_last(), times.drop_last())
    }
}

/// Whether a refresh was demanded since the latest failed attempt of a run.
pub open spec fn refreshed<T>(inputs: Seq<Progress<T>>) -> bool
    decreases inputs.len(),
{
    if inputs.len() == 0 {
        false
    } else if inputs.last() is Attempted && inputs.last()->Attempted_0 is Err {
        false
    } else if inputs.last() is Received && is_wake(inputs.last()) {
        true
    } else {
        refreshed(inputs.drop_last())
    }
}

/// Whether the timer of a run keeps its word: it never runs out sooner than
/// `interval` after the wait it belongs to began.
pub open spec fn timer_honest<T>(inputs: Seq<Progress<T>>, times: Seq<nat>, interval: nat) -> bool
    decreases inputs.len(),
{
    inputs.len() == 0 || (timer_honest(inputs.drop_last(), times.drop_last(), interval) && (
    inputs.last() is TimerElapsed ==> {
        let began = wait_began(inputs.drop_last(), times.drop_last());
        began is Some && times.last() >= began->0 + interval
    }))
}

/// What holds of a run with an honest timer, whatever state it is in.
spec fn spaced<T>(inputs: Seq<Progress<T>>, times: Seq<nat>, interval: nat) -> bool {
    let failed = last_failure(inputs, times);
    failed is Some ==> match run(RecoverState::Attempting, inputs) {
        RecoverState::Attempting => refreshed(inputs) || times.last() >= failed->0 + interval,
        RecoverState::Reporting => times.last() >= failed->0,
        RecoverState::Waiting => {
            let began = wait_began(inputs, times);
            began is Some && began->0 >= failed->0 && times.last() >= began->0
        },
        _ => true,
    }
}

proof fn lemma_spaced<T>(inputs: Seq<Progress<T>>, times: Seq<nat>, interval: nat)
    requires
        inputs.len() == times.len(),
        possible(RecoverState::Attempting, inputs),
        ordered(times),
        timer_honest(inputs, times, interval),
    ensures
        spaced(inputs, times, interval),
        inputs.len() > 0 && last_failure(inputs, times) is Some ==> times.last() >= last_failure(
            inputs,
            times,
        )->0,
    decreases inputs.len(),
{
    if inputs.len() > 0 {
        lemma_spaced(inputs.drop_last(), times.drop_last(), interval);
    }
}

/// Error reports are spaced by the retry interval unless a refresh demand
/// cut the wait short: in a run of the loop whose timer is honest, a failed
/// attempt that follows an earlier one happens at least `interval` after
/// it, or a refresh was demanded in between.
pub proof fn lemma_reports_spaced<T>(inputs: Seq<Progress<T>>, times: Seq<nat>, interval: nat)
    requires
        inputs.len() == times.len(),
        possible(RecoverState::Attempting, inputs),
        ordered(times),
        timer_honest(inputs, times, interval),
        inputs.len() > 0,
        inputs.last() is Attempted,
        inputs.last()->Attempted_0 is Err,
        last_failure(inputs.drop_last(), times.drop_last()) is Some,
    ensures
        refreshed(inputs.drop_last()) || times.last() >= last_failure(
            inputs.drop_last(),
            times.drop_last(),
        )->0 + interval,
{
    lemma_spaced(inputs.drop_last(), times.drop_last(), interval);
}

/// The inputs of a wait during which `events` arrive and the timer does not
/// run out.
pub open spec fn received<T>(events: Seq<BlockEvent>) -> Seq<Progress<T>> {
    events.map_values(|e: BlockEvent| Progress::<T>::Received(e))
}

/// A wait for a refresh demand consumes events up to the first refresh
/// demand and no further: of the events taken in during one wait, all but
/// the last are actions, and the wait is over exactly if the last one
/// demands a refresh.
pub proof fn lemma_wait_ends_with_first_refresh<T>(events: Seq<BlockEvent>)
    requires
        possible(RecoverState::Waiting, received::<T>(events)),
    ensures
        forall|i: int|
            0 <= i < events.len() - 1 ==> (#[trigger] events[i])@ != BlockEventView::UpdateRequest,
        run(RecoverState::Waiting, received::<T>(events)) == if events.len() > 0 && events.last()@
            == BlockEventView::UpdateRequest {
            RecoverState::Attempting
        } else {
            RecoverState::Waiting
        },
    decreases events.len(),
{
    if events.len() > 0 {
        assert(received::<T>(events).drop_last() =~= received::<T>(events.drop_last()));
        lemma_wait_ends_with_first_refresh::<T>(events.drop_last());
        let before = events.drop_last();
        assert(run(RecoverState::Waiting, received::<T>(before)) == RecoverState::Waiting);
        assert forall|i: int| 0 <= i < events.len() - 1 implies (#[trigger] events[i])@
            != BlockEventView::UpdateRequest by {
            assert(events[i] == before[i]);
        }
    }
}

} // verus!
