use vstd::prelude::*;

use crate::event::{event_view, DecodeError, EventV, LifecycleEvent};

verus! {

/// Why one poll of the event endpoint yielded no event.  The two cases
/// stay apart by construction: a transport failure is never mistaken for
/// a decode failure, and both end the loop.
#[derive(Debug)]
pub enum PollError {
    /// The request itself failed; the transport's own description is kept.
    Transport(String),
    /// The response body did not decode to a lifecycle event.
    Decode(DecodeError),
}

/// What the loop must do after one step.
#[derive(Debug)]
pub enum StepAction {
    /// Keep polling.
    Continue,
    /// A termination event arrived: raise the self-directed signal, wait
    /// out the grace period, then exit cleanly.  No further polling.
    ExitClean,
    /// A fatal poll failure: exit carrying it.  No further polling.
    ExitError(PollError),
}

/// The loop state that survives from one iteration to the next: the
/// single-slot holder of the most recent invocation's request identifier,
/// and whether a terminal transition happened.
///
/// Registering precedes [`Controller::new`]; each call of
/// [`Controller::step`] is one polling iteration, handling the event it
/// is fed and ending either back at polling or terminated.  Cooperative
/// cancellation is the loop driver's own check at the top of each
/// iteration; it stops further polling but is no transition here.
pub struct Controller {
    pub pending: Option<String>,
    pub terminated: bool,
}

pub struct ControllerV {
    pub pending: Option<Seq<char>>,
    pub terminated: bool,
}

pub open spec fn opt_string_view(o: Option<String>) -> Option<Seq<char>> {
    match o {
        Some(s) => Some(s@),
        None => None,
    }
}

pub open spec fn controller_view(c: Controller) -> ControllerV {
    ControllerV { pending: opt_string_view(c.pending), terminated: c.terminated }
}

/// One polling iteration on a decoded event: what is reported this
/// iteration — always the identifier pending from the previous one — and
/// the state afterwards.
pub open spec fn sp_step(st: ControllerV, ev: EventV) -> (ControllerV, Option<Seq<char>>) {
    let report = st.pending;
    match ev {
        EventV::Invoke { request_id, .. } => (
            ControllerV { pending: Some(request_id), terminated: false },
            report,
        ),
        EventV::Shutdown { .. } => (ControllerV { pending: None, terminated: true }, report),
    }
}

/// The state after a run of the loop over a sequence of decoded events,
/// starting from the freshly registered state; once terminated, later
/// events change nothing because they are never polled.
pub open spec fn sp_run(evs: Seq<EventV>) -> ControllerV
    decreases evs.len(),
{
    if evs.len() == 0 {
        ControllerV { pending: None, terminated: false }
    } else {
        let prev = sp_run(evs.drop_last());
        if prev.terminated {
            prev
        } else {
            sp_step(prev, evs.last()).0
        }
    }
}

impl Controller {
    /// The state right after a successful registration: nothing pending,
    /// polling about to begin.
    pub fn new() -> (c: Controller)
        ensures
            c.pending is None,
            !c.terminated,
    {
        Controller { pending: None, terminated: false }
    }

    /// One loop iteration, fed with the poll's outcome.  The first
    /// component of the result is the request identifier whose result
    /// artifact is to be processed now: always the one pending from the
    /// previous iteration, never the one an arriving invocation carries.
    pub fn step(&mut self, poll: Result<LifecycleEvent, PollError>) -> (r: (
        Option<String>,
        StepAction,
    ))
        requires
            !old(self).terminated,
        ensures
            r.0 == old(self).pending,
            poll matches Ok(LifecycleEvent::Invoke { request_id, .. }) ==> {
                &&& !final(self).terminated
                &&& final(self).pending == Some(request_id)
                &&& r.1 is Continue
            },
            poll matches Ok(LifecycleEvent::Shutdown { .. }) ==> {
                &&& final(self).terminated
                &&& final(self).pending is None
                &&& r.1 is ExitClean
            },
            poll matches Err(e) ==> {
                &&& final(self).terminated
                &&& r.1 == StepAction::ExitError(e)
            },
            poll matches Ok(ev) ==> {
                &&& controller_view(*final(self)) == sp_step(
                    controller_view(*old(self)),
                    event_view(ev),
                ).0
                &&& opt_string_view(r.0) == sp_step(
                    controller_view(*old(self)),
                    event_view(ev),
                ).1
            },
    {
        let report = self.pending.take();
        match poll {
            Ok(LifecycleEvent::Invoke { request_id, .. }) => {
                self.pending = Some(request_id);
                (report, StepAction::Continue)
            },
            Ok(LifecycleEvent::Shutdown { .. }) => {
                self.terminated = true;
                (report, StepAction::ExitClean)
            },
            Err(e) => {
                self.terminated = true;
                (report, StepAction::ExitError(e))
            },
        }
    }
}

/// A run over events none of which is a termination event never reaches
/// the terminated state: the loop keeps polling.
pub proof fn lemma_no_shutdown_keeps_polling(evs: Seq<EventV>)
    requires
        forall|k: int| 0 <= k < evs.len() ==> !(#[trigger] evs[k] is Shutdown),
    ensures
        !sp_run(evs).terminated,
    decreases evs.len(),
{
    if evs.len() > 0 {
        assert(forall|k: int|
            0 <= k < evs.drop_last().len() ==> #[trigger] evs.drop_last()[k] == evs[k]);
        lemma_no_shutdown_keeps_polling(evs.drop_last());
    }
}

/// For every sequence of decoded events that ends in its only termination
/// event, the loop is still polling at each iteration up to and including
/// the final one, and is terminated right after processing it: no further
/// polling occurs.
pub proof fn lemma_single_shutdown_terminates(evs: Seq<EventV>)
    requires
        evs.len() > 0,
        forall|k: int| 0 <= k < evs.len() - 1 ==> !(#[trigger] evs[k] is Shutdown),
        evs.last() is Shutdown,
    ensures
        sp_run(evs).terminated,
        forall|k: int| 0 <= k < evs.len() ==> !(#[trigger] sp_run(evs.take(k)).terminated),
{
    assert(evs.drop_last() =~= evs.take(evs.len() - 1));
    assert(forall|k: int|
        0 <= k < evs.drop_last().len() ==> #[trigger] evs.drop_last()[k] == evs[k]);
    lemma_no_shutdown_keeps_polling(evs.drop_last());
    assert forall|k: int| 0 <= k < evs.len() implies !(#[trigger] sp_run(
        evs.take(k),
    ).terminated) by {
        assert(forall|j: int| 0 <= j < k ==> #[trigger] evs.take(k)[j] == evs[j]);
        lemma_no_shutdown_keeps_polling(evs.take(k));
    }
}

/// An invocation seen at one iteration has its identifier reported at the
/// next iteration, whatever event that iteration brings — and never at
/// its own, whose report is whatever was pending before it.
pub proof fn lemma_invoke_reported_next_iteration(st: ControllerV, inv: EventV, next: EventV)
    requires
        inv matches EventV::Invoke { .. },
    ensures
        sp_step(st, inv).1 == st.pending,
        inv matches EventV::Invoke { request_id, .. } ==> sp_step(sp_step(st, inv).0, next).1
            == Some(request_id),
{
}

} // verus!
