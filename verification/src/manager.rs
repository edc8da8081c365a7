//! The reconciliation core: the finalizer lifecycle protocol, the
//! error/backoff policy, the per-instance driver state machine and the
//! startup precondition.
//!
//! The protocol and the driver are explicit state machines: the run loop
//! outside the library performs one store operation or callback per pending
//! state and feeds the result back through a single transition function, so
//! the ordering rules (marker before apply, cleanup before marker removal)
//! are facts about the transition function itself.

use vstd::prelude::*;

use crate::api::Blog;
use crate::{Action, Error, StoreError};

verus! {

/// Fixed re-check and retry delay, in seconds.
pub const REQUEUE_SECONDS: u64 = 300;

/// The finalizer marker token this controller owns.
pub open spec fn finalizer_token() -> Seq<char> {
    "blogs.letsgopherit.com"@
}

/// The finalizer marker token this controller owns, as a string.
pub fn blog_finalizer() -> (r: &'static str)
    ensures
        r@ == finalizer_token(),
{
    "blogs.letsgopherit.com"
}

/// Whether the controller's marker token occurs in a finalizer list.
pub open spec fn spec_has_finalizer(fins: Seq<String>) -> bool {
    exists|i: int| 0 <= i < fins.len() && fins[i]@ == finalizer_token()
}

/// Whether the controller's marker token occurs in a finalizer list.
pub fn has_finalizer(fins: &Vec<String>) -> (r: bool)
    ensures
        r == spec_has_finalizer(fins@),
{
    let tok: String = blog_finalizer().to_owned();
    let mut i: usize = 0;
    while i < fins.len()
        invariant
            0 <= i <= fins@.len(),
            tok@ == finalizer_token(),
            forall|j: int| 0 <= j < i ==> fins@[j]@ != finalizer_token(),
        decreases fins@.len() - i,
    {
        if fins[i] == tok {
            assert(spec_has_finalizer(fins@));
            return true;
        }
        i = i + 1;
    }
    false
}

/// The two events the finalizer protocol can expose to its callback: apply
/// desired state to a live instance, or clean up one marked for deletion.
#[derive(Clone, Copy, Debug, PartialEq, Eq, Structural)]
pub enum Event {
    Apply,
    Cleanup,
}

/// What the run loop must do next for one notification, or the finished
/// outcome of the whole pass.
#[derive(Clone, Copy, Debug, PartialEq, Eq)]
pub enum ProtocolState {
    /// Persist the marker on the instance before anything else.
    NeedMarkerAdd,
    /// Run the apply callback (status reconcile and patch).
    NeedApply,
    /// Run the cleanup callback.
    NeedCleanup,
    /// Cleanup succeeded with this action; persist the marker's removal.
    NeedMarkerRemove(Action),
    /// The pass is over with this outcome.
    Done(Result<Action, Error>),
}

/// The result the run loop feeds back after performing a pending step.
#[derive(Clone, Copy, Debug, PartialEq, Eq)]
pub enum StepResult {
    /// The store acknowledged a marker update.
    StoreOk,
    /// The apply or cleanup callback returned this action.
    CallbackOk(Action),
    /// The store rejected the update, or the callback failed.
    StepFailed(StoreError),
}

/// First pending step for a notified instance, from its deletion flag and
/// marker presence:
/// - live without the marker: the marker must be persisted before apply;
/// - live with the marker: apply directly;
/// - deletion requested with the marker: cleanup, then marker removal;
/// - deletion requested without the marker: nothing left to do.
pub open spec fn spec_protocol_start(deletion_requested: bool, has_marker: bool) -> ProtocolState {
    if !deletion_requested {
        if has_marker {
            ProtocolState::NeedApply
        } else {
            ProtocolState::NeedMarkerAdd
        }
    } else {
        if has_marker {
            ProtocolState::NeedCleanup
        } else {
            ProtocolState::Done(Ok(Action::AwaitChange))
        }
    }
}

/// One protocol transition. A failed step ends the pass with a
/// `FinalizerError` at once: a failed marker add invokes neither callback,
/// and a failed marker removal fails the pass even though cleanup
/// succeeded, so cleanup is retried until the marker is actually gone.
/// A result that does not answer the pending step leaves the state
/// unchanged.
pub open spec fn spec_protocol_next(s: ProtocolState, r: StepResult) -> ProtocolState {
    match (s, r) {
        (ProtocolState::NeedMarkerAdd, StepResult::StoreOk) => ProtocolState::NeedApply,
        (ProtocolState::NeedMarkerAdd, StepResult::StepFailed(e)) => ProtocolState::Done(
            Err(Error::FinalizerError(e)),
        ),
        (ProtocolState::NeedApply, StepResult::CallbackOk(a)) => ProtocolState::Done(Ok(a)),
        (ProtocolState::NeedApply, StepResult::StepFailed(e)) => ProtocolState::Done(
            Err(Error::FinalizerError(e)),
        ),
        (ProtocolState::NeedCleanup, StepResult::CallbackOk(a)) => ProtocolState::NeedMarkerRemove(
            a,
        ),
        (ProtocolState::NeedCleanup, StepResult::StepFailed(e)) => ProtocolState::Done(
            Err(Error::FinalizerError(e)),
        ),
        (ProtocolState::NeedMarkerRemove(a), StepResult::StoreOk) => ProtocolState::Done(Ok(a)),
        (ProtocolState::NeedMarkerRemove(_), StepResult::StepFailed(e)) => ProtocolState::Done(
            Err(Error::FinalizerError(e)),
        ),
        (_, _) => s,
    }
}

/// First pending step for a notified instance.
pub fn protocol_start(deletion_requested: bool, has_marker: bool) -> (s: ProtocolState)
    ensures
        s == spec_protocol_start(deletion_requested, has_marker),
{
    if !deletion_requested {
        if has_marker {
            ProtocolState::NeedApply
        } else {
            ProtocolState::NeedMarkerAdd
        }
    } else {
        if has_marker {
            ProtocolState::NeedCleanup
        } else {
            ProtocolState::Done(Ok(Action::AwaitChange))
        }
    }
}

/// First pending step for a notified blog instance, read off its metadata.
pub fn protocol_start_for(blog: &Blog) -> (s: ProtocolState)
    ensures
        s == spec_protocol_start(
            blog.metadata.deletion_requested,
            spec_has_finalizer(blog.metadata.finalizers@),
        ),
{
    let marked = has_finalizer(&blog.metadata.finalizers);
    protocol_start(blog.metadata.deletion_requested, marked)
}

/// One protocol transition.
pub fn protocol_next(s: ProtocolState, r: StepResult) -> (t: ProtocolState)
    ensures
        t == spec_protocol_next(s, r),
{
    match (s, r) {
        (ProtocolState::NeedMarkerAdd, StepResult::StoreOk) => ProtocolState::NeedApply,
        (ProtocolState::NeedMarkerAdd, StepResult::StepFailed(e)) => ProtocolState::Done(
            Err(Error::FinalizerError(e)),
        ),
        (ProtocolState::NeedApply, StepResult::CallbackOk(a)) => ProtocolState::Done(Ok(a)),
        (ProtocolState::NeedApply, StepResult::StepFailed(e)) => ProtocolState::Done(
            Err(Error::FinalizerError(e)),
        ),
        (ProtocolState::NeedCleanup, StepResult::CallbackOk(a)) => ProtocolState::NeedMarkerRemove(
            a,
        ),
        (ProtocolState::NeedCleanup, StepResult::StepFailed(e)) => ProtocolState::Done(
            Err(Error::FinalizerError(e)),
        ),
        (ProtocolState::NeedMarkerRemove(a), StepResult::StoreOk) => ProtocolState::Done(Ok(a)),
        (ProtocolState::NeedMarkerRemove(_), StepResult::StepFailed(e)) => ProtocolState::Done(
            Err(Error::FinalizerError(e)),
        ),
        (_, _) => s,
    }
}

/// The event a pending callback state stands for, if any.
pub open spec fn spec_pending_event(s: ProtocolState) -> Option<Event> {
    match s {
        ProtocolState::NeedApply => Some(Event::Apply),
        ProtocolState::NeedCleanup => Some(Event::Cleanup),
        _ => None,
    }
}

/// The callback event the run loop must dispatch for this state, if the
/// pending step is a callback rather than a marker update.
pub fn pending_event(s: &ProtocolState) -> (e: Option<Event>)
    ensures
        e == spec_pending_event(*s),
{
    match s {
        ProtocolState::NeedApply => Some(Event::Apply),
        ProtocolState::NeedCleanup => Some(Event::Cleanup),
        _ => None,
    }
}

/// Marker before apply: the apply callback only ever becomes due on an
/// instance that already carried the marker at entry, or whose marker-add
/// update was just acknowledged by the store. A failed marker add invokes
/// no callback at all.
pub proof fn lemma_marker_add_precedes_apply()
    ensures
        forall|del: bool, m: bool|
            spec_protocol_start(del, m) == ProtocolState::NeedApply ==> m,
        forall|s: ProtocolState, r: StepResult|
            s != ProtocolState::NeedApply && #[trigger] spec_protocol_next(s, r)
                == ProtocolState::NeedApply ==> s == ProtocolState::NeedMarkerAdd && r
                == StepResult::StoreOk,
        forall|e: StoreError|
            spec_protocol_next(ProtocolState::NeedMarkerAdd, StepResult::StepFailed(e))
                == ProtocolState::Done(Err(Error::FinalizerError(e))),
{
}

/// Cleanup before marker removal: the protocol never asks for the marker's
/// removal at entry, and only asks for it once the cleanup callback has
/// returned success; so an instance with a pending deletion request keeps
/// its marker until cleanup has succeeded at least once.
pub proof fn lemma_cleanup_precedes_marker_removal()
    ensures
        forall|del: bool, m: bool|
            !(#[trigger] spec_protocol_start(del, m) matches ProtocolState::NeedMarkerRemove(_)),
        forall|s: ProtocolState, r: StepResult|
            (#[trigger] spec_protocol_next(s, r) matches ProtocolState::NeedMarkerRemove(_))
                && !(s matches ProtocolState::NeedMarkerRemove(_)) ==> s
                == ProtocolState::NeedCleanup && (r matches StepResult::CallbackOk(_)),
{
}

/// The protocol state after the run loop has fed back each result in
/// `results`, in order, starting from an instance's entry state.
pub open spec fn spec_protocol_run(
    deletion_requested: bool,
    has_marker: bool,
    results: Seq<StepResult>,
) -> ProtocolState
    decreases results.len(),
{
    if results.len() == 0 {
        spec_protocol_start(deletion_requested, has_marker)
    } else {
        spec_protocol_next(
            spec_protocol_run(deletion_requested, has_marker, results.drop_last()),
            results.last(),
        )
    }
}

/// Marker before apply, over whole runs: in any run for a live instance
/// that entered without the marker, whenever the apply callback is due,
/// the store acknowledged the marker-add update at some strictly earlier
/// point of the run.
pub proof fn lemma_run_marker_add_before_apply(results: Seq<StepResult>)
    requires
        spec_protocol_run(false, false, results) == ProtocolState::NeedApply,
    ensures
        exists|k: int|
            #![trigger results.subrange(0, k)]
            0 <= k < results.len() && spec_protocol_run(false, false, results.subrange(0, k))
                == ProtocolState::NeedMarkerAdd && results[k] == StepResult::StoreOk,
    decreases results.len(),
{
    if results.len() == 0 {
        assert(spec_protocol_start(false, false) == ProtocolState::NeedMarkerAdd);
    } else {
        let prev = spec_protocol_run(false, false, results.drop_last());
        if prev == ProtocolState::NeedApply {
            lemma_run_marker_add_before_apply(results.drop_last());
            let k = choose|k: int|
                #![trigger results.drop_last().subrange(0, k)]
                0 <= k < results.drop_last().len() && spec_protocol_run(
                    false,
                    false,
                    results.drop_last().subrange(0, k),
                ) == ProtocolState::NeedMarkerAdd && results.drop_last()[k] == StepResult::StoreOk;
            assert(results.drop_last().subrange(0, k) =~= results.subrange(0, k));
            assert(0 <= k < results.len() && spec_protocol_run(false, false, results.subrange(0, k))
                == ProtocolState::NeedMarkerAdd && results[k] == StepResult::StoreOk);
        } else {
            assert(prev == ProtocolState::NeedMarkerAdd && results.last() == StepResult::StoreOk);
            let k = results.len() - 1;
            assert(results.subrange(0, k) =~= results.drop_last());
            assert(0 <= k < results.len() && spec_protocol_run(false, false, results.subrange(0, k))
                == ProtocolState::NeedMarkerAdd && results[k] == StepResult::StoreOk);
        }
    }
}

/// Cleanup before marker removal, over whole runs: in any run for an
/// instance that entered with a pending deletion request and the marker
/// present, whenever the marker's removal is due, the cleanup callback
/// returned success at some strictly earlier point of the run.
pub proof fn lemma_run_cleanup_before_removal(results: Seq<StepResult>)
    requires
        spec_protocol_run(true, true, results) matches ProtocolState::NeedMarkerRemove(_),
    ensures
        exists|k: int|
            #![trigger results.subrange(0, k)]
            0 <= k < results.len() && spec_protocol_run(true, true, results.subrange(0, k))
                == ProtocolState::NeedCleanup && results[k] is CallbackOk,
    decreases results.len(),
{
    if results.len() == 0 {
        assert(spec_protocol_start(true, true) == ProtocolState::NeedCleanup);
    } else {
        let prev = spec_protocol_run(true, true, results.drop_last());
        if prev matches ProtocolState::NeedMarkerRemove(_) {
            lemma_run_cleanup_before_removal(results.drop_last());
            let k = choose|k: int|
                #![trigger results.drop_last().subrange(0, k)]
                0 <= k < results.drop_last().len() && spec_protocol_run(
                    true,
                    true,
                    results.drop_last().subrange(0, k),
                ) == ProtocolState::NeedCleanup && results.drop_last()[k] is CallbackOk;
            assert(results.drop_last().subrange(0, k) =~= results.subrange(0, k));
            assert(0 <= k < results.len() && spec_protocol_run(true, true, results.subrange(0, k))
                == ProtocolState::NeedCleanup && results[k] is CallbackOk);
        } else {
            assert(prev == ProtocolState::NeedCleanup && results.last() is CallbackOk);
            let k = results.len() - 1;
            assert(results.subrange(0, k) =~= results.drop_last());
            assert(0 <= k < results.len() && spec_protocol_run(true, true, results.subrange(0, k))
                == ProtocolState::NeedCleanup && results[k] is CallbackOk);
        }
    }
}

/// A finalizer list equal to the input with the controller's token
/// guaranteed present: unchanged when already marked, else the token
/// appended, all other tokens kept in place.
pub fn with_finalizer(fins: &Vec<String>) -> (r: Vec<String>)
    ensures
        spec_has_finalizer(r@),
        spec_has_finalizer(fins@) ==> r@ == fins@,
        !spec_has_finalizer(fins@) ==> r@.len() == fins@.len() + 1 && (forall|i: int|
            0 <= i < fins@.len() ==> r@[i] == fins@[i]) && r@[fins@.len() as int]@
            == finalizer_token(),
{
    let mut r = fins.clone();
    proof {
        assert forall|i: int| 0 <= i < fins@.len() implies r@[i] == fins@[i] by {
            assert(cloned::<String>(fins@[i], r@[i]));
        }
        assert(r@ =~= fins@);
    }
    if !has_finalizer(&r) {
        r.push(blog_finalizer().to_owned());
        assert(r@[fins@.len() as int]@ == finalizer_token());
    }
    r
}

/// A finalizer list equal to the input with every occurrence of the
/// controller's token removed and every other token kept, in order.
pub fn without_finalizer(fins: &Vec<String>) -> (r: Vec<String>)
    ensures
        !spec_has_finalizer(r@),
        r@ == spec_without_finalizer(fins@),
{
    let mut r: Vec<String> = Vec::new();
    let tok: String = blog_finalizer().to_owned();
    let mut i: usize = 0;
    while i < fins.len()
        invariant
            0 <= i <= fins@.len(),
            tok@ == finalizer_token(),
            r@ == spec_without_finalizer(fins@.subrange(0, i as int)),
            !spec_has_finalizer(r@),
        decreases fins@.len() - i,
    {
        proof {
            assert(fins@.subrange(0, i + 1 as int).drop_last() =~= fins@.subrange(0, i as int));
            assert(fins@.subrange(0, i + 1 as int).last() == fins@[i as int]);
        }
        if !(fins[i] == tok) {
            let ghost old_r = r@;
            r.push(fins[i].clone());
            proof {
                assert(r@ =~= spec_without_finalizer(fins@.subrange(0, i + 1 as int)));
                assert forall|j: int| 0 <= j < r@.len() implies r@[j]@ != finalizer_token() by {
                    if j < old_r.len() {
                        assert(!spec_has_finalizer(old_r));
                        assert(old_r[j]@ != finalizer_token());
                    }
                }
            }
        }
        i = i + 1;
    }
    proof {
        assert(fins@.subrange(0, fins@.len() as int) =~= fins@);
    }
    r
}

/// The finalizer list with every occurrence of the controller's token
/// dropped.
pub open spec fn spec_without_finalizer(fins: Seq<String>) -> Seq<String>
    decreases fins.len(),
{
    if fins.len() == 0 {
        Seq::empty()
    } else if fins.last()@ == finalizer_token() {
        spec_without_finalizer(fins.drop_last())
    } else {
        spec_without_finalizer(fins.drop_last()).push(fins.last())
    }
}

/// The error/backoff policy: every failed reconciliation of an instance is
/// retried after the same fixed delay; there is no growing backoff and no
/// retry cap.
pub fn error_policy(_blog: &Blog, _error: &Error) -> (a: Action)
    ensures
        a == Action::Requeue(REQUEUE_SECONDS),
{
    Action::Requeue(REQUEUE_SECONDS)
}

/// The driver's view of one instance identity.
#[derive(Clone, Copy, Debug, PartialEq, Eq)]
pub enum DriverState {
    /// No notification has arrived yet.
    Unseen,
    /// A reconciliation pass is running; at most one per identity.
    Reconciling,
    /// Waiting for the recorded deadline (in seconds) or the next
    /// notification, whichever comes first; `None` waits for a
    /// notification alone.
    Waiting(Option<u64>),
    /// The store confirmed physical deletion; no further notifications
    /// will arrive for this identity.
    Terminated,
}

/// What wakes the driver for one instance identity.
#[derive(Clone, Copy, Debug, PartialEq, Eq)]
pub enum DriverEvent {
    /// A watch notification arrived.
    Notified,
    /// The recorded wait deadline elapsed.
    TimerFired,
    /// The running pass finished with this outcome.
    Completed(Result<Action, Error>),
    /// The store confirmed the instance's physical deletion.
    Removed,
}

/// `a + b`, capped at the largest representable instant.
pub open spec fn sat_add(a: u64, b: u64) -> u64 {
    if a + b <= u64::MAX {
        (a + b) as u64
    } else {
        u64::MAX
    }
}

/// One driver transition for one instance identity, at clock second `now`:
/// a fresh notification always starts (or restarts) a pass and collapses
/// any pending wait; a finished pass waits per its outcome, a failure for
/// the fixed retry delay; confirmed deletion is terminal.
pub open spec fn spec_driver_step(s: DriverState, e: DriverEvent, now: u64) -> DriverState {
    match (s, e) {
        (DriverState::Unseen, DriverEvent::Notified) => DriverState::Reconciling,
        (DriverState::Reconciling, DriverEvent::Completed(out)) => match out {
            Ok(Action::Requeue(d)) => DriverState::Waiting(Some(sat_add(now, d))),
            Ok(Action::AwaitChange) => DriverState::Waiting(None),
            Err(_) => DriverState::Waiting(Some(sat_add(now, REQUEUE_SECONDS))),
        },
        (DriverState::Reconciling, DriverEvent::Removed) => DriverState::Terminated,
        (DriverState::Waiting(_), DriverEvent::Notified) => DriverState::Reconciling,
        (DriverState::Waiting(Some(_)), DriverEvent::TimerFired) => DriverState::Reconciling,
        (DriverState::Waiting(_), DriverEvent::Removed) => DriverState::Terminated,
        (DriverState::Terminated, _) => DriverState::Terminated,
        (_, _) => s,
    }
}

/// One driver transition for one instance identity.
pub fn driver_step(s: DriverState, e: DriverEvent, now: u64) -> (t: DriverState)
    ensures
        t == spec_driver_step(s, e, now),
{
    match (s, e) {
        (DriverState::Unseen, DriverEvent::Notified) => DriverState::Reconciling,
        (DriverState::Reconciling, DriverEvent::Completed(out)) => match out {
            Ok(Action::Requeue(d)) => DriverState::Waiting(Some(exec_sat_add(now, d))),
            Ok(Action::AwaitChange) => DriverState::Waiting(None),
            Err(_) => DriverState::Waiting(Some(exec_sat_add(now, REQUEUE_SECONDS))),
        },
        (DriverState::Reconciling, DriverEvent::Removed) => DriverState::Terminated,
        (DriverState::Waiting(_), DriverEvent::Notified) => DriverState::Reconciling,
        (DriverState::Waiting(Some(_)), DriverEvent::TimerFired) => DriverState::Reconciling,
        (DriverState::Waiting(_), DriverEvent::Removed) => DriverState::Terminated,
        (DriverState::Terminated, _) => DriverState::Terminated,
        (_, _) => s,
    }
}

/// `a + b` seconds, capped instead of overflowing.
fn exec_sat_add(a: u64, b: u64) -> (r: u64)
    ensures
        r == sat_add(a, b),
{
    if b <= u64::MAX - a {
        a + b
    } else {
        u64::MAX
    }
}

/// A fresh notification always wins: whatever wait is pending for an
/// identity, a notification collapses it and starts a pass at once.
pub proof fn lemma_notification_collapses_wait(w: Option<u64>, now: u64)
    ensures
        spec_driver_step(DriverState::Waiting(w), DriverEvent::Notified, now)
            == DriverState::Reconciling,
{
}

/// A failed pass is always retried after exactly the fixed delay.
pub proof fn lemma_failure_retried_after_fixed_delay(e: Error, now: u64)
    ensures
        spec_driver_step(DriverState::Reconciling, DriverEvent::Completed(Err(e)), now)
            == DriverState::Waiting(Some(sat_add(now, REQUEUE_SECONDS))),
{
}

/// The operator diagnostic printed when the resource kind's schema is not
/// registered with the store at startup.
pub fn crd_diagnostic() -> (r: &'static str)
    ensures
        r@ == crd_diagnostic_text(),
{
    "is the crd installed? please run: cargo run --bin crdgen | kubectl apply -f -"
}

/// Startup precondition: the seed `list` call must have succeeded before
/// the run loop may be entered. A failed seed is fatal and yields the
/// operator diagnostic; it is never retried.
pub fn seed_check(list_result: Result<usize, StoreError>) -> (r: Result<usize, String>)
    ensures
        list_result matches Ok(n) ==> (r matches Ok(m) && m == n),
        list_result is Err ==> (r matches Err(m) && m@ == crd_diagnostic_text()),
{
    match list_result {
        Ok(n) => Ok(n),
        Err(_) => Err(crd_diagnostic().to_owned()),
    }
}

/// The operator diagnostic, as a sequence of characters.
pub open spec fn crd_diagnostic_text() -> Seq<char> {
    "is the crd installed? please run: cargo run --bin crdgen | kubectl apply -f -"@
}

} // verus!
