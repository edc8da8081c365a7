use controller::api::{Blog, BlogMeta, BlogSpec};
use controller::manager::{
    blog_finalizer, crd_diagnostic, driver_step, error_policy, has_finalizer, pending_event,
    protocol_next, protocol_start, protocol_start_for, seed_check, with_finalizer,
    without_finalizer, DriverEvent, DriverState, Event, ProtocolState, StepResult,
    REQUEUE_SECONDS,
};
use controller::{Action, Error, StoreError};

fn blog(deletion_requested: bool, finalizers: Vec<&str>) -> Blog {
    Blog {
        metadata: BlogMeta {
            name: "post-1".to_string(),
            namespace: Some("blogs".to_string()),
            deletion_requested,
            finalizers: finalizers.into_iter().map(|s| s.to_string()).collect(),
        },
        spec: BlogSpec {
            author: vec![],
            title: "t".to_string(),
            draft: false,
            content: String::new(),
        },
        status: None,
    }
}

#[test]
fn marker_added_before_apply() {
    // A live instance without the marker: the marker-add update comes
    // first, and only its acknowledgement exposes the apply event.
    let s = protocol_start(false, false);
    assert_eq!(s, ProtocolState::NeedMarkerAdd);
    let s = protocol_next(s, StepResult::StoreOk);
    assert_eq!(s, ProtocolState::NeedApply);
    let s = protocol_next(s, StepResult::CallbackOk(Action::Requeue(300)));
    assert_eq!(s, ProtocolState::Done(Ok(Action::Requeue(300))));
}

#[test]
fn marked_instance_applies_directly() {
    assert_eq!(protocol_start(false, true), ProtocolState::NeedApply);
}

#[test]
fn pending_events_mirror_the_two_branches() {
    assert_eq!(pending_event(&protocol_start(false, true)), Some(Event::Apply));
    assert_eq!(pending_event(&protocol_start(true, true)), Some(Event::Cleanup));
    assert_eq!(pending_event(&protocol_start(false, false)), None);
    assert_eq!(pending_event(&protocol_start(true, false)), None);
}

#[test]
fn failed_marker_add_invokes_no_callback() {
    let s = protocol_start(false, false);
    let s = protocol_next(s, StepResult::StepFailed(StoreError::Forbidden));
    assert_eq!(
        s,
        ProtocolState::Done(Err(Error::FinalizerError(StoreError::Forbidden)))
    );
}

#[test]
fn scenario_cleanup_then_marker_removal() {
    // Deletion requested with the marker present: cleanup first, then the
    // marker's removal; afterwards the protocol shields cleanup from being
    // invoked again.
    let s = protocol_start(true, true);
    assert_eq!(s, ProtocolState::NeedCleanup);
    let s = protocol_next(s, StepResult::CallbackOk(Action::AwaitChange));
    assert_eq!(s, ProtocolState::NeedMarkerRemove(Action::AwaitChange));
    let s = protocol_next(s, StepResult::StoreOk);
    assert_eq!(s, ProtocolState::Done(Ok(Action::AwaitChange)));

    // Re-notified after the marker is gone: terminal, no cleanup event.
    let s = protocol_start(true, false);
    assert_eq!(s, ProtocolState::Done(Ok(Action::AwaitChange)));
}

#[test]
fn failed_marker_removal_fails_the_pass() {
    let s = protocol_start(true, true);
    let s = protocol_next(s, StepResult::CallbackOk(Action::AwaitChange));
    let s = protocol_next(s, StepResult::StepFailed(StoreError::Conflict));
    assert_eq!(
        s,
        ProtocolState::Done(Err(Error::FinalizerError(StoreError::Conflict)))
    );
}

#[test]
fn protocol_start_reads_metadata() {
    let unmarked = blog(false, vec!["other.example.com"]);
    assert_eq!(protocol_start_for(&unmarked), ProtocolState::NeedMarkerAdd);
    let marked = blog(false, vec!["blogs.letsgopherit.com"]);
    assert_eq!(protocol_start_for(&marked), ProtocolState::NeedApply);
    let deleting = blog(true, vec!["blogs.letsgopherit.com"]);
    assert_eq!(protocol_start_for(&deleting), ProtocolState::NeedCleanup);
}

#[test]
fn finalizer_list_operations() {
    assert_eq!(blog_finalizer(), "blogs.letsgopherit.com");

    let empty: Vec<String> = vec![];
    assert!(!has_finalizer(&empty));

    let added = with_finalizer(&empty);
    assert_eq!(added, vec!["blogs.letsgopherit.com".to_string()]);
    assert!(has_finalizer(&added));

    // Adding again changes nothing.
    assert_eq!(with_finalizer(&added), added);

    // Other tokens are kept, in order, when ours is added or removed.
    let mixed = vec![
        "other.example.com".to_string(),
        "blogs.letsgopherit.com".to_string(),
        "second.example.com".to_string(),
    ];
    assert_eq!(with_finalizer(&mixed), mixed);
    assert_eq!(
        without_finalizer(&mixed),
        vec![
            "other.example.com".to_string(),
            "second.example.com".to_string()
        ]
    );
    assert!(!has_finalizer(&without_finalizer(&mixed)));
}

#[test]
fn scenario_store_conflict_requeues_after_fixed_delay() {
    // A failed pass (store conflict) is re-checked after exactly 300
    // seconds, with no status persisted by the driver itself.
    let b = blog(false, vec!["blogs.letsgopherit.com"]);
    let err = Error::FinalizerError(StoreError::Conflict);
    assert_eq!(error_policy(&b, &err), Action::Requeue(300));
    assert_eq!(REQUEUE_SECONDS, 300);

    let next = driver_step(
        DriverState::Reconciling,
        DriverEvent::Completed(Err(err)),
        1_000,
    );
    assert_eq!(next, DriverState::Waiting(Some(1_300)));
}

#[test]
fn driver_transitions() {
    let now: u64 = 50;
    assert_eq!(
        driver_step(DriverState::Unseen, DriverEvent::Notified, now),
        DriverState::Reconciling
    );
    assert_eq!(
        driver_step(
            DriverState::Reconciling,
            DriverEvent::Completed(Ok(Action::Requeue(300))),
            now
        ),
        DriverState::Waiting(Some(350))
    );
    assert_eq!(
        driver_step(
            DriverState::Reconciling,
            DriverEvent::Completed(Ok(Action::AwaitChange)),
            now
        ),
        DriverState::Waiting(None)
    );
    // A notification collapses any pending wait.
    assert_eq!(
        driver_step(DriverState::Waiting(Some(350)), DriverEvent::Notified, now),
        DriverState::Reconciling
    );
    assert_eq!(
        driver_step(DriverState::Waiting(None), DriverEvent::Notified, now),
        DriverState::Reconciling
    );
    assert_eq!(
        driver_step(DriverState::Waiting(Some(350)), DriverEvent::TimerFired, 350),
        DriverState::Reconciling
    );
    // A parked instance has no timer to fire.
    assert_eq!(
        driver_step(DriverState::Waiting(None), DriverEvent::TimerFired, now),
        DriverState::Waiting(None)
    );
    assert_eq!(
        driver_step(DriverState::Reconciling, DriverEvent::Removed, now),
        DriverState::Terminated
    );
    assert_eq!(
        driver_step(DriverState::Terminated, DriverEvent::Notified, now),
        DriverState::Terminated
    );
    // The deadline saturates instead of overflowing.
    assert_eq!(
        driver_step(
            DriverState::Reconciling,
            DriverEvent::Completed(Ok(Action::Requeue(u64::MAX))),
            5
        ),
        DriverState::Waiting(Some(u64::MAX))
    );
}

#[test]
fn seed_failure_is_fatal_with_diagnostic() {
    let failed = seed_check(Err(StoreError::NotFound));
    assert_eq!(
        failed,
        Err("is the crd installed? please run: cargo run --bin crdgen | kubectl apply -f -"
            .to_string())
    );
    assert_eq!(
        crd_diagnostic(),
        "is the crd installed? please run: cargo run --bin crdgen | kubectl apply -f -"
    );
    assert_eq!(seed_check(Ok(1)), Ok(1));
}

#[test]
fn error_messages() {
    assert_eq!(
        Error::FinalizerError(StoreError::Validation).message(),
        "Finalizer Error"
    );
    assert_eq!(Error::SerializationError.message(), "SerializationError");
}
