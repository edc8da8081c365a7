//! The `Blog` custom resource: its spec, its controller-owned status, and
//! the status reconciler.

use vstd::prelude::*;

use crate::Action;
use crate::StoreError;

verus! {

/// Desired state of a blog instance, owned by external clients and
/// read-only to the controller.
#[derive(Clone, Debug, PartialEq, Eq)]
pub struct BlogSpec {
    pub author: Vec<String>,
    pub title: String,
    pub draft: bool,
    pub content: String,
}

impl BlogSpec {
    /// Whether the blog is a draft (drafts carry no publication time).
    pub fn is_draft(&self) -> (r: bool)
        ensures
            r == self.draft,
    {
        self.draft
    }
}

/// Observed state, owned exclusively by this controller and written only
/// through the status subresource patch.
#[derive(Clone, Debug, PartialEq, Eq)]
pub struct BlogStatus {
    pub draft: bool,
    pub created_at: String,
    pub published_at: String,
    pub modified_at: String,
}

/// Mathematical model of a status document.
pub ghost struct StatusView {
    pub draft: bool,
    pub created_at: Seq<char>,
    pub published_at: Seq<char>,
    pub modified_at: Seq<char>,
}

impl View for BlogStatus {
    type V = StatusView;

    open spec fn view(&self) -> StatusView {
        StatusView {
            draft: self.draft,
            created_at: self.created_at@,
            published_at: self.published_at@,
            modified_at: self.modified_at@,
        }
    }
}

/// The status the reconciler computes for a spec observed at instant `now`:
/// both timestamps are (re)set to `now` on every pass, and the publication
/// time is `now` exactly when the spec is not a draft.
pub open spec fn reconciled_status(draft: bool, now: Seq<char>) -> StatusView {
    StatusView {
        draft: draft,
        created_at: now,
        published_at: if draft { Seq::<char>::empty() } else { now },
        modified_at: now,
    }
}

/// A status document is well formed when it is unpublished exactly when it
/// is a draft.
pub open spec fn status_invariant(s: StatusView) -> bool {
    (s.published_at == Seq::<char>::empty()) <==> s.draft
}

/// Pure status computation: same spec and same instant give the same
/// document.
pub fn reconcile_status(spec: &BlogSpec, now: &String) -> (st: BlogStatus)
    ensures
        st@ == reconciled_status(spec.draft, now@),
{
    let published_at = if spec.is_draft() {
        String::new()
    } else {
        now.clone()
    };
    let st = BlogStatus {
        draft: spec.is_draft(),
        created_at: now.clone(),
        published_at,
        modified_at: now.clone(),
    };
    proof {
        assert(st@ =~= reconciled_status(spec.draft, now@));
    }
    st
}

/// Reconciling the same spec twice at the same instant produces identical
/// status documents.
pub proof fn lemma_reconcile_idempotent(draft: bool, now: Seq<char>, s1: StatusView, s2: StatusView)
    requires
        s1 == reconciled_status(draft, now),
        s2 == reconciled_status(draft, now),
    ensures
        s1 == s2,
{
}

/// A draft spec yields an empty publication time; a non-draft spec is
/// published at exactly the reconciliation instant.
pub proof fn lemma_draft_publication(draft: bool, now: Seq<char>)
    ensures
        draft ==> reconciled_status(draft, now).published_at == Seq::<char>::empty(),
        !draft ==> reconciled_status(draft, now).published_at == now,
{
}

/// Any status computed from a non-empty instant is well formed: it is
/// unpublished exactly when it is a draft. (An empty instant string never
/// comes from the clock.)
pub proof fn lemma_status_well_formed(draft: bool, now: Seq<char>)
    requires
        now.len() > 0,
    ensures
        status_invariant(reconciled_status(draft, now)),
{
}

/// Instance metadata as the controller reads it: identity, the deletion
/// request flag the store sets, and the finalizer marker tokens.
#[derive(Clone, Debug, PartialEq, Eq)]
pub struct BlogMeta {
    pub name: String,
    pub namespace: Option<String>,
    pub deletion_requested: bool,
    pub finalizers: Vec<String>,
}

/// A blog instance as notified by the watch source.
#[derive(Clone, Debug, PartialEq, Eq)]
pub struct Blog {
    pub metadata: BlogMeta,
    pub spec: BlogSpec,
    pub status: Option<BlogStatus>,
}

impl Blog {
    /// The instance's name.
    pub fn name_any(&self) -> (r: String)
        ensures
            r@ == self.metadata.name@,
    {
        self.metadata.name.clone()
    }

    /// The instance's namespace, falling back to the cluster default when
    /// none is recorded.
    pub fn namespace_or_default(&self) -> (r: String)
        ensures
            self.metadata.namespace matches Some(n) ==> r@ == n@,
            self.metadata.namespace is None ==> r@ == "default"@,
    {
        match &self.metadata.namespace {
            Some(n) => n.clone(),
            None => "default".to_owned(),
        }
    }

    /// Compute the status document for this instance at instant `now`,
    /// together with the follow-up action: a fixed-interval re-check, so
    /// a missed notification is repaired by level-triggered polling.
    pub fn reconcile(&self, now: &String) -> (r: (BlogStatus, Action))
        ensures
            r.0@ == reconciled_status(self.spec.draft, now@),
            r.1 == Action::Requeue(crate::manager::REQUEUE_SECONDS),
    {
        let st = reconcile_status(&self.spec, now);
        (st, Action::Requeue(crate::manager::REQUEUE_SECONDS))
    }

    /// Compute the status document for this instance at the current clock
    /// reading. Whatever instant the clock returned, the document is well
    /// formed and both timestamps equal that instant.
    pub fn reconcile_now(&self) -> (r: (BlogStatus, Action))
        ensures
            r.0.draft == self.spec.draft,
            r.0@.created_at == r.0@.modified_at,
            r.0@.created_at.len() > 0,
            status_invariant(r.0@),
            r.1 == Action::Requeue(crate::manager::REQUEUE_SECONDS),
    {
        let now = utc_now_string();
        let r = self.reconcile(&now);
        proof {
            lemma_status_well_formed(self.spec.draft, now@);
        }
        r
    }

    /// Tear-down for an instance marked for deletion. This controller owns
    /// no sub-resources, so cleanup has nothing to undo; it is safe to run
    /// any number of times and parks the instance until its removal.
    pub fn cleanup(&self) -> (r: Result<Action, StoreError>)
        ensures
            r == Result::<Action, StoreError>::Ok(Action::AwaitChange),
    {
        Ok(Action::AwaitChange)
    }
}

/// Relies on chrono's `Utc::now()` rendered through `Display`: the value
/// depends on the clock, so nothing is promised of it beyond being a
/// non-empty timestamp string.
#[verifier::external_body]
fn utc_now_string() -> (r: String)
    ensures
        r@.len() > 0,
{
    chrono::Utc::now().to_string()
}

} // verus!
