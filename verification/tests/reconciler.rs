use controller::api::{reconcile_status, Blog, BlogMeta, BlogSpec};
use controller::Action;

fn spec_with_draft(draft: bool) -> BlogSpec {
    BlogSpec {
        author: vec!["ada".to_string()],
        title: "a title".to_string(),
        draft,
        content: "some *markdown* body".to_string(),
    }
}

fn blog_with(draft: bool, namespace: Option<&str>) -> Blog {
    Blog {
        metadata: BlogMeta {
            name: "post-1".to_string(),
            namespace: namespace.map(|s| s.to_string()),
            deletion_requested: false,
            finalizers: vec![],
        },
        spec: spec_with_draft(draft),
        status: None,
    }
}

#[test]
fn scenario_draft_instance() {
    let now = "2024-01-01T00:00:00Z".to_string();
    let st = reconcile_status(&spec_with_draft(true), &now);
    assert_eq!(st.draft, true);
    assert_eq!(st.created_at, "2024-01-01T00:00:00Z");
    assert_eq!(st.published_at, "");
    assert_eq!(st.modified_at, "2024-01-01T00:00:00Z");
}

#[test]
fn scenario_published_instance() {
    let now = "2024-06-15T12:30:00Z".to_string();
    let st = reconcile_status(&spec_with_draft(false), &now);
    assert_eq!(st.draft, false);
    assert_eq!(st.created_at, now);
    assert_eq!(st.published_at, now);
    assert_eq!(st.modified_at, now);
}

#[test]
fn reconcile_is_idempotent() {
    let now = "2024-01-01T00:00:00Z".to_string();
    for draft in [true, false] {
        let first = reconcile_status(&spec_with_draft(draft), &now);
        let second = reconcile_status(&spec_with_draft(draft), &now);
        assert_eq!(first, second);
    }
}

#[test]
fn published_at_follows_draft_flag() {
    let now = "2030-12-31T23:59:59Z".to_string();
    let drafted = reconcile_status(&spec_with_draft(true), &now);
    assert_eq!(drafted.published_at, "");
    let published = reconcile_status(&spec_with_draft(false), &now);
    assert_eq!(published.published_at, now);
}

#[test]
fn is_draft_reads_spec() {
    assert!(spec_with_draft(true).is_draft());
    assert!(!spec_with_draft(false).is_draft());
}

#[test]
fn blog_reconcile_requeues_fixed_interval() {
    let now = "2024-01-01T00:00:00Z".to_string();
    let blog = blog_with(false, Some("blogs"));
    let (st, action) = blog.reconcile(&now);
    assert_eq!(action, Action::Requeue(300));
    assert_eq!(st, reconcile_status(&blog.spec, &now));
}

#[test]
fn blog_reconcile_now_is_well_formed() {
    let drafted = blog_with(true, None);
    let (st, action) = drafted.reconcile_now();
    assert_eq!(action, Action::Requeue(300));
    assert_eq!(st.draft, true);
    assert_eq!(st.published_at, "");
    assert_eq!(st.created_at, st.modified_at);
    assert!(!st.created_at.is_empty());

    let published = blog_with(false, None);
    let (st, _) = published.reconcile_now();
    assert_eq!(st.draft, false);
    assert_eq!(st.published_at, st.created_at);
}

#[test]
fn cleanup_parks_the_instance() {
    let blog = blog_with(false, Some("blogs"));
    assert_eq!(blog.cleanup(), Ok(Action::AwaitChange));
}

#[test]
fn identity_helpers() {
    let blog = blog_with(true, Some("blogs"));
    assert_eq!(blog.name_any(), "post-1");
    assert_eq!(blog.namespace_or_default(), "blogs");
    let unscoped = blog_with(true, None);
    assert_eq!(unscoped.namespace_or_default(), "default");
}
