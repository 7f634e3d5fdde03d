use mcpg_operator::controllers::gateway::edge::EdgePlan;
use mcpg_operator::controllers::gateway::edge_flow::{
    nothing_wanted, start, step, EdgeAction, EdgeEvent, EdgeState,
};
use mcpg_operator::reconcile::flow::ReconcileError;

fn plan(domains: &[&str], certificates: &[&str]) -> EdgePlan {
    let owned = |v: &[&str]| v.iter().map(|s| s.to_string()).collect();
    EdgePlan {
        uid: "uid-1".into(),
        domains: owned(domains),
        certificates: owned(certificates),
    }
}

#[test]
fn the_edge_gets_listeners_then_certificates_then_is_pruned() {
    let (s, a) = start(plan(&["a.example", "b.example"], &["a.example", "b.example"]));
    assert!(matches!(a, EdgeAction::ApplyListeners(d) if d == ["a.example", "b.example"]));
    let (s, a) = step(s, EdgeEvent::ListenersApplied(Ok(())));
    assert!(matches!(a, EdgeAction::ApplyCertificate(d) if d == "a.example"));
    let (s, a) = step(s, EdgeEvent::CertificateApplied(Ok("cert-a".into())));
    assert!(matches!(a, EdgeAction::ApplyCertificate(d) if d == "b.example"));
    let (s, a) = step(s, EdgeEvent::CertificateApplied(Ok("cert-b".into())));
    assert!(matches!(a, EdgeAction::ListCertificates { uid } if uid == "uid-1"));
    let listed = vec!["cert-old".to_owned(), "cert-a".to_owned(), "cert-b".to_owned()];
    let (s, a) = step(s, EdgeEvent::CertificatesListed(Some(listed)));
    assert!(matches!(s, EdgeState::Done));
    assert!(matches!(a, EdgeAction::Finish { prune } if prune == ["cert-old"]));
    let (_, a) = step(EdgeState::Done, EdgeEvent::ListenersApplied(Ok(())));
    assert!(matches!(a, EdgeAction::Nothing));
}

#[test]
fn failed_listeners_matter_only_where_domains_are_wanted() {
    let (s, _) = start(plan(&["a.example"], &[]));
    let (_, a) = step(s, EdgeEvent::ListenersApplied(Err("no edge".into())));
    assert!(matches!(a, EdgeAction::Fail(ReconcileError::Kube(d)) if d == "no edge"));
    let (s, _) = start(plan(&["a.example"], &["a.example"]));
    let (s, _) = step(s, EdgeEvent::ListenersApplied(Ok(())));
    let (_, a) = step(s, EdgeEvent::CertificateApplied(Err("no crd".into())));
    assert!(matches!(a, EdgeAction::Fail(ReconcileError::Apply(d)) if d == "no crd"));
}

#[test]
fn a_deleted_gateway_gives_up_everything_and_never_fails() {
    let (s, a) = start(nothing_wanted("uid-1".into()));
    assert!(matches!(a, EdgeAction::ApplyListeners(d) if d.is_empty()));
    let (s, a) = step(s, EdgeEvent::ListenersApplied(Err("no edge".into())));
    assert!(matches!(a, EdgeAction::ListCertificates { .. }));
    let (_, a) = step(s, EdgeEvent::CertificatesListed(Some(vec!["c".into()])));
    assert!(matches!(a, EdgeAction::Finish { prune } if prune == ["c"]));
    let (s, _) = start(nothing_wanted("uid-1".into()));
    let (s, _) = step(s, EdgeEvent::ListenersApplied(Ok(())));
    let (_, a) = step(s, EdgeEvent::CertificatesListed(None));
    assert!(matches!(a, EdgeAction::Finish { prune } if prune.is_empty()));
}
