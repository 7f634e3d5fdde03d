use mcpg_operator::clock::Timestamp;
use mcpg_operator::leader::{
    has_expired, next_round, release_failed, released_record, round_of, try_acquire_or_renew, LeaderElectionConfig,
    LeaseLookup, LeaseRecord, LeaseStep, Round, Wait,
};
use std::time::Duration;

fn cfg() -> LeaderElectionConfig {
    LeaderElectionConfig {
        lease_name: "mcpg-operator".into(),
        lease_namespace: "mcpg-system".into(),
        identity: "pod-1".into(),
        lease_duration: Duration::from_secs(30),
        renew_deadline: Duration::from_secs(20),
        retry_period: Duration::from_secs(4),
    }
}

#[test]
fn validate_accepts_well_formed_config() {
    cfg().validate().unwrap();
}

#[test]
fn validate_rejects_renew_deadline_at_or_above_lease_duration() {
    let mut c = cfg();
    c.renew_deadline = c.lease_duration;
    assert!(c.validate().is_err());
    c.renew_deadline = c.lease_duration + Duration::from_secs(1);
    assert!(c.validate().is_err());
}

#[test]
fn validate_rejects_retry_period_at_or_above_renew_deadline() {
    let mut c = cfg();
    c.retry_period = c.renew_deadline;
    assert!(c.validate().is_err());
}

#[test]
fn validate_rejects_empty_strings() {
    let mut c = cfg();
    c.identity.clear();
    assert!(c.validate().is_err());
    let mut c = cfg();
    c.lease_name.clear();
    assert!(c.validate().is_err());
    let mut c = cfg();
    c.lease_namespace.clear();
    assert!(c.validate().is_err());
}

const NOW: Timestamp = Timestamp { secs: 1_700_000_000, nanos: 0 };

fn ago(secs: i64) -> Timestamp {
    Timestamp { secs: NOW.secs - secs, nanos: 0 }
}

#[test]
fn has_expired_returns_true_for_no_renew_time() {
    assert!(has_expired(None, NOW, Duration::from_secs(30)));
}

#[test]
fn has_expired_returns_true_for_old_renew_time() {
    assert!(has_expired(Some(ago(60)), NOW, Duration::from_secs(30)));
}

#[test]
fn has_expired_returns_false_for_fresh_renew_time() {
    assert!(!has_expired(Some(ago(5)), NOW, Duration::from_secs(30)));
}

#[test]
fn a_lease_expires_only_after_its_duration() {
    assert!(!has_expired(Some(ago(30)), NOW, Duration::from_secs(30)));
    let just_over = Timestamp { secs: NOW.secs - 31, nanos: 999_999_999 };
    assert!(has_expired(Some(just_over), NOW, Duration::from_secs(30)));
    assert!(!has_expired(Some(ago(-5)), NOW, Duration::from_secs(30)));
}

fn lease(holder: Option<&str>, renewed: Option<Timestamp>, transitions: Option<i32>) -> LeaseRecord {
    LeaseRecord {
        resource_version: Some("7".into()),
        holder_identity: holder.map(str::to_owned),
        lease_duration_seconds: Some(30),
        acquire_time: Some(ago(1000)),
        renew_time: renewed,
        lease_transitions: transitions,
    }
}

#[test]
fn a_missing_lease_is_created() {
    match try_acquire_or_renew(&cfg(), LeaseLookup::Missing, NOW) {
        LeaseStep::Create(l) => {
            assert_eq!(l.holder_identity.as_deref(), Some("pod-1"));
            assert_eq!(l.lease_duration_seconds, Some(30));
            assert_eq!(l.acquire_time, Some(NOW));
            assert_eq!(l.renew_time, Some(NOW));
        }
        other => panic!("{other:?}"),
    }
}

#[test]
fn the_holder_renews_and_keeps_its_acquire_time() {
    let found = lease(Some("pod-1"), Some(ago(10)), Some(3));
    match try_acquire_or_renew(&cfg(), LeaseLookup::Found(found), NOW) {
        LeaseStep::Renew(l) => {
            assert_eq!(l.holder_identity.as_deref(), Some("pod-1"));
            assert_eq!(l.acquire_time, Some(ago(1000)));
            assert_eq!(l.renew_time, Some(NOW));
            assert_eq!(l.lease_transitions, Some(3));
            assert_eq!(l.resource_version.as_deref(), Some("7"));
        }
        other => panic!("{other:?}"),
    }
}

#[test]
fn a_fresh_lease_of_another_is_respected() {
    let found = lease(Some("pod-2"), Some(ago(10)), Some(3));
    assert!(matches!(
        try_acquire_or_renew(&cfg(), LeaseLookup::Found(found), NOW),
        LeaseStep::StandBy
    ));
}

#[test]
fn an_expired_lease_is_taken_and_the_takeover_counted() {
    let found = lease(Some("pod-2"), Some(ago(60)), Some(3));
    match try_acquire_or_renew(&cfg(), LeaseLookup::Found(found), NOW) {
        LeaseStep::Take(l) => {
            assert_eq!(l.holder_identity.as_deref(), Some("pod-1"));
            assert_eq!(l.lease_transitions, Some(4));
            assert_eq!(l.acquire_time, Some(NOW));
            assert_eq!(l.resource_version.as_deref(), Some("7"));
        }
        other => panic!("{other:?}"),
    }
}

#[test]
fn a_released_lease_is_taken_at_once() {
    let release = released_record(ago(1));
    assert_eq!(release.holder_identity, None);
    assert_eq!(release.renew_time, Some(ago(1)));
    assert_eq!(release.lease_transitions, None);
    for holder in [None, Some("")] {
        let found = lease(holder, release.renew_time, Some(3));
        match try_acquire_or_renew(&cfg(), LeaseLookup::Found(found), NOW) {
            LeaseStep::Take(l) => {
                assert_eq!(l.holder_identity.as_deref(), Some("pod-1"));
                assert_eq!(l.lease_transitions, Some(4));
            }
            other => panic!("{other:?}"),
        }
    }
}

#[test]
fn racing_replicas_write_at_the_version_they_read() {
    let mut other = cfg();
    other.identity = "pod-3".into();
    let look = || LeaseLookup::Found(lease(Some("pod-2"), Some(ago(60)), Some(3)));
    for c in [cfg(), other] {
        let step = try_acquire_or_renew(&c, look(), NOW);
        assert!(
            matches!(&step, LeaseStep::Take(l) if l.resource_version.as_deref() == Some("7"))
        );
        // The loser's write is refused: its version is no longer stored.
        assert_eq!(round_of(&step, false), Round::Failed);
    }
}

#[test]
fn a_failed_lookup_stays_failed() {
    match try_acquire_or_renew(&cfg(), LeaseLookup::Failed("boom".into()), NOW) {
        LeaseStep::Fail(m) => assert_eq!(m, "boom"),
        other => panic!("{other:?}"),
    }
}

#[test]
fn only_a_written_lease_counts_as_held() {
    let create = try_acquire_or_renew(&cfg(), LeaseLookup::Missing, NOW);
    assert_eq!(round_of(&create, true), Round::Held);
    assert_eq!(round_of(&create, false), Round::Failed);
    assert_eq!(round_of(&LeaseStep::StandBy, true), Round::Denied);
    assert_eq!(round_of(&LeaseStep::Fail("x".into()), true), Round::Failed);
}

#[test]
fn rounds_set_the_flag_and_the_pace() {
    let won = next_round(false, Round::Held, &cfg());
    assert!(won.is_leader && won.notify && !won.release);
    assert!(matches!(won.wait, Wait::For(d) if d == Duration::from_secs(20)));
    let lost = next_round(true, Round::Failed, &cfg());
    assert!(!lost.is_leader && lost.notify && !lost.release);
    assert!(matches!(lost.wait, Wait::For(d) if d == Duration::from_secs(4)));
    let stopped = next_round(true, Round::Shutdown, &cfg());
    assert!(stopped.release && !stopped.is_leader);
    assert!(matches!(stopped.wait, Wait::Exit));
    let idle = next_round(false, Round::Shutdown, &cfg());
    assert!(!idle.release && !idle.notify);
}

#[test]
fn releasing_a_gone_lease_is_no_failure() {
    assert!(!release_failed(Some(404)));
    assert!(release_failed(Some(500)));
    assert!(release_failed(None));
}
