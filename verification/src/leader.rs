//! Which replica leads: the rules of the lease.
use std::time::Duration;
use vstd::prelude::*;

use crate::clock::Timestamp;
use crate::duration::nanos_of;
use crate::text::{opt_text, same};

verus! {

/// The lease, who asks for it, and how often.
#[derive(Debug)]
pub struct LeaderElectionConfig {
    pub lease_name: String,
    pub lease_namespace: String,
    /// Who this replica is.
    pub identity: String,
    /// How long the lease is valid after a renewal.
    pub lease_duration: Duration,
    /// How often the holder renews.
    pub renew_deadline: Duration,
    /// How often the others look.
    pub retry_period: Duration,
}

impl Clone for LeaderElectionConfig {
    fn clone(&self) -> (r: LeaderElectionConfig)
        ensures
            r == *self,
    {
        LeaderElectionConfig {
            lease_name: self.lease_name.clone(),
            lease_namespace: self.lease_namespace.clone(),
            identity: self.identity.clone(),
            lease_duration: self.lease_duration,
            renew_deadline: self.renew_deadline,
            retry_period: self.retry_period,
        }
    }
}

/// What is wrong with the configuration: the holder must renew before the
/// lease runs out, the others look more often than that, and every name is
/// given.
pub open spec fn config_defect(c: LeaderElectionConfig) -> Option<Seq<char>> {
    if nanos_of(c.renew_deadline) >= nanos_of(c.lease_duration) {
        Some("renew_deadline must be < lease_duration"@)
    } else if nanos_of(c.retry_period) >= nanos_of(c.renew_deadline) {
        Some("retry_period must be < renew_deadline"@)
    } else if c.identity@.len() == 0 {
        Some("identity must not be empty"@)
    } else if c.lease_name@.len() == 0 {
        Some("lease_name must not be empty"@)
    } else if c.lease_namespace@.len() == 0 {
        Some("lease_namespace must not be empty"@)
    } else {
        None
    }
}

impl LeaderElectionConfig {
    /// Checks the configuration.
    pub fn validate(&self) -> (r: Result<(), &'static str>)
        ensures
            match r {
                Ok(_) => config_defect(*self) is None,
                Err(m) => config_defect(*self) == Some(m@),
            },
    {
        if self.renew_deadline.as_nanos() >= self.lease_duration.as_nanos() {
            return Err("renew_deadline must be < lease_duration");
        }
        if self.retry_period.as_nanos() >= self.renew_deadline.as_nanos() {
            return Err("retry_period must be < renew_deadline");
        }
        if self.identity.as_str().is_empty() {
            return Err("identity must not be empty");
        }
        if self.lease_name.as_str().is_empty() {
            return Err("lease_name must not be empty");
        }
        if self.lease_namespace.as_str().is_empty() {
            return Err("lease_namespace must not be empty");
        }
        Ok(())
    }
}

/// A point in time, in nanoseconds since the Unix epoch.
pub open spec fn instant(t: Timestamp) -> int {
    t.secs * 1_000_000_000 + t.nanos
}

/// The longest span that counts, in nanoseconds.
pub const LONGEST_SPAN: i128 = 9_223_372_036_854_775_807_999_999_999;

/// How long a lease is valid, in nanoseconds.
pub open spec fn validity(lease_duration: Duration) -> int {
    if nanos_of(lease_duration) > LONGEST_SPAN {
        LONGEST_SPAN as int
    } else {
        nanos_of(lease_duration) as int
    }
}

/// Whether a lease that was last renewed at the given time has run out. One
/// that was never renewed has.
pub open spec fn expired(renewed: Option<Timestamp>, now: Timestamp, lease_duration: Duration) -> bool {
    match renewed {
        Some(t) => instant(now) - instant(t) > validity(lease_duration),
        None => true,
    }
}

/// Whether a lease has run out.
pub fn has_expired(renew_time: Option<Timestamp>, now: Timestamp, lease_duration: Duration) -> (r:
    bool)
    ensures
        r == expired(renew_time, now, lease_duration),
{
    match renew_time {
        None => true,
        Some(t) => {
            let at: i128 = (t.secs as i128) * 1_000_000_000 + t.nanos as i128;
            let here: i128 = (now.secs as i128) * 1_000_000_000 + now.nanos as i128;
            let elapsed: i128 = here - at;
            let lease: u128 = lease_duration.as_nanos();
            let longest: i128 = LONGEST_SPAN;
            let valid: i128 = if lease > longest as u128 {
                longest
            } else {
                lease as i128
            };
            elapsed > valid
        },
    }
}

/// What a lease records. One that was read carries the version at which it
/// was read; one that is to be written carries the version that must still be
/// stored for the write to succeed.
#[derive(Debug)]
pub struct LeaseRecord {
    pub resource_version: Option<String>,
    pub holder_identity: Option<String>,
    pub lease_duration_seconds: Option<i32>,
    pub acquire_time: Option<Timestamp>,
    pub renew_time: Option<Timestamp>,
    pub lease_transitions: Option<i32>,
}

/// What a record says.
pub struct LeaseView {
    pub resource_version: Option<Seq<char>>,
    pub holder_identity: Option<Seq<char>>,
    pub lease_duration_seconds: Option<i32>,
    pub acquire_time: Option<Timestamp>,
    pub renew_time: Option<Timestamp>,
    pub lease_transitions: Option<i32>,
}

impl View for LeaseRecord {
    type V = LeaseView;

    open spec fn view(&self) -> LeaseView {
        LeaseView {
            resource_version: opt_text(self.resource_version),
            holder_identity: opt_text(self.holder_identity),
            lease_duration_seconds: self.lease_duration_seconds,
            acquire_time: self.acquire_time,
            renew_time: self.renew_time,
            lease_transitions: self.lease_transitions,
        }
    }
}

/// The duration that a lease records: whole seconds, in the size of the
/// field.
pub open spec fn recorded_secs(d: Duration) -> i32 {
    ((nanos_of(d) / 1_000_000_000) as u64) as i32
}

fn secs_to_record(d: Duration) -> (r: i32)
    ensures
        r == recorded_secs(d),
{
    let secs: u64 = (d.as_nanos() / 1_000_000_000) as u64;
    #[verifier::truncate]
    (secs as i32)
}

/// The record that creates a lease.
pub open spec fn fresh_record(c: LeaderElectionConfig, now: Timestamp) -> LeaseView {
    LeaseView {
        resource_version: None,
        holder_identity: Some(c.identity@),
        lease_duration_seconds: Some(recorded_secs(c.lease_duration)),
        acquire_time: Some(now),
        renew_time: Some(now),
        lease_transitions: Some(0),
    }
}

/// The record that renews a lease, at the version that was read.
pub open spec fn renewed_record(
    c: LeaderElectionConfig,
    existing: LeaseView,
    now: Timestamp,
) -> LeaseView {
    LeaseView {
        holder_identity: Some(c.identity@),
        lease_duration_seconds: Some(recorded_secs(c.lease_duration)),
        renew_time: Some(now),
        ..existing
    }
}

/// How often a lease has changed hands.
pub open spec fn transitions(existing: LeaseView) -> i32 {
    match existing.lease_transitions {
        Some(n) => n,
        None => 0,
    }
}

/// The record that takes over a lease, at the version that was read.
pub open spec fn taken_record(
    c: LeaderElectionConfig,
    existing: LeaseView,
    now: Timestamp,
) -> LeaseView {
    LeaseView {
        resource_version: existing.resource_version,
        holder_identity: Some(c.identity@),
        lease_duration_seconds: Some(recorded_secs(c.lease_duration)),
        acquire_time: Some(now),
        renew_time: Some(now),
        lease_transitions: Some((transitions(existing) + 1) as i32),
    }
}

/// A lease once its holder gave it up: it has no holder any more.
pub open spec fn after_release(existing: LeaseView, now: Timestamp) -> LeaseView {
    LeaseView { holder_identity: None, renew_time: Some(now), ..existing }
}

/// The record that gives up a lease: the holder is cleared and the time of
/// the last renewal set; what else the lease records is left as it is.
pub fn released_record(now: Timestamp) -> (r: LeaseRecord)
    ensures
        r@ == (LeaseView {
            resource_version: None,
            holder_identity: None,
            lease_duration_seconds: None,
            acquire_time: None,
            renew_time: Some(now),
            lease_transitions: None,
        }),
{
    LeaseRecord {
        resource_version: None,
        holder_identity: None,
        lease_duration_seconds: None,
        acquire_time: None,
        renew_time: Some(now),
        lease_transitions: None,
    }
}

/// How looking up the lease ended.
#[derive(Debug)]
pub enum LeaseLookup {
    Found(LeaseRecord),
    Missing,
    /// The request failed with this message.
    Failed(String),
}

/// What a replica does about the lease.
#[derive(Debug)]
pub enum LeaseStep {
    /// Create it with this record.
    Create(LeaseRecord),
    /// Renew it with this record.
    Renew(LeaseRecord),
    /// Take it over with this record.
    Take(LeaseRecord),
    /// Nothing: another replica holds it.
    StandBy,
    /// Nothing: it could not be looked up.
    Fail(String),
}

/// Who holds a lease; nobody is the empty text.
pub open spec fn holder(l: LeaseView) -> Seq<char> {
    match l.holder_identity {
        Some(h) => h,
        None => Seq::empty(),
    }
}

/// Whether a lease is up for grabs: nobody holds it, or it has run out.
pub open spec fn is_free(l: LeaseView, now: Timestamp, lease_duration: Duration) -> bool {
    holder(l).len() == 0 || expired(l.renew_time, now, lease_duration)
}

/// Whether `r` is what a replica does about the lease: it creates a missing
/// one, renews its own, takes over one that nobody holds or that has run out,
/// and leaves any other alone.
pub open spec fn step_is(
    c: LeaderElectionConfig,
    lookup: LeaseLookup,
    now: Timestamp,
    r: LeaseStep,
) -> bool {
    match lookup {
        LeaseLookup::Missing => r matches LeaseStep::Create(l) && l@ == fresh_record(c, now),
        LeaseLookup::Failed(m) => r matches LeaseStep::Fail(d) && d == m,
        LeaseLookup::Found(l) => if holder(l@) == c.identity@ {
            r matches LeaseStep::Renew(n) && n@ == renewed_record(c, l@, now)
        } else if is_free(l@, now, c.lease_duration) {
            r matches LeaseStep::Take(n) && n@ == taken_record(c, l@, now)
        } else {
            r is StandBy
        },
    }
}

/// Whether a lease that is to be taken over can change hands once more: the
/// count has room.
pub open spec fn can_change_hands(
    c: LeaderElectionConfig,
    lookup: LeaseLookup,
    now: Timestamp,
) -> bool {
    match lookup {
        LeaseLookup::Found(l) => holder(l@) != c.identity@ && is_free(
            l@,
            now,
            c.lease_duration,
        ) ==> transitions(l@) < i32::MAX,
        _ => true,
    }
}

/// Decides what a replica does about the lease.
pub fn try_acquire_or_renew(cfg: &LeaderElectionConfig, lookup: LeaseLookup, now: Timestamp) -> (r:
    LeaseStep)
    requires
        can_change_hands(*cfg, lookup, now),
    ensures
        step_is(*cfg, lookup, now, r),
{
    let secs: i32 = secs_to_record(cfg.lease_duration);
    match lookup {
        LeaseLookup::Missing => LeaseStep::Create(
            LeaseRecord {
                resource_version: None,
                holder_identity: Some(cfg.identity.clone()),
                lease_duration_seconds: Some(secs),
                acquire_time: Some(now),
                renew_time: Some(now),
                lease_transitions: Some(0),
            },
        ),
        LeaseLookup::Failed(m) => LeaseStep::Fail(m),
        LeaseLookup::Found(l) => {
            let mine = match &l.holder_identity {
                Some(h) => same(h.as_str(), cfg.identity.as_str()),
                None => cfg.identity.as_str().is_empty(),
            };
            assert(cfg.identity@.len() == 0 ==> cfg.identity@ =~= Seq::empty());
            if mine {
                return LeaseStep::Renew(
                    LeaseRecord {
                        resource_version: l.resource_version,
                        holder_identity: Some(cfg.identity.clone()),
                        lease_duration_seconds: Some(secs),
                        acquire_time: l.acquire_time,
                        renew_time: Some(now),
                        lease_transitions: l.lease_transitions,
                    },
                );
            }
            let unheld = match &l.holder_identity {
                Some(h) => h.as_str().is_empty(),
                None => true,
            };
            if unheld || has_expired(l.renew_time, now, cfg.lease_duration) {
                let before: i32 = match l.lease_transitions {
                    Some(n) => n,
                    None => 0,
                };
                return LeaseStep::Take(
                    LeaseRecord {
                        resource_version: l.resource_version,
                        holder_identity: Some(cfg.identity.clone()),
                        lease_duration_seconds: Some(secs),
                        acquire_time: Some(now),
                        renew_time: Some(now),
                        lease_transitions: Some(before + 1),
                    },
                );
            }
            LeaseStep::StandBy
        },
    }
}

/// How a round of the election ended.
#[derive(Debug, Clone, Copy, PartialEq, Eq, Structural)]
pub enum Round {
    /// This replica holds the lease.
    Held,
    /// Another replica holds it.
    Denied,
    /// The lease could not be read or written.
    Failed,
    /// The replica is to stop.
    Shutdown,
}

/// What comes after a round.
#[derive(Debug)]
pub enum Wait {
    For(Duration),
    Exit,
}

/// What follows a round.
#[derive(Debug)]
pub struct RoundPlan {
    /// Whether the replica leads from now on.
    pub is_leader: bool,
    /// Whether that changed, so that whoever waits for it is told.
    pub notify: bool,
    /// Whether the lease is to be given up.
    pub release: bool,
    pub wait: Wait,
}

/// What follows a round of the election: the replica leads exactly when it
/// holds the lease; a leader renews at its deadline, anyone else retries
/// after the retry period; a leader that stops gives up the lease.
pub fn next_round(was_leader: bool, round: Round, cfg: &LeaderElectionConfig) -> (r: RoundPlan)
    ensures
        r.is_leader == (round == Round::Held),
        r.notify == (was_leader != (round == Round::Held)),
        r.release == (was_leader && round == Round::Shutdown),
        match round {
            Round::Held => r.wait matches Wait::For(d) && nanos_of(d) == nanos_of(
                cfg.renew_deadline,
            ),
            Round::Shutdown => r.wait is Exit,
            _ => r.wait matches Wait::For(d) && nanos_of(d) == nanos_of(cfg.retry_period),
        },
{
    match round {
        Round::Held => RoundPlan {
            is_leader: true,
            notify: !was_leader,
            release: false,
            wait: Wait::For(cfg.renew_deadline),
        },
        Round::Denied => RoundPlan {
            is_leader: false,
            notify: was_leader,
            release: false,
            wait: Wait::For(cfg.retry_period),
        },
        Round::Failed => RoundPlan {
            is_leader: false,
            notify: was_leader,
            release: false,
            wait: Wait::For(cfg.retry_period),
        },
        Round::Shutdown => RoundPlan {
            is_leader: false,
            notify: was_leader,
            release: was_leader,
            wait: Wait::Exit,
        },
    }
}

/// How a round ended, given what was done about the lease and whether the
/// write, if there was one, succeeded.
pub open spec fn round_after(step: LeaseStep, written: bool) -> Round {
    match step {
        LeaseStep::StandBy => Round::Denied,
        LeaseStep::Fail(_) => Round::Failed,
        _ => if written {
            Round::Held
        } else {
            Round::Failed
        },
    }
}

/// How a round ended, given what was done about the lease and whether the
/// write, if there was one, succeeded.
pub fn round_of(step: &LeaseStep, written: bool) -> (r: Round)
    ensures
        r == round_after(*step, written),
{
    match step {
        LeaseStep::StandBy => Round::Denied,
        LeaseStep::Fail(_) => Round::Failed,
        _ => if written {
            Round::Held
        } else {
            Round::Failed
        },
    }
}

/// Whether a failure to give up the lease counts. A lease that is gone needs
/// no giving up.
pub fn release_failed(code: Option<u16>) -> (r: bool)
    ensures
        r == (code != Some(404u16)),
{
    match code {
        Some(c) => c != 404,
        None => true,
    }
}

/// A lease as the cluster stores it: its version, and what it records.
pub struct StoredLease {
    pub version: Seq<char>,
    pub record: LeaseView,
}

/// Whether the cluster takes a write: a lease is created only where there is
/// none, and replaced only where the version that the write names is still
/// the stored one.
pub open spec fn is_taken(stored: Option<StoredLease>, step: LeaseStep) -> bool {
    match step {
        LeaseStep::Create(_) => stored is None,
        LeaseStep::Renew(l) => stored matches Some(s) && l@.resource_version == Some(s.version),
        LeaseStep::Take(l) => stored matches Some(s) && l@.resource_version == Some(s.version),
        _ => false,
    }
}

/// The lease that a write brings along.
pub open spec fn written_record(step: LeaseStep) -> Option<LeaseView> {
    match step {
        LeaseStep::Create(l) => Some(l@),
        LeaseStep::Renew(l) => Some(l@),
        LeaseStep::Take(l) => Some(l@),
        _ => None,
    }
}

/// What the cluster stores after a write: what was written, at the version
/// `next`, or what it stored before when it refused the write.
pub open spec fn after_write(stored: Option<StoredLease>, step: LeaseStep, next: Seq<char>) -> Option<
    StoredLease,
> {
    if is_taken(stored, step) {
        Some(StoredLease { version: next, record: written_record(step)->0 })
    } else {
        stored
    }
}

/// Whether a replica sees what the cluster stores.
pub open spec fn sees(lookup: LeaseLookup, stored: Option<StoredLease>) -> bool {
    match (lookup, stored) {
        (LeaseLookup::Missing, None) => true,
        (LeaseLookup::Found(l), Some(s)) => l@ == (LeaseView {
            resource_version: Some(s.version),
            ..s.record
        }),
        _ => false,
    }
}

/// Of two replicas that race for the lease, one wins: both see the same
/// lease, or that there is none, and both write. The write that comes first
/// makes its replica the leader; the other finds that the version it read is
/// no longer stored, changes nothing and is no leader, whatever the clocks of
/// the two say.
pub proof fn law_one_winner(
    a: LeaderElectionConfig,
    b: LeaderElectionConfig,
    la: LeaseLookup,
    lb: LeaseLookup,
    stored: Option<StoredLease>,
    now_a: Timestamp,
    now_b: Timestamp,
    ra: LeaseStep,
    rb: LeaseStep,
    first: Seq<char>,
    second: Seq<char>,
)
    requires
        sees(la, stored),
        sees(lb, stored),
        step_is(a, la, now_a, ra),
        step_is(b, lb, now_b, rb),
        written_record(ra) is Some,
        stored matches Some(s) ==> first != s.version,
    ensures
        is_taken(stored, ra),
        round_after(ra, is_taken(stored, ra)) == Round::Held,
        !is_taken(after_write(stored, ra, first), rb),
        round_after(rb, is_taken(after_write(stored, ra, first), rb)) != Round::Held,
        after_write(after_write(stored, ra, first), rb, second) == after_write(stored, ra, first),
        after_write(stored, ra, first) matches Some(s) && holder(s.record) == a.identity@,
{
}

/// A released lease is taken at once: whoever looks next takes it over, and
/// does not wait until it would have run out.
pub proof fn law_released_lease_is_taken_at_once(
    c: LeaderElectionConfig,
    before: LeaseView,
    l: LeaseRecord,
    released_at: Timestamp,
    now: Timestamp,
    r: LeaseStep,
)
    requires
        c.identity@.len() > 0,
        l@ == after_release(before, released_at),
        step_is(c, LeaseLookup::Found(l), now, r),
    ensures
        r matches LeaseStep::Take(n) && n@ == taken_record(c, l@, now),
{
}

/// A lease that another replica holds and that has not run out is left
/// alone.
pub proof fn law_fresh_lease_is_respected(
    c: LeaderElectionConfig,
    l: LeaseRecord,
    now: Timestamp,
    r: LeaseStep,
)
    requires
        step_is(c, LeaseLookup::Found(l), now, r),
        holder(l@) != c.identity@,
        holder(l@).len() > 0,
        !expired(l.renew_time, now, c.lease_duration),
    ensures
        r is StandBy,
{
}

/// Two replicas that see the same lease while someone holds it and before it
/// runs out never both write it.
pub proof fn law_one_writer(
    a: LeaderElectionConfig,
    b: LeaderElectionConfig,
    l: LeaseRecord,
    now: Timestamp,
    ra: LeaseStep,
    rb: LeaseStep,
)
    requires
        a.identity@ != b.identity@,
        holder(l@).len() > 0,
        !expired(l.renew_time, now, a.lease_duration),
        !expired(l.renew_time, now, b.lease_duration),
        step_is(a, LeaseLookup::Found(l), now, ra),
        step_is(b, LeaseLookup::Found(l), now, rb),
    ensures
        ra is StandBy || rb is StandBy,
{
}

/// A holder that renews at its deadline renews in time: by then the lease of
/// a valid configuration has not run out.
pub proof fn law_deadline_is_in_time(
    c: LeaderElectionConfig,
    renewed: Timestamp,
    now: Timestamp,
)
    requires
        config_defect(c) is None,
        instant(now) - instant(renewed) <= nanos_of(c.renew_deadline),
        nanos_of(c.lease_duration) <= LONGEST_SPAN,
    ensures
        !expired(Some(renewed), now, c.lease_duration),
{
}

/// A lease changes hands once when it is taken over, and not when it is
/// renewed.
pub proof fn law_transitions_count_takeovers(
    c: LeaderElectionConfig,
    l: LeaseRecord,
    now: Timestamp,
    r: LeaseStep,
)
    requires
        step_is(c, LeaseLookup::Found(l), now, r),
        transitions(l@) < i32::MAX,
    ensures
        r matches LeaseStep::Take(n) ==> transitions(n@) == transitions(l@) + 1,
        r matches LeaseStep::Renew(n) ==> transitions(n@) == transitions(l@),
{
}

/// A configuration is valid exactly when the others look more often than the
/// holder renews, the holder renews before the lease runs out, and the replica,
/// the lease and its namespace have names.
pub proof fn law_valid_configurations(c: LeaderElectionConfig)
    ensures
        config_defect(c) is None <==> {
            &&& nanos_of(c.retry_period) < nanos_of(c.renew_deadline)
            &&& nanos_of(c.renew_deadline) < nanos_of(c.lease_duration)
            &&& c.identity@.len() > 0
            &&& c.lease_name@.len() > 0
            &&& c.lease_namespace@.len() > 0
        },
{
}

/// A lease has run out exactly when it was never renewed, or when more time
/// than its duration has passed since; one that was renewed in the future has
/// not.
pub proof fn law_lease_runs_out(t: Timestamp, now: Timestamp, d: Duration)
    requires
        nanos_of(d) <= LONGEST_SPAN,
    ensures
        expired(Some(t), now, d) <==> (now.secs - t.secs) * 1_000_000_000 + now.nanos - t.nanos
            > nanos_of(d),
        expired(None, now, d),
{
}

/// A replica writes a lease that is missing, its own, unheld, or run out, and no
/// other; what it writes names it as the holder, renewed now, for the whole
/// seconds of the lease, at the version that it read. It acquires the lease now
/// unless it renews its own.
pub proof fn law_lease_is_written_by_its_holder(
    c: LeaderElectionConfig,
    lookup: LeaseLookup,
    now: Timestamp,
    r: LeaseStep,
)
    requires
        step_is(c, lookup, now, r),
        can_change_hands(c, lookup, now),
    ensures
        r is Create <==> lookup is Missing,
        r is Fail <==> lookup is Failed,
        lookup matches LeaseLookup::Failed(m) ==> r->Fail_0@ == m@,
        lookup matches LeaseLookup::Found(l) ==> {
            let own = (match l.holder_identity {
                Some(h) => h@ == c.identity@,
                None => c.identity@.len() == 0,
            });
            let unheld = (match l.holder_identity {
                Some(h) => h@.len() == 0,
                None => true,
            });
            &&& r is Renew <==> own
            &&& r is Take <==> !own && (unheld || expired(l.renew_time, now, c.lease_duration))
            &&& r is StandBy <==> !own && !unheld && !expired(
                l.renew_time,
                now,
                c.lease_duration,
            )
        },
        written_record(r) matches Some(w) ==> {
            &&& w.holder_identity == Some(c.identity@)
            &&& w.renew_time == Some(now)
            &&& nanos_of(c.lease_duration) / 1_000_000_000 <= i32::MAX ==> (
            w.lease_duration_seconds matches Some(secs) && secs == nanos_of(c.lease_duration)
                / 1_000_000_000)
            &&& r is Renew || w.acquire_time == Some(now)
            &&& r is Create ==> w.resource_version is None && w.lease_transitions == Some(0i32)
            &&& r is Renew ==> w.acquire_time == lookup->Found_0.acquire_time
                && w.lease_transitions == lookup->Found_0.lease_transitions
            &&& lookup matches LeaseLookup::Found(l) ==> w.resource_version == opt_text(
                l.resource_version,
            )
        },
{
    assert(c.identity@.len() == 0 ==> c.identity@ =~= Seq::empty());
    if let LeaseLookup::Found(l) = lookup {
        if let Some(h) = l.holder_identity {
            assert(h@.len() == 0 ==> h@ =~= Seq::empty());
        }
    }
}

/// A replica holds the lease after a round exactly when it wrote it, and is
/// denied exactly when it stood by.
pub proof fn law_rounds(step: LeaseStep, written: bool)
    ensures
        round_after(step, written) == Round::Held <==> written && written_record(step) is Some,
        round_after(step, written) == Round::Denied <==> step is StandBy,
        round_after(step, written) != Round::Shutdown,
{
}

/// A lease that was given up has no holder, was renewed now, and is otherwise
/// as it was.
pub proof fn law_released_lease_has_no_holder(l: LeaseView, now: Timestamp)
    ensures
        after_release(l, now).holder_identity is None,
        after_release(l, now).renew_time == Some(now),
        after_release(l, now).acquire_time == l.acquire_time,
        after_release(l, now).lease_transitions == l.lease_transitions,
        after_release(l, now).lease_duration_seconds == l.lease_duration_seconds,
{
}

} // verus!
