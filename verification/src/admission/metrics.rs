//! What the health endpoints answer.
use vstd::prelude::*;

verus! {

/// What a pod knows of itself.
#[derive(Debug, Clone, Copy, PartialEq, Eq, Structural)]
pub struct MetricsState {
    /// The process is up.
    pub healthy: bool,
    /// The pod serves admission: it holds the lease and is not draining.
    pub ready: bool,
    /// The gateway controller's cache is filled.
    pub reconcile_ready: bool,
}

/// The answer of a health endpoint.
#[derive(Debug, Clone, Copy)]
pub struct ProbeAnswer {
    pub status: u16,
    pub body: &'static str,
}

/// What an answer says.
pub open spec fn answer(a: ProbeAnswer, ok: bool, yes: Seq<char>, no: Seq<char>) -> bool {
    if ok {
        a.status == 200 && a.body@ == yes
    } else {
        a.status == 503 && a.body@ == no
    }
}

/// `/healthz`: is the process up?
pub fn healthz_handler(f: MetricsState) -> (r: ProbeAnswer)
    ensures
        answer(r, f.healthy, "ok\n"@, "unhealthy\n"@),
{
    if f.healthy {
        ProbeAnswer { status: 200, body: "ok\n" }
    } else {
        ProbeAnswer { status: 503, body: "unhealthy\n" }
    }
}

/// `/readyz`: does the pod serve admission? Whether the caches are filled
/// does not matter: admission reads the incoming object alone.
pub fn readyz_handler(f: MetricsState) -> (r: ProbeAnswer)
    ensures
        answer(r, f.ready, "ready\n"@, "not ready\n"@),
{
    if f.ready {
        ProbeAnswer { status: 200, body: "ready\n" }
    } else {
        ProbeAnswer { status: 503, body: "not ready\n" }
    }
}

/// `/reconcilez`: does the pod reconcile?
pub fn reconcilez_handler(f: MetricsState) -> (r: ProbeAnswer)
    ensures
        answer(r, f.reconcile_ready, "reconciling\n"@, "watch not synced\n"@),
{
    if f.reconcile_ready {
        ProbeAnswer { status: 200, body: "reconciling\n" }
    } else {
        ProbeAnswer { status: 503, body: "watch not synced\n" }
    }
}

/// Whether the caches are filled never changes what `/readyz` and `/healthz`
/// answer.
pub proof fn law_admission_ignores_watches(
    f: MetricsState,
    g: MetricsState,
    ready_f: ProbeAnswer,
    ready_g: ProbeAnswer,
    health_f: ProbeAnswer,
    health_g: ProbeAnswer,
)
    requires
        f.healthy == g.healthy,
        f.ready == g.ready,
        answer(ready_f, f.ready, "ready\n"@, "not ready\n"@),
        answer(ready_g, g.ready, "ready\n"@, "not ready\n"@),
        answer(health_f, f.healthy, "ok\n"@, "unhealthy\n"@),
        answer(health_g, g.healthy, "ok\n"@, "unhealthy\n"@),
    ensures
        ready_f.status == ready_g.status,
        ready_f.body@ == ready_g.body@,
        health_f.status == health_g.status,
        health_f.body@ == health_g.body@,
{
}

/// A probe is answered with success exactly when what it asks for holds, and
/// says so.
pub proof fn law_probe_is_answered(a: ProbeAnswer, ok: bool, yes: Seq<char>, no: Seq<char>)
    requires
        answer(a, ok, yes, no),
    ensures
        a.status == 200 <==> ok,
        a.status == 503 <==> !ok,
        ok ==> a.body@ == yes,
        !ok ==> a.body@ == no,
{
}

} // verus!
