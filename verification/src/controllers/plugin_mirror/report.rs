//! The plugin-mirror controller: can a mirror be reached?
use vstd::prelude::*;

use crate::api::conditions::{event, Event, EventType};
use crate::api::resources::{
    existing_conditions, ref_name, refs_view, status_conditions, MCPGPlugin, MCPGPluginMirror,
    ObjectRef, ObjectRefView,
};
use crate::controllers::report::{
    put, resync, resync_verdict, set_cond, Report, ReportView,
};
use crate::text::same;

verus! {

/// The mirrors that a changed plugin concerns: the one it names.
pub fn map_plugin_to_mirrors(plugin: &MCPGPlugin) -> (r: Vec<ObjectRef>)
    ensures
        refs_view(r@) == (match ref_name(plugin.spec.oci.mirror_ref) {
            Some(name) => seq![ObjectRefView { name, namespace: None }],
            None => Seq::empty(),
        }),
{
    let mut out: Vec<ObjectRef> = Vec::new();
    match &plugin.spec.oci.mirror_ref {
        Some(m) => {
            out.push(ObjectRef { name: m.name.clone(), namespace: None });
            assert(refs_view(out@) =~= seq![ObjectRefView { name: m.name@, namespace: None }]);
        },
        None => {
            assert(refs_view(out@) =~= Seq::empty());
        },
    }
    out
}

/// How many plugins name the mirror.
pub open spec fn proxied(plugins: Seq<MCPGPlugin>, mirror: Seq<char>) -> nat
    decreases plugins.len(),
{
    if plugins.len() == 0 {
        0
    } else {
        proxied(plugins.drop_last(), mirror) + (if ref_name(plugins.last().spec.oci.mirror_ref)
            == Some(mirror) {
            1nat
        } else {
            0nat
        })
    }
}

/// How many plugins name the mirror.
pub fn count_proxied_plugins(plugins: &Vec<MCPGPlugin>, mirror_name: &str) -> (r: usize)
    ensures
        r == proxied(plugins@, mirror_name@),
{
    let mut n: usize = 0;
    let mut i: usize = 0;
    assert(plugins@.take(0) =~= Seq::empty());
    while i < plugins.len()
        invariant
            i <= plugins.len(),
            n <= i,
            n == proxied(plugins@.take(i as int), mirror_name@),
        decreases plugins.len() - i,
    {
        assert(plugins@.take(i + 1).drop_last() =~= plugins@.take(i as int));
        let hit = match &plugins[i].spec.oci.mirror_ref {
            Some(m) => same(m.name.as_str(), mirror_name),
            None => false,
        };
        if hit {
            n = n + 1;
        }
        i = i + 1;
    }
    assert(plugins@.take(i as int) =~= plugins@);
    n
}

/// The Service behind a mirror, as `namespace/name`.
pub open spec fn service_text(m: MCPGPluginMirror) -> Seq<char> {
    "mirror Service "@ + m.spec.endpoint.service.namespace@ + "/"@ + m.spec.endpoint.service.name@
}

/// The report on a mirror: it is ready exactly when its Service is there.
pub open spec fn mirror_report(m: MCPGPluginMirror, generation: i64, reachable: bool) -> ReportView {
    let message = if reachable {
        service_text(m) + " resolves; pulls route to "@ + m.spec.endpoint.service.host@
    } else {
        service_text(m) + " not found; plugin pulls through this mirror will fail"@
    };
    ReportView {
        conditions: put(
            status_conditions(m.status),
            "Ready"@,
            reachable,
            if reachable {
                "Reconciled"@
            } else {
                "MirrorServiceNotFound"@
            },
            message,
            generation,
        ),
        event: if reachable {
            None
        } else {
            Some(event(EventType::Warning, "MirrorServiceNotFound"@, message, "Resolve"@))
        },
        verdict: resync_verdict(reachable),
    }
}

/// The status of a mirror, and what else follows its reconcile.
#[derive(Debug)]
pub struct MirrorReport {
    pub report: Report,
    pub observed_generation: i64,
    pub reachable: bool,
    pub proxied_references: usize,
    pub endpoint_host: String,
}

/// Whether a report is the one on a mirror.
pub open spec fn reports(
    obj: MCPGPluginMirror,
    generation: i64,
    reachable: bool,
    proxied_references: nat,
    r: MirrorReport,
) -> bool {
    &&& r.report@ == mirror_report(obj, generation, reachable)
    &&& r.observed_generation == generation
    &&& r.reachable == reachable
    &&& r.proxied_references == proxied_references
    &&& r.endpoint_host@ == obj.spec.endpoint.service.host@
}

/// Reports on a mirror.
pub fn report_plugin_mirror(
    obj: &MCPGPluginMirror,
    generation: i64,
    reachable: bool,
    proxied_references: usize,
) -> (r: MirrorReport)
    ensures
        reports(*obj, generation, reachable, proxied_references as nat, r),
{
    let svc = &obj.spec.endpoint.service;
    let label = "mirror Service ".to_owned().concat(svc.namespace.as_str()).concat("/").concat(
        svc.name.as_str(),
    );
    let mut conditions = existing_conditions(&obj.status);
    let event = if reachable {
        let message = label.concat(" resolves; pulls route to ").concat(svc.host.as_str());
        set_cond(&mut conditions, "Ready", true, "Reconciled", message.as_str(), generation);
        None
    } else {
        let message = label.concat(" not found; plugin pulls through this mirror will fail");
        set_cond(
            &mut conditions,
            "Ready",
            false,
            "MirrorServiceNotFound",
            message.as_str(),
            generation,
        );
        Some(
            Event::new(EventType::Warning, "MirrorServiceNotFound", message.as_str(), "Resolve"),
        )
    };
    MirrorReport {
        report: Report { conditions, event, verdict: resync(reachable) },
        observed_generation: generation,
        reachable,
        proxied_references,
        endpoint_host: svc.host.clone(),
    }
}

} // verus!
