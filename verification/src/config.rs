//! What the operator is told at startup.
use vstd::prelude::*;

use crate::oci_pull::{cut, split_once};
use crate::strmap::StringMap;
use crate::text::{split, split_on, texts, trim, trimmed};

verus! {

/// The shortest time between two heartbeats to the fleet, in seconds.
pub const SHORTEST_HEARTBEAT_SECS: u64 = 5;

/// How log lines are written.
#[derive(Debug, Clone, Copy, PartialEq, Eq, Structural)]
pub enum LogFormat {
    Pretty,
    Json,
}

/// What the operator is told at startup.
#[derive(Debug, Clone)]
pub struct OperatorConfig {
    /// Where metrics and health are served.
    pub metrics_bind: String,
    /// Where the webhook is served.
    pub webhook_bind: String,
    /// The directory of the webhook's certificate and key; without one the
    /// webhook is not served.
    pub tls_cert_dir: Option<String>,
    pub leader_election: bool,
    pub lease_name: String,
    pub lease_namespace: String,
    pub lease_duration_secs: u64,
    pub lease_renew_secs: u64,
    pub lease_retry_secs: u64,
    /// Who this replica is.
    pub pod_name: String,
    /// How often everything is reconciled again.
    pub resync_interval_secs: u64,
    pub reconcile_concurrency: usize,
    /// The only namespace that is watched; all of them without one.
    pub watch_namespace: Option<String>,
    pub operator_service_account: String,
    pub log_format: LogFormat,
    pub log_filter: String,
    /// A trust root for keyless signatures that is read from disk.
    pub sigstore_trust_root_path: Option<String>,
    /// Who issues certificates for custom domains.
    pub edge_cluster_issuer: Option<String>,
    /// The plugins of every managed-cloud gateway, separated by commas.
    pub cloud_default_plugins: Option<String>,
    pub default_otlp_traces_url: Option<String>,
    /// Annotations for every gateway's pods: `key=value`, separated by
    /// commas.
    pub gateway_pod_annotations: Option<String>,
    pub fleet_attach: bool,
    pub fleet_endpoint: Option<String>,
    pub fleet_token_file: Option<String>,
    pub fleet_token: Option<String>,
    pub fleet_edge_address: String,
    pub fleet_heartbeat_secs: u64,
}

impl Default for OperatorConfig {
    /// What holds unless the operator is told otherwise.
    fn default() -> (r: OperatorConfig)
        ensures
            r.metrics_bind@ == "0.0.0.0:8443"@,
            r.webhook_bind@ == "0.0.0.0:9443"@,
            r.tls_cert_dir is None,
            r.leader_election,
            r.lease_name@ == "mcpg-operator"@,
            r.lease_namespace@ == "mcpg-system"@,
            r.lease_duration_secs == 30,
            r.lease_renew_secs == 20,
            r.lease_retry_secs == 4,
            r.pod_name@ == "mcpg-operator"@,
            r.resync_interval_secs == 600,
            r.reconcile_concurrency == 8,
            r.watch_namespace is None,
            r.operator_service_account@ == "mcpg-operator"@,
            r.log_format == LogFormat::Json,
            r.log_filter@ == "mcpg_operator=info,kube=warn"@,
            r.sigstore_trust_root_path is None,
            r.edge_cluster_issuer is None,
            r.cloud_default_plugins is None,
            r.default_otlp_traces_url is None,
            r.gateway_pod_annotations is None,
            !r.fleet_attach,
            r.fleet_endpoint is None,
            r.fleet_token_file is None,
            r.fleet_token is None,
            r.fleet_edge_address@ == ""@,
            r.fleet_heartbeat_secs == 30,
    {
        OperatorConfig {
            metrics_bind: "0.0.0.0:8443".to_owned(),
            webhook_bind: "0.0.0.0:9443".to_owned(),
            tls_cert_dir: None,
            leader_election: true,
            lease_name: "mcpg-operator".to_owned(),
            lease_namespace: "mcpg-system".to_owned(),
            lease_duration_secs: 30,
            lease_renew_secs: 20,
            lease_retry_secs: 4,
            pod_name: "mcpg-operator".to_owned(),
            resync_interval_secs: 600,
            reconcile_concurrency: 8,
            watch_namespace: None,
            operator_service_account: "mcpg-operator".to_owned(),
            log_format: LogFormat::Json,
            log_filter: "mcpg_operator=info,kube=warn".to_owned(),
            sigstore_trust_root_path: None,
            edge_cluster_issuer: None,
            cloud_default_plugins: None,
            default_otlp_traces_url: None,
            gateway_pod_annotations: None,
            fleet_attach: false,
            fleet_endpoint: None,
            fleet_token_file: None,
            fleet_token: None,
            fleet_edge_address: "".to_owned(),
            fleet_heartbeat_secs: 30,
        }
    }
}

/// The annotation that a piece of the list stands for: `key=value` with a
/// key, each without white space around it. Any other piece stands for none.
pub open spec fn annotation(piece: Seq<char>) -> Option<(Seq<char>, Seq<char>)> {
    match cut(trim(piece), '=') {
        Some((k, v)) => if trim(k).len() > 0 {
            Some((trim(k), trim(v)))
        } else {
            None
        },
        None => None,
    }
}

/// The annotations that a list of pieces stands for; a later one replaces an
/// earlier one with the same key.
pub open spec fn annotations(pieces: Seq<Seq<char>>) -> Map<Seq<char>, Seq<char>>
    decreases pieces.len(),
{
    if pieces.len() == 0 {
        Map::empty()
    } else {
        match annotation(pieces.last()) {
            Some((k, v)) => annotations(pieces.drop_last()).insert(k, v),
            None => annotations(pieces.drop_last()),
        }
    }
}

/// The annotations of every gateway's pods.
pub open spec fn pod_annotations(c: OperatorConfig) -> Map<Seq<char>, Seq<char>> {
    match c.gateway_pod_annotations {
        Some(raw) => annotations(split_on(raw@, ',')),
        None => Map::empty(),
    }
}

impl OperatorConfig {
    /// The annotations of every gateway's pods.
    pub fn gateway_pod_annotations_map(&self) -> (r: StringMap)
        ensures
            r@ == pod_annotations(*self),
    {
        let mut out = StringMap::new();
        let raw = match &self.gateway_pod_annotations {
            Some(raw) => raw,
            None => return out,
        };
        let pieces = split(raw.as_str(), ',');
        let ghost all = split_on(raw@, ',');
        let mut i: usize = 0;
        assert(all.take(0) =~= Seq::empty());
        while i < pieces.len()
            invariant
                i <= pieces.len(),
                all == split_on(raw@, ','),
                texts(pieces@) == all,
                out@ == annotations(all.take(i as int)),
            decreases pieces.len() - i,
        {
            proof {
                assert(all.take(i + 1).drop_last() =~= all.take(i as int));
                assert(all.take(i + 1).last() == pieces@[i as int]@);
            }
            let piece = trimmed(pieces[i].as_str());
            match split_once(piece.as_str(), '=') {
                Some((k, v)) => {
                    let key = trimmed(k.as_str());
                    if !key.as_str().is_empty() {
                        out.insert(key.as_str(), trimmed(v.as_str()).as_str());
                    }
                },
                None => {},
            }
            i = i + 1;
        }
        assert(all.take(i as int) =~= all);
        out
    }

    /// The time between two heartbeats to the fleet, in seconds; it is never
    /// shorter than `SHORTEST_HEARTBEAT_SECS`.
    pub fn heartbeat_secs(&self) -> (r: u64)
        ensures
            r == (if self.fleet_heartbeat_secs < 5 {
                5
            } else {
                self.fleet_heartbeat_secs
            }),
    {
        if self.fleet_heartbeat_secs < SHORTEST_HEARTBEAT_SECS {
            SHORTEST_HEARTBEAT_SECS
        } else {
            self.fleet_heartbeat_secs
        }
    }

    /// Whether the webhook is served.
    pub fn webhook_enabled(&self) -> (r: bool)
        ensures
            r == self.tls_cert_dir is Some,
    {
        self.tls_cert_dir.is_some()
    }
}

/// A piece `key=value` stands for that annotation, without white space around the
/// key and the value. A piece without a key, or without the `=`, stands for none.
pub proof fn law_annotation(piece: Seq<char>, k: Seq<char>, v: Seq<char>)
    requires
        !k.contains('='),
    ensures
        trim(piece) == k + seq!['='] + v && trim(k).len() > 0 ==> annotation(piece) == Some(
            (trim(k), trim(v)),
        ),
        trim(piece) == k + seq!['='] + v && trim(k).len() == 0 ==> annotation(piece) is None,
        trim(piece) == k ==> annotation(piece) is None,
{
    crate::oci_pull::laws::law_cut(k, '=', v);
}

/// The value of an annotation is the one that its last piece gives, and only the
/// pieces give annotations.
pub proof fn law_last_annotation_counts(pieces: Seq<Seq<char>>, key: Seq<char>)
    ensures
        annotations(pieces).dom().contains(key) <==> exists|i: int|
            0 <= i < pieces.len() && (annotation(#[trigger] pieces[i]) matches Some(a) && a.0
                == key),
        annotations(pieces).dom().contains(key) ==> exists|i: int|
            0 <= i < pieces.len() && annotation(#[trigger] pieces[i]) == Some(
                (key, annotations(pieces)[key]),
            ) && forall|j: int|
                i < j < pieces.len() ==> !(annotation(#[trigger] pieces[j]) matches Some(a) && a.0
                    == key),
    decreases pieces.len(),
{
    if pieces.len() > 0 {
        let init = pieces.drop_last();
        let last = pieces.len() - 1;
        law_last_annotation_counts(init, key);
        assert forall|j: int| 0 <= j < init.len() implies #[trigger] pieces[j] == init[j] by {}
        let ours = annotation(pieces[last]) matches Some(a) && a.0 == key;
        if ours {
            assert(annotation(pieces[last]) == Some((key, annotations(pieces)[key])));
        } else {
            if annotations(init).dom().contains(key) {
                let i = choose|i: int|
                    0 <= i < init.len() && annotation(#[trigger] init[i]) == Some(
                        (key, annotations(init)[key]),
                    ) && forall|j: int|
                        i < j < init.len() ==> !(annotation(#[trigger] init[j]) matches Some(a)
                            && a.0 == key);
                assert(annotation(pieces[i]) == Some((key, annotations(pieces)[key])));
                assert forall|j: int| i < j < pieces.len() implies !(annotation(
                    #[trigger] pieces[j],
                ) matches Some(a) && a.0 == key) by {
                    if j < init.len() {
                        assert(pieces[j] == init[j]);
                    }
                }
            }
            if exists|i: int|
                0 <= i < pieces.len() && (annotation(#[trigger] pieces[i]) matches Some(a) && a.0
                    == key) {
                let i = choose|i: int|
                    0 <= i < pieces.len() && (annotation(#[trigger] pieces[i]) matches Some(a)
                        && a.0 == key);
                assert(i < init.len());
                assert(init[i] == pieces[i]);
            }
        }
    }
}

/// The annotations of the pods are those of the pieces between the commas.
pub proof fn law_pod_annotations_come_from_the_list(c: OperatorConfig, key: Seq<char>)
    ensures
        c.gateway_pod_annotations is None ==> !pod_annotations(c).dom().contains(key),
        c.gateway_pod_annotations matches Some(raw) ==> (pod_annotations(c).dom().contains(key)
            <==> exists|i: int|
            0 <= i < split_on(raw@, ',').len() && (annotation(
                #[trigger] split_on(raw@, ',')[i],
            ) matches Some(a) && a.0 == key)),
{
    if let Some(raw) = c.gateway_pod_annotations {
        law_last_annotation_counts(split_on(raw@, ','), key);
    }
}

} // verus!
