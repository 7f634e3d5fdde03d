//! How the admission server listens, and what it serves.
use vstd::prelude::*;

use crate::text::{opt_text, texts};

verus! {

/// Where the server listens, and where its certificate is.
#[derive(Debug, Clone)]
pub struct ServerConfig {
    pub bind: String,
    pub tls_cert_dir: Option<String>,
}

/// Why the server stopped.
#[derive(Debug, Clone)]
pub enum ServerError {
    /// The certificate or its key is not in the directory.
    MissingTls(String),
    /// The certificate could not be loaded.
    Tls(String),
    /// The server failed.
    Server(String),
}

/// How the server listens.
#[derive(Debug)]
pub enum Listen {
    /// With TLS, from this certificate and key; webhooks are served.
    Tls { cert: String, key: String },
    /// In the clear; webhooks are not served, only metrics and health.
    Plain,
}

/// The paths of metrics and health.
pub open spec fn metrics_paths() -> Seq<Seq<char>> {
    seq!["/metrics"@, "/healthz"@, "/readyz"@, "/reconcilez"@]
}

/// The paths of the webhooks, one for each kind.
pub open spec fn webhook_paths() -> Seq<Seq<char>> {
    seq![
        "/validate-mcpg-dev-v1alpha1-mcpggateway"@,
        "/validate-mcpg-dev-v1alpha1-mcpgrevocationlist"@,
        "/validate-mcpg-dev-v1alpha1-mcpgplugin"@,
        "/validate-mcpg-dev-v1alpha1-mcpgpluginset"@,
        "/validate-mcpg-dev-v1alpha1-mcpgcluster"@,
        "/validate-mcpg-dev-v1alpha1-mcpgroute"@,
        "/validate-mcpg-dev-v1alpha1-mcpgpluginmirror"@,
        "/validate-mcpg-dev-v1alpha1-mcpgtenant"@,
        "/validate-mcpg-dev-v1alpha1-mcpgserver"@,
    ]
}

/// The paths that the admission server serves: in the clear only metrics and
/// health, and the webhooks too with TLS.
pub open spec fn served(l: Listen) -> Seq<Seq<char>> {
    match l {
        Listen::Plain => metrics_paths(),
        Listen::Tls { .. } => metrics_paths() + webhook_paths(),
    }
}

fn push_path(paths: &mut Vec<String>, path: &str)
    ensures
        texts(final(paths)@) == texts(old(paths)@).push(path@),
{
    let p = path.to_owned();
    assert(texts(paths@.push(p)) =~= texts(paths@).push(p@));
    paths.push(p);
}

/// The paths that the server of metrics and health serves.
pub fn metrics_routes() -> (r: Vec<String>)
    ensures
        texts(r@) == metrics_paths(),
{
    let mut paths: Vec<String> = Vec::new();
    assert(texts(paths@) =~= Seq::empty());
    push_path(&mut paths, "/metrics");
    push_path(&mut paths, "/healthz");
    push_path(&mut paths, "/readyz");
    push_path(&mut paths, "/reconcilez");
    assert(texts(paths@) =~= metrics_paths());
    paths
}

/// The paths that the admission server serves.
pub fn routes(l: &Listen) -> (r: Vec<String>)
    ensures
        texts(r@) == served(*l),
{
    let mut paths = metrics_routes();
    match l {
        Listen::Plain => {},
        Listen::Tls { .. } => {
            push_path(&mut paths, "/validate-mcpg-dev-v1alpha1-mcpggateway");
            push_path(&mut paths, "/validate-mcpg-dev-v1alpha1-mcpgrevocationlist");
            push_path(&mut paths, "/validate-mcpg-dev-v1alpha1-mcpgplugin");
            push_path(&mut paths, "/validate-mcpg-dev-v1alpha1-mcpgpluginset");
            push_path(&mut paths, "/validate-mcpg-dev-v1alpha1-mcpgcluster");
            push_path(&mut paths, "/validate-mcpg-dev-v1alpha1-mcpgroute");
            push_path(&mut paths, "/validate-mcpg-dev-v1alpha1-mcpgpluginmirror");
            push_path(&mut paths, "/validate-mcpg-dev-v1alpha1-mcpgtenant");
            push_path(&mut paths, "/validate-mcpg-dev-v1alpha1-mcpgserver");
            assert(texts(paths@) =~= metrics_paths() + webhook_paths());
        },
    }
    paths
}

/// A webhook is never served in the clear: where one of its paths is served,
/// the server listens with TLS.
pub proof fn law_webhooks_need_tls(l: Listen, path: Seq<char>)
    requires
        served(l).contains(path),
        webhook_paths().contains(path),
    ensures
        l is Tls,
{
    lemma_paths_differ();
    let w = webhook_paths();
    let m = metrics_paths();
    let i = choose|i: int| 0 <= i < w.len() && w[i] == path;
    if l is Plain {
        let j = choose|j: int| 0 <= j < m.len() && m[j] == path;
        assert(w[i][1] == 'v');
        assert(m[j][1] != 'v');
    }
}

/// The second character tells webhooks from metrics and health.
proof fn lemma_paths_differ()
    ensures
        forall|i: int|
            0 <= i < webhook_paths().len() ==> (#[trigger] webhook_paths()[i])[1] == 'v',
        forall|i: int|
            0 <= i < metrics_paths().len() ==> (#[trigger] metrics_paths()[i])[1] != 'v',
{
    reveal_strlit("/metrics");
    reveal_strlit("/healthz");
    reveal_strlit("/readyz");
    reveal_strlit("/reconcilez");
    reveal_strlit("/validate-mcpg-dev-v1alpha1-mcpggateway");
    reveal_strlit("/validate-mcpg-dev-v1alpha1-mcpgrevocationlist");
    reveal_strlit("/validate-mcpg-dev-v1alpha1-mcpgplugin");
    reveal_strlit("/validate-mcpg-dev-v1alpha1-mcpgpluginset");
    reveal_strlit("/validate-mcpg-dev-v1alpha1-mcpgcluster");
    reveal_strlit("/validate-mcpg-dev-v1alpha1-mcpgroute");
    reveal_strlit("/validate-mcpg-dev-v1alpha1-mcpgpluginmirror");
    reveal_strlit("/validate-mcpg-dev-v1alpha1-mcpgtenant");
    reveal_strlit("/validate-mcpg-dev-v1alpha1-mcpgserver");
}

/// How the server listens: with TLS when a certificate directory is
/// configured, which must then hold both files.
pub fn listen_plan(cfg: &ServerConfig, has_cert: bool, has_key: bool) -> (r: Result<
    Listen,
    ServerError,
>)
    ensures
        match opt_text(cfg.tls_cert_dir) {
            None => r matches Ok(Listen::Plain),
            Some(dir) => if has_cert && has_key {
                r matches Ok(Listen::Tls { cert, key }) && cert@ == dir + "/tls.crt"@ && key@ == dir
                    + "/tls.key"@
            } else {
                r matches Err(ServerError::MissingTls(d)) && d@ == dir
            },
        },
{
    match &cfg.tls_cert_dir {
        None => Ok(Listen::Plain),
        Some(dir) => {
            if !has_cert || !has_key {
                return Err(ServerError::MissingTls(dir.clone()));
            }
            Ok(
                Listen::Tls {
                    cert: dir.clone().concat("/tls.crt"),
                    key: dir.clone().concat("/tls.key"),
                },
            )
        },
    }
}

} // verus!
