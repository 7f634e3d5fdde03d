//! Patching the status of a resource.
use vstd::prelude::*;

use crate::json::{Json, JsonView};
use crate::reconcile::finalizers::{conflict, is_conflict};

verus! {

/// How long to wait before the one retry of a status patch, in
/// milliseconds.
pub const STATUS_RETRY_DELAY_MS: u64 = 100;

/// The body of a status patch: server-side apply needs the kind of the
/// object beside its status.
pub open spec fn status_body_view(
    api_version: Seq<char>,
    kind: Seq<char>,
    status: JsonView,
) -> JsonView {
    JsonView::Object(
        Map::<Seq<char>, JsonView>::empty().insert("apiVersion"@, JsonView::Str(api_version)).insert(
            "kind"@,
            JsonView::Str(kind),
        ).insert("status"@, status),
    )
}

/// The body of a status patch.
pub fn status_body(api_version: &str, kind: &str, status: Json) -> (r: Json)
    ensures
        r.view() == status_body_view(api_version@, kind@, status.view()),
{
    let mut o = Json::Object(Vec::new());
    o.set("apiVersion", Json::str(api_version));
    o.set("kind", Json::str(kind));
    o.set("status", status);
    o
}

/// Why a status could not be patched.
#[derive(Debug, Clone)]
pub enum StatusError {
    Patch { kind: String, name: String, detail: String },
}

/// How an attempt to patch a status failed: the code of the API's answer,
/// where there was one, and the message.
#[derive(Debug, Clone)]
pub struct PatchFailure {
    pub code: Option<u16>,
    pub detail: String,
}

/// What follows an attempt to patch a status that did not end in an error.
#[derive(Debug, Clone, Copy, PartialEq, Eq, Structural)]
pub enum StatusStep {
    Done,
    RetryAfterMs(u64),
}

/// What follows an attempt: a success ends the patch; a conflict on the
/// first attempt is retried once, after a short wait; anything else is an
/// error.
pub fn patch_status(kind: &str, name: &str, first: bool, failed: Option<PatchFailure>) -> (r:
    Result<StatusStep, StatusError>)
    ensures
        match failed {
            None => r matches Ok(StatusStep::Done),
            Some(f) => if first && conflict(f.code) {
                r matches Ok(StatusStep::RetryAfterMs(ms)) && ms == STATUS_RETRY_DELAY_MS
            } else {
                r matches Err(StatusError::Patch { kind: k, name: n, detail: d }) && k@ == kind@
                    && n@ == name@ && d@ == f.detail@
            },
        },
{
    match failed {
        None => Ok(StatusStep::Done),
        Some(f) => {
            if first && is_conflict(f.code) {
                Ok(StatusStep::RetryAfterMs(STATUS_RETRY_DELAY_MS))
            } else {
                Err(
                    StatusError::Patch {
                        kind: kind.to_owned(),
                        name: name.to_owned(),
                        detail: f.detail,
                    },
                )
            }
        },
    }
}

} // verus!
