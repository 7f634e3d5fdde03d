//! Applying the objects that the operator owns.
use vstd::prelude::*;

use crate::api::objects::ObjectMeta;
use crate::FIELD_MANAGER_PREFIX;

verus! {

/// Why an object could not be applied.
#[derive(Debug, Clone)]
pub enum ApplyError {
    /// The object has no name.
    Unnamed,
    /// The patch failed.
    Apply { name: String, detail: String },
}

/// The name under which an object is applied; an object without one cannot
/// be.
pub fn apply_owned(meta: &ObjectMeta) -> (r: Result<String, ApplyError>)
    ensures
        match r {
            Ok(n) => meta@.name == Some(n@),
            Err(e) => meta@.name is None && e is Unnamed,
        },
{
    match &meta.name {
        Some(n) => Ok(n.clone()),
        None => Err(ApplyError::Unnamed),
    }
}

/// The field manager of a controller.
pub fn field_manager(suffix: &str) -> (r: String)
    ensures
        r@ == "mcpg-operator"@ + "/"@ + suffix@,
{
    FIELD_MANAGER_PREFIX.to_owned().concat("/").concat(suffix)
}

} // verus!
