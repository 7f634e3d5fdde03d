//! Label keys of the objects the operator owns.
use vstd::prelude::*;

verus! {

/// What the object belongs to: `mcpg` for the children of a gateway,
/// `mcpg-operator` for the operator's own objects.
pub const APP_NAME: &'static str = "app.kubernetes.io/name";

/// The name of the parent resource.
pub const APP_INSTANCE: &'static str = "app.kubernetes.io/instance";

/// The role of the child: `gateway`, `plugin-secret`, `resolved-set`.
pub const APP_COMPONENT: &'static str = "app.kubernetes.io/component";

/// Always `mcpg`.
pub const APP_PART_OF: &'static str = "app.kubernetes.io/part-of";

/// Always `mcpg-operator`; pruning goes by it.
pub const APP_MANAGED_BY: &'static str = "app.kubernetes.io/managed-by";

/// The gateway's image tag at the last reconcile.
pub const APP_VERSION: &'static str = "app.kubernetes.io/version";

/// The parent gateway's name, on every child of a gateway.
pub const MCPG_GATEWAY: &'static str = "mcpg.dev/gateway";

/// The hash of the rendered config; a change of it rolls the pods.
pub const MCPG_CONFIG_HASH: &'static str = "mcpg.dev/config-hash";

} // verus!
