//! The role binding that lets the operator write Secrets in a tenant's
//! namespace.
use vstd::prelude::*;

use crate::api::objects::{
    child_meta, ObjectMeta, RoleBinding, RoleBindingView, RoleRef, Subject, SubjectView,
};
use crate::strmap::StringMap;
use crate::text::same;

verus! {

/// The ClusterRole that the binding grants.
pub const TENANT_SECRETS_CLUSTER_ROLE: &'static str = "mcpg-operator-tenant-secrets";

/// The name of the binding: one in each namespace.
pub const TENANT_SECRETS_BINDING_NAME: &'static str = "mcpg-operator-tenant-secrets";

/// The binding in a namespace. Nothing owns it: several plugin sets may need
/// it.
pub open spec fn tenant_binding(
    namespace: Seq<char>,
    operator_namespace: Seq<char>,
    service_account: Seq<char>,
) -> RoleBindingView {
    RoleBindingView {
        metadata: child_meta(
            "mcpg-operator-tenant-secrets"@,
            Some(namespace),
            Map::<Seq<char>, Seq<char>>::empty().insert(
                "app.kubernetes.io/managed-by"@,
                "mcpg-operator"@,
            ).insert("app.kubernetes.io/component"@, "tenant-rbac"@),
            None,
        ),
        role_api_group: "rbac.authorization.k8s.io"@,
        role_kind: "ClusterRole"@,
        role_name: "mcpg-operator-tenant-secrets"@,
        subjects: Some(
            seq![
                SubjectView {
                    api_group: Some(""@),
                    kind: "ServiceAccount"@,
                    name: service_account,
                    namespace: Some(operator_namespace),
                },
            ],
        ),
    }
}

/// Builds the binding in a namespace.
pub fn build_tenant_binding(
    namespace: &str,
    operator_namespace: &str,
    operator_service_account: &str,
) -> (r: RoleBinding)
    ensures
        r@ == tenant_binding(namespace@, operator_namespace@, operator_service_account@),
{
    let mut labels = StringMap::new();
    labels.insert("app.kubernetes.io/managed-by", "mcpg-operator");
    labels.insert("app.kubernetes.io/component", "tenant-rbac");
    let subject = Subject {
        api_group: Some("".to_owned()),
        kind: "ServiceAccount".to_owned(),
        name: operator_service_account.to_owned(),
        namespace: Some(operator_namespace.to_owned()),
    };
    let mut subjects: Vec<Subject> = Vec::new();
    subjects.push(subject);
    assert(subjects@.map_values(|s: Subject| s@) =~= seq![subject@]);
    RoleBinding {
        metadata: ObjectMeta::child(
            TENANT_SECRETS_BINDING_NAME,
            Some(namespace.to_owned()),
            labels,
            None,
        ),
        role_ref: RoleRef {
            api_group: "rbac.authorization.k8s.io".to_owned(),
            kind: "ClusterRole".to_owned(),
            name: TENANT_SECRETS_CLUSTER_ROLE.to_owned(),
        },
        subjects: Some(subjects),
    }
}

/// The binding to apply in a namespace. The operator's own namespace needs
/// none: its binding comes with the installation.
pub fn ensure_tenant_secret_binding(
    namespace: &str,
    operator_namespace: &str,
    operator_service_account: &str,
) -> (r: Option<RoleBinding>)
    ensures
        match r {
            Some(b) => namespace@ != operator_namespace@ && b@ == tenant_binding(
                namespace@,
                operator_namespace@,
                operator_service_account@,
            ),
            None => namespace@ == operator_namespace@,
        },
{
    if same(namespace, operator_namespace) {
        return None;
    }
    Some(build_tenant_binding(namespace, operator_namespace, operator_service_account))
}

} // verus!
