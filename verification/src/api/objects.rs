//! Object metadata and the core Kubernetes objects the operator writes.
use vstd::prelude::*;

use crate::clock::Timestamp;
use crate::strmap::StringMap;
use crate::text;

verus! {

/// A reference to the object that owns another.
#[derive(Debug, Clone)]
pub struct OwnerReference {
    pub api_version: String,
    pub kind: String,
    pub name: String,
    pub uid: String,
    pub controller: bool,
    pub block_owner_deletion: bool,
}

/// What an owner reference says.
pub struct OwnerView {
    pub api_version: Seq<char>,
    pub kind: Seq<char>,
    pub name: Seq<char>,
    pub uid: Seq<char>,
    pub controller: bool,
    pub block_owner_deletion: bool,
}

impl View for OwnerReference {
    type V = OwnerView;

    open spec fn view(&self) -> OwnerView {
        OwnerView {
            api_version: self.api_version@,
            kind: self.kind@,
            name: self.name@,
            uid: self.uid@,
            controller: self.controller,
            block_owner_deletion: self.block_owner_deletion,
        }
    }
}

/// The controlling owner of the given kind.
pub open spec fn owner(kind: Seq<char>, name: Seq<char>, uid: Seq<char>) -> OwnerView {
    OwnerView {
        api_version: "mcpg.dev/v1alpha1"@,
        kind,
        name,
        uid,
        controller: true,
        block_owner_deletion: true,
    }
}

/// The controlling owner of the given kind.
pub fn owner_reference(kind: &str, name: &str, uid: &str) -> (r: OwnerReference)
    ensures
        r@ == owner(kind@, name@, uid@),
{
    OwnerReference {
        api_version: "mcpg.dev/v1alpha1".to_owned(),
        kind: kind.to_owned(),
        name: name.to_owned(),
        uid: uid.to_owned(),
        controller: true,
        block_owner_deletion: true,
    }
}

/// Object metadata.
#[derive(Debug, Clone)]
pub struct ObjectMeta {
    pub name: Option<String>,
    pub namespace: Option<String>,
    pub uid: Option<String>,
    pub generation: Option<i64>,
    pub resource_version: Option<String>,
    pub deletion_timestamp: Option<Timestamp>,
    pub finalizers: Option<Vec<String>>,
    pub labels: Option<StringMap>,
    pub owner_references: Option<Vec<OwnerReference>>,
}

/// What object metadata says.
#[verifier::ext_equal]
pub struct MetaView {
    pub name: Option<Seq<char>>,
    pub namespace: Option<Seq<char>>,
    pub uid: Option<Seq<char>>,
    pub generation: Option<i64>,
    pub resource_version: Option<Seq<char>>,
    pub deletion_timestamp: Option<Timestamp>,
    pub finalizers: Option<Seq<Seq<char>>>,
    pub labels: Option<Map<Seq<char>, Seq<char>>>,
    pub owner_references: Option<Seq<OwnerView>>,
}

impl View for ObjectMeta {
    type V = MetaView;

    open spec fn view(&self) -> MetaView {
        MetaView {
            name: text::opt_text(self.name),
            namespace: text::opt_text(self.namespace),
            uid: text::opt_text(self.uid),
            generation: self.generation,
            resource_version: text::opt_text(self.resource_version),
            deletion_timestamp: self.deletion_timestamp,
            finalizers: match self.finalizers {
                Some(f) => Some(text::texts(f@)),
                None => None,
            },
            labels: match self.labels {
                Some(l) => Some(l@),
                None => None,
            },
            owner_references: match self.owner_references {
                Some(o) => Some(o@.map_values(|r: OwnerReference| r@)),
                None => None,
            },
        }
    }
}

/// The metadata of an object that the operator writes: a name, perhaps a
/// namespace, labels, and perhaps an owner.
pub open spec fn child_meta(
    name: Seq<char>,
    namespace: Option<Seq<char>>,
    labels: Map<Seq<char>, Seq<char>>,
    owner: Option<OwnerView>,
) -> MetaView {
    MetaView {
        name: Some(name),
        namespace,
        uid: None,
        generation: None,
        resource_version: None,
        deletion_timestamp: None,
        finalizers: None,
        labels: Some(labels),
        owner_references: match owner {
            Some(o) => Some(seq![o]),
            None => None,
        },
    }
}

/// The view of an optional owner reference.
pub open spec fn opt_owner(o: Option<OwnerReference>) -> Option<OwnerView> {
    match o {
        Some(o) => Some(o@),
        None => None,
    }
}

impl Default for ObjectMeta {
    fn default() -> (r: ObjectMeta)
        ensures
            r.name is None,
            r.namespace is None,
            r.uid is None,
            r.generation is None,
            r.resource_version is None,
            r.deletion_timestamp is None,
            r.finalizers is None,
            r.labels is None,
            r.owner_references is None,
    {
        ObjectMeta {
            name: None,
            namespace: None,
            uid: None,
            generation: None,
            resource_version: None,
            deletion_timestamp: None,
            finalizers: None,
            labels: None,
            owner_references: None,
        }
    }
}

impl ObjectMeta {
    /// The metadata of an object that the operator writes.
    pub fn child(
        name: &str,
        namespace: Option<String>,
        labels: StringMap,
        owner: Option<OwnerReference>,
    ) -> (r: ObjectMeta)
        ensures
            r@ == child_meta(name@, text::opt_text(namespace), labels@, opt_owner(owner)),
    {
        let owner_references = match owner {
            Some(o) => {
                let mut v: Vec<OwnerReference> = Vec::new();
                v.push(o);
                proof {
                    assert(v@.map_values(|r: OwnerReference| r@) =~= seq![o@]);
                }
                Some(v)
            },
            None => None,
        };
        ObjectMeta {
            name: Some(name.to_owned()),
            namespace,
            uid: None,
            generation: None,
            resource_version: None,
            deletion_timestamp: None,
            finalizers: None,
            labels: Some(labels),
            owner_references,
        }
    }

    /// The name, or the empty string when there is none.
    pub fn name_or_empty(&self) -> (r: String)
        ensures
            r@ == or_empty(self@.name),
    {
        match &self.name {
            Some(n) => n.clone(),
            None => String::new(),
        }
    }

    /// The name, or `default` when there is none.
    pub fn name_or(&self, default: &str) -> (r: String)
        ensures
            r@ == or_text(self@.name, default@),
    {
        match &self.name {
            Some(n) => n.clone(),
            None => default.to_owned(),
        }
    }

    /// The unique id, or the empty string when there is none.
    pub fn uid_or_empty(&self) -> (r: String)
        ensures
            r@ == or_empty(self@.uid),
    {
        match &self.uid {
            Some(n) => n.clone(),
            None => String::new(),
        }
    }
}

/// An optional text, or the empty one.
pub open spec fn or_empty(o: Option<Seq<char>>) -> Seq<char> {
    match o {
        Some(s) => s,
        None => Seq::empty(),
    }
}

/// An optional text, or the given one.
pub open spec fn or_text(o: Option<Seq<char>>, default: Seq<char>) -> Seq<char> {
    match o {
        Some(s) => s,
        None => default,
    }
}

/// A map from names to bytes: the data of a Secret.
#[derive(Debug)]
pub struct ByteMap {
    pub entries: Vec<(String, Vec<u8>)>,
}

/// The mapping that a sequence of entries stands for; later entries replace
/// earlier ones with the same key.
pub open spec fn bytes_map(v: Seq<(String, Vec<u8>)>) -> Map<Seq<char>, Seq<u8>>
    decreases v.len(),
{
    if v.len() == 0 {
        Map::empty()
    } else {
        bytes_map(v.drop_last()).insert(v.last().0@, v.last().1@)
    }
}

impl View for ByteMap {
    type V = Map<Seq<char>, Seq<u8>>;

    open spec fn view(&self) -> Map<Seq<char>, Seq<u8>> {
        bytes_map(self.entries@)
    }
}

/// A byte vector with the same bytes.
pub fn clone_bytes(v: &Vec<u8>) -> (r: Vec<u8>)
    ensures
        r@ == v@,
{
    let mut out: Vec<u8> = Vec::new();
    let mut i: usize = 0;
    while i < v.len()
        invariant
            i <= v.len(),
            out@ == v@.take(i as int),
        decreases v.len() - i,
    {
        out.push(v[i]);
        i = i + 1;
        assert(v@.take(i as int) =~= v@.take(i - 1).push(v@[i - 1]));
    }
    assert(v@.take(i as int) =~= v@);
    out
}

impl ByteMap {
    /// The map without entries.
    pub fn new() -> (r: ByteMap)
        ensures
            r@ == Map::<Seq<char>, Seq<u8>>::empty(),
    {
        ByteMap { entries: Vec::new() }
    }

    /// Sets `key` to `value`.
    pub fn insert(&mut self, key: &str, value: Vec<u8>)
        ensures
            final(self)@ == old(self)@.insert(key@, value@),
    {
        self.entries.push((key.to_owned(), value));
        proof {
            assert(self.entries@.drop_last() =~= old(self).entries@);
        }
    }

    /// The position of the entry that counts for `key`.
    fn find(&self, key: &str) -> (r: Option<usize>)
        ensures
            match r {
                Some(i) => i < self.entries.len() && self@.dom().contains(key@) && self@[key@]
                    == self.entries@[i as int].1@,
                None => !self@.dom().contains(key@),
            },
    {
        let mut i: usize = self.entries.len();
        assert(self.entries@.take(i as int) =~= self.entries@);
        while i > 0
            invariant
                i <= self.entries.len(),
                self@.dom().contains(key@) == bytes_map(self.entries@.take(i as int)).dom().contains(
                    key@,
                ),
                self@.dom().contains(key@) ==> self@[key@] == bytes_map(
                    self.entries@.take(i as int),
                )[key@],
            decreases i,
        {
            proof {
                let s = self.entries@.take(i as int);
                assert(s.drop_last() =~= self.entries@.take(i - 1));
                assert(s.last() == self.entries@[i - 1]);
            }
            if text::same(self.entries[i - 1].0.as_str(), key) {
                return Some(i - 1);
            }
            i = i - 1;
        }
        None
    }

    /// The bytes under `key`.
    pub fn get(&self, key: &str) -> (r: Option<&Vec<u8>>)
        ensures
            match r {
                Some(v) => self@.dom().contains(key@) && self@[key@] == v@,
                None => !self@.dom().contains(key@),
            },
    {
        match self.find(key) {
            Some(i) => Some(&self.entries[i].1),
            None => None,
        }
    }
}

impl Clone for ByteMap {
    fn clone(&self) -> (r: ByteMap)
        ensures
            r@ == self@,
    {
        let mut out: Vec<(String, Vec<u8>)> = Vec::new();
        let mut i: usize = 0;
        assert(self.entries@.take(0) =~= Seq::empty());
        while i < self.entries.len()
            invariant
                i <= self.entries.len(),
                bytes_map(out@) == bytes_map(self.entries@.take(i as int)),
            decreases self.entries.len() - i,
        {
            let e = (self.entries[i].0.clone(), clone_bytes(&self.entries[i].1));
            proof {
                assert(self.entries@.take(i + 1).drop_last() =~= self.entries@.take(i as int));
                assert(out@.push(e).drop_last() =~= out@);
            }
            out.push(e);
            i = i + 1;
        }
        assert(self.entries@.take(i as int) =~= self.entries@);
        ByteMap { entries: out }
    }
}

/// A ConfigMap.
#[derive(Debug, Clone)]
pub struct ConfigMap {
    pub metadata: ObjectMeta,
    pub data: StringMap,
}

/// What a ConfigMap says.
pub struct ConfigMapView {
    pub metadata: MetaView,
    pub data: Map<Seq<char>, Seq<char>>,
}

impl View for ConfigMap {
    type V = ConfigMapView;

    open spec fn view(&self) -> ConfigMapView {
        ConfigMapView { metadata: self.metadata@, data: self.data@ }
    }
}

/// A Secret.
#[derive(Debug, Clone)]
pub struct Secret {
    pub metadata: ObjectMeta,
    pub type_: Option<String>,
    pub immutable: Option<bool>,
    pub data: Option<ByteMap>,
}

/// What a Secret says.
pub struct SecretView {
    pub metadata: MetaView,
    pub type_: Option<Seq<char>>,
    pub immutable: Option<bool>,
    pub data: Option<Map<Seq<char>, Seq<u8>>>,
}

/// What an optional byte map says.
pub open spec fn opt_bytes(o: Option<ByteMap>) -> Option<Map<Seq<char>, Seq<u8>>> {
    match o {
        Some(m) => Some(m@),
        None => None,
    }
}

impl View for Secret {
    type V = SecretView;

    open spec fn view(&self) -> SecretView {
        SecretView {
            metadata: self.metadata@,
            type_: text::opt_text(self.type_),
            immutable: self.immutable,
            data: opt_bytes(self.data),
        }
    }
}

/// The role a binding grants.
#[derive(Debug, Clone)]
pub struct RoleRef {
    pub api_group: String,
    pub kind: String,
    pub name: String,
}

/// Whom a binding grants a role to.
#[derive(Debug, Clone)]
pub struct Subject {
    pub api_group: Option<String>,
    pub kind: String,
    pub name: String,
    pub namespace: Option<String>,
}

/// A RoleBinding.
#[derive(Debug, Clone)]
pub struct RoleBinding {
    pub metadata: ObjectMeta,
    pub role_ref: RoleRef,
    pub subjects: Option<Vec<Subject>>,
}

/// What a subject says.
pub struct SubjectView {
    pub api_group: Option<Seq<char>>,
    pub kind: Seq<char>,
    pub name: Seq<char>,
    pub namespace: Option<Seq<char>>,
}

impl View for Subject {
    type V = SubjectView;

    open spec fn view(&self) -> SubjectView {
        SubjectView {
            api_group: text::opt_text(self.api_group),
            kind: self.kind@,
            name: self.name@,
            namespace: text::opt_text(self.namespace),
        }
    }
}

/// What a RoleBinding says.
pub struct RoleBindingView {
    pub metadata: MetaView,
    pub role_api_group: Seq<char>,
    pub role_kind: Seq<char>,
    pub role_name: Seq<char>,
    pub subjects: Option<Seq<SubjectView>>,
}

impl View for RoleBinding {
    type V = RoleBindingView;

    open spec fn view(&self) -> RoleBindingView {
        RoleBindingView {
            metadata: self.metadata@,
            role_api_group: self.role_ref.api_group@,
            role_kind: self.role_ref.kind@,
            role_name: self.role_ref.name@,
            subjects: match self.subjects {
                Some(v) => Some(v@.map_values(|s: Subject| s@)),
                None => None,
            },
        }
    }
}

/// A ResourceQuota: hard limits by resource name.
#[derive(Debug, Clone)]
pub struct ResourceQuota {
    pub metadata: ObjectMeta,
    pub hard: StringMap,
}

/// What a ResourceQuota says.
pub struct ResourceQuotaView {
    pub metadata: MetaView,
    pub hard: Map<Seq<char>, Seq<char>>,
}

impl View for ResourceQuota {
    type V = ResourceQuotaView;

    open spec fn view(&self) -> ResourceQuotaView {
        ResourceQuotaView { metadata: self.metadata@, hard: self.hard@ }
    }
}

} // verus!
