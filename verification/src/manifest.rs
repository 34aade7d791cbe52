//! Shared building blocks of the child-resource manifests: the common label
//! set, the owner reference that makes deletion cascade, value-preserving
//! copies of list fields, and the ConfigMap manifest.

use vstd::prelude::*;

use crate::config::{advertised_address, advertised_address_view, build_proxy_config,
    config_text_view};
use crate::crd::{name_view, KafkaPartitionRemapper, TolerationSpec};
use crate::error::Error;

verus! {

use vstd::string::StringExecFns;

/// The view of a key/value list: each entry by its contents.
pub open spec fn kv_view(l: Seq<(String, String)>) -> Seq<(Seq<char>, Seq<char>)> {
    l.map_values(|p: (String, String)| (p.0@, p.1@))
}

/// The view of a name list: each entry by its contents.
pub open spec fn str_list_view(l: Seq<String>) -> Seq<Seq<char>> {
    l.map_values(|s: String| s@)
}

/// The contents of an optional text field.
pub open spec fn opt_str_view(o: Option<String>) -> Option<Seq<char>> {
    match o {
        Some(s) => Some(s@),
        None => None,
    }
}

/// Copies a key/value list, preserving its entries exactly.
pub fn clone_kv_list(v: &Vec<(String, String)>) -> (r: Vec<(String, String)>)
    ensures
        r@ == v@,
{
    let mut r: Vec<(String, String)> = Vec::new();
    let mut i: usize = 0;
    proof {
        assert(r@ =~= v@.take(0));
    }
    while i < v.len()
        invariant
            i <= v@.len(),
            r@ == v@.take(i as int),
        decreases v@.len() - i,
    {
        r.push((v[i].0.clone(), v[i].1.clone()));
        proof {
            assert(r@ =~= v@.take(i as int + 1));
        }
        i = i + 1;
    }
    proof {
        assert(v@.take(v@.len() as int) =~= v@);
    }
    r
}

/// Copies a name list, preserving its entries exactly.
pub fn clone_str_list(v: &Vec<String>) -> (r: Vec<String>)
    ensures
        r@ == v@,
{
    let mut r: Vec<String> = Vec::new();
    let mut i: usize = 0;
    proof {
        assert(r@ =~= v@.take(0));
    }
    while i < v.len()
        invariant
            i <= v@.len(),
            r@ == v@.take(i as int),
        decreases v@.len() - i,
    {
        r.push(v[i].clone());
        proof {
            assert(r@ =~= v@.take(i as int + 1));
        }
        i = i + 1;
    }
    proof {
        assert(v@.take(v@.len() as int) =~= v@);
    }
    r
}

/// Copies a toleration, preserving every field exactly.
pub fn clone_toleration(t: &TolerationSpec) -> (r: TolerationSpec)
    ensures
        r == *t,
{
    TolerationSpec {
        key: crate::text::clone_opt_string(&t.key),
        operator: crate::text::clone_opt_string(&t.operator),
        value: crate::text::clone_opt_string(&t.value),
        effect: crate::text::clone_opt_string(&t.effect),
        toleration_seconds: t.toleration_seconds,
    }
}

/// Copies a toleration list, preserving its entries exactly.
pub fn clone_toleration_list(v: &Vec<TolerationSpec>) -> (r: Vec<TolerationSpec>)
    ensures
        r@ == v@,
{
    let mut r: Vec<TolerationSpec> = Vec::new();
    let mut i: usize = 0;
    proof {
        assert(r@ =~= v@.take(0));
    }
    while i < v.len()
        invariant
            i <= v@.len(),
            r@ == v@.take(i as int),
        decreases v@.len() - i,
    {
        r.push(clone_toleration(&v[i]));
        proof {
            assert(r@ =~= v@.take(i as int + 1));
        }
        i = i + 1;
    }
    proof {
        assert(v@.take(v@.len() as int) =~= v@);
    }
    r
}

/// An owner reference to the parent resource. Every child carries one, so
/// deleting the parent cascades through garbage collection; the operator
/// never deletes children itself.
#[derive(Clone, Debug)]
pub struct OwnerRef {
    pub api_version: String,
    pub kind: String,
    pub name: String,
    pub uid: String,
    pub controller: bool,
    pub block_owner_deletion: bool,
}

/// The contents of an owner reference.
pub struct OwnerRefView {
    pub api_version: Seq<char>,
    pub kind: Seq<char>,
    pub name: Seq<char>,
    pub uid: Seq<char>,
    pub controller: bool,
    pub block_owner_deletion: bool,
}

impl View for OwnerRef {
    type V = OwnerRefView;

    open spec fn view(&self) -> OwnerRefView {
        OwnerRefView {
            api_version: self.api_version@,
            kind: self.kind@,
            name: self.name@,
            uid: self.uid@,
            controller: self.controller,
            block_owner_deletion: self.block_owner_deletion,
        }
    }
}

/// The owner reference every child resource carries: the parent's API group
/// and kind, its name and unique id, marked as the controlling owner.
pub open spec fn owner_ref_view(name: Seq<char>, uid: Seq<char>) -> OwnerRefView {
    OwnerRefView {
        api_version: "kafka.oso.sh/v1alpha1"@,
        kind: "KafkaPartitionRemapper"@,
        name: name,
        uid: uid,
        controller: true,
        block_owner_deletion: true,
    }
}

/// Builds the owner reference to a parent resource.
pub fn build_owner_reference(remapper: &KafkaPartitionRemapper) -> (o: OwnerRef)
    ensures
        o@ == owner_ref_view(name_view(remapper.metadata.name), name_view(remapper.metadata.uid)),
{
    OwnerRef {
        api_version: "kafka.oso.sh/v1alpha1".to_owned(),
        kind: "KafkaPartitionRemapper".to_owned(),
        name: remapper.name_any(),
        uid: remapper.uid_any(),
        controller: true,
        block_owner_deletion: true,
    }
}

/// The common label set: the application name, the instance, and the
/// managing operator.
pub open spec fn labels_view(instance: Seq<char>) -> Seq<(Seq<char>, Seq<char>)> {
    seq![
        ("app.kubernetes.io/name"@, "kafka-partition-remapper"@),
        ("app.kubernetes.io/instance"@, instance),
        ("app.kubernetes.io/managed-by"@, "kafka-partition-remapper-operator"@),
    ]
}

/// Builds the common label set for an instance name.
pub fn build_labels(name: &String) -> (l: Vec<(String, String)>)
    ensures
        kv_view(l@) == labels_view(name@),
{
    let mut l: Vec<(String, String)> = Vec::new();
    l.push(("app.kubernetes.io/name".to_owned(), "kafka-partition-remapper".to_owned()));
    l.push(("app.kubernetes.io/instance".to_owned(), name.clone()));
    l.push((
        "app.kubernetes.io/managed-by".to_owned(),
        "kafka-partition-remapper-operator".to_owned(),
    ));
    proof {
        assert(kv_view(l@) =~= labels_view(name@));
    }
    l
}

/// The desired ConfigMap: named after the parent with a `-config` suffix,
/// holding the rendered proxy configuration under a single key.
#[derive(Clone, Debug)]
pub struct ConfigMapManifest {
    pub name: String,
    pub namespace: String,
    pub labels: Vec<(String, String)>,
    pub owner: OwnerRef,
    pub data_key: String,
    pub data_value: String,
}

/// The contents of a ConfigMap manifest.
pub struct ConfigMapManifestView {
    pub name: Seq<char>,
    pub namespace: Seq<char>,
    pub labels: Seq<(Seq<char>, Seq<char>)>,
    pub owner: OwnerRefView,
    pub data_key: Seq<char>,
    pub data_value: Seq<char>,
}

impl View for ConfigMapManifest {
    type V = ConfigMapManifestView;

    open spec fn view(&self) -> ConfigMapManifestView {
        ConfigMapManifestView {
            name: self.name@,
            namespace: self.namespace@,
            labels: kv_view(self.labels@),
            owner: self.owner@,
            data_key: self.data_key@,
            data_value: self.data_value@,
        }
    }
}

/// The ConfigMap's name: the parent's name with a `-config` suffix.
pub open spec fn config_map_name_view(name: Seq<char>) -> Seq<char> {
    name + "-config"@
}

/// Computes the ConfigMap's name for a parent name.
pub fn config_map_name(name: &String) -> (n: String)
    ensures
        n@ == config_map_name_view(name@),
{
    let mut n = name.clone();
    n.append("-config");
    n
}

/// The desired ConfigMap for a resource: the configuration text rendered for
/// the resource's advertised address, owned by the parent.
pub open spec fn config_map_view(r: KafkaPartitionRemapper) -> ConfigMapManifestView {
    let name = name_view(r.metadata.name);
    let ns = name_view(r.metadata.namespace);
    ConfigMapManifestView {
        name: config_map_name_view(name),
        namespace: ns,
        labels: labels_view(name),
        owner: owner_ref_view(name, name_view(r.metadata.uid)),
        data_key: "config.yaml"@,
        data_value: config_text_view(r.spec, advertised_address_view(r.spec, name, ns)),
    }
}

/// Builds the desired ConfigMap manifest for a resource.
pub fn build_config_map(remapper: &KafkaPartitionRemapper) -> (r: Result<ConfigMapManifest, Error>)
    ensures
        r matches Ok(m) && m@ == config_map_view(*remapper),
{
    let name = remapper.name_any();
    let namespace = remapper.namespace_any();
    let addr = advertised_address(&remapper.spec, &name, &namespace);
    let config_text = build_proxy_config(&remapper.spec, addr.as_str())?;
    Ok(ConfigMapManifest {
        name: config_map_name(&name),
        namespace,
        labels: build_labels(&name),
        owner: build_owner_reference(remapper),
        data_key: "config.yaml".to_owned(),
        data_value: config_text,
    })
}

/// Idempotency law for the ConfigMap builder: two builds from the same
/// resource yield structurally equal manifests — same name, same labels,
/// same owner reference, same configuration text.
pub proof fn lemma_config_map_build_idempotent(
    m1: ConfigMapManifest,
    m2: ConfigMapManifest,
    r: KafkaPartitionRemapper,
)
    requires
        m1@ == config_map_view(r),
        m2@ == config_map_view(r),
    ensures
        m1@ == m2@,
        m1@.labels == m2@.labels,
        m1@.owner == m2@.owner,
        m1@.data_value == m2@.data_value,
{
}

} // verus!
