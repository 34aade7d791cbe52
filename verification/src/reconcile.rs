//! The reconcile state machine: one pass over a resource either applies the
//! declared state or cleans up before deletion, under a finalizer. The apply
//! path is strictly ordered — validate, then the ConfigMap, the Deployment,
//! the Service, and last the status — and any failure aborts the later
//! steps. This module decides; the surrounding runtime performs the API
//! calls, step by step, in the order the plan lists them.

use vstd::prelude::*;

use crate::crd::{name_view, KafkaPartitionRemapper};
use crate::deployment::{build_deployment, deployment_view, DeploymentManifest};
use crate::error::Error;
use crate::fingerprint::{calculate_config_hash, fingerprint_view};
use crate::manifest::{
    build_config_map, config_map_name, config_map_name_view, config_map_view, ConfigMapManifest,
};
use crate::service::{build_service, service_view, ServiceManifest};
use crate::validation::{spec_valid, validate, validation_error_view};

verus! {

/// The finalizer marker attached to managed objects; removed only after
/// cleanup completes, so deletion always gets a cleanup pass first.
pub fn finalizer_name() -> (r: &'static str)
    ensures
        r@ == "kafka.oso.sh/remapper-finalizer"@,
{
    "kafka.oso.sh/remapper-finalizer"
}

/// What the runtime should do after a reconcile pass.
#[derive(Clone, Copy, Debug, PartialEq, Eq, Structural)]
pub enum ReconcileAction {
    /// Come back after this many seconds.
    RequeueAfterSecs(u64),
    /// Wait for the next change to the resource.
    AwaitChange,
}

/// The two finalizer-governed events: apply the declared state, or clean up
/// before the object is removed.
#[derive(Clone, Copy, Debug, PartialEq, Eq, Structural)]
pub enum ReconcileEvent {
    Apply,
    Cleanup,
}

/// The fixed re-check interval after a successful apply, in seconds: status
/// converges even without a spec change.
pub open spec fn success_requeue_secs() -> u64 {
    30
}

/// The requeue delay for a failed pass, in seconds: API failures retry soon,
/// configuration and validation failures wait for the user, everything else
/// takes a middle course.
pub open spec fn requeue_delay_view(e: Error) -> u64 {
    match e {
        Error::KubeError(_) => 30,
        Error::ConfigError(_) => 300,
        Error::ValidationError(_) => 300,
        _ => 60,
    }
}

/// Maps a failure to its requeue action, implementing the tiered backoff.
pub fn error_policy(err: &Error) -> (a: ReconcileAction)
    ensures
        a == ReconcileAction::RequeueAfterSecs(requeue_delay_view(*err)),
{
    match err {
        Error::KubeError(_) => ReconcileAction::RequeueAfterSecs(30),
        Error::ConfigError(_) => ReconcileAction::RequeueAfterSecs(300),
        Error::ValidationError(_) => ReconcileAction::RequeueAfterSecs(300),
        _ => ReconcileAction::RequeueAfterSecs(60),
    }
}

/// Everything one apply pass will send to the cluster, in apply order: the
/// ConfigMap, then the Deployment (carrying the fingerprint), then the
/// Service; and the names under which the children and the status know them.
#[derive(Clone, Debug)]
pub struct ApplyPlan {
    pub config_map_name: String,
    pub deployment_name: String,
    pub service_name: String,
    pub config_hash: String,
    pub config_map: ConfigMapManifest,
    pub deployment: DeploymentManifest,
    pub service: ServiceManifest,
    pub requeue_secs: u64,
}

/// A plan is exactly what the builders produce for the resource: names
/// derived from the parent's, the fingerprint of the spec, and the three
/// manifests.
pub open spec fn apply_plan_ok(p: ApplyPlan, r: KafkaPartitionRemapper) -> bool {
    let name = name_view(r.metadata.name);
    &&& p.config_map_name@ == config_map_name_view(name)
    &&& p.deployment_name@ == name
    &&& p.service_name@ == name
    &&& p.config_hash@ == fingerprint_view(r.spec)
    &&& p.config_map@ == config_map_view(r)
    &&& p.deployment@ == deployment_view(r, config_map_name_view(name), fingerprint_view(r.spec))
    &&& p.service@ == service_view(r)
    &&& p.requeue_secs == success_requeue_secs()
}

/// Build the apply plan for a resource: validation first, so an invalid spec
/// never yields a plan and no partial child resources are produced; on
/// success, the three desired manifests and a fixed re-check interval.
pub fn build_apply_plan(remapper: &KafkaPartitionRemapper) -> (r: Result<ApplyPlan, Error>)
    ensures
        r is Ok <==> spec_valid(remapper.spec),
        r matches Ok(p) ==> apply_plan_ok(p, *remapper),
        !spec_valid(remapper.spec) ==> (r matches Err(Error::ValidationError(m)) && m@
            == validation_error_view(remapper.spec)),
{
    validate(remapper)?;

    let name = remapper.name_any();
    let config_map = build_config_map(remapper)?;
    let cm_name = config_map_name(&name);
    let config_hash = calculate_config_hash(&remapper.spec);
    let deployment = build_deployment(remapper, cm_name.as_str(), config_hash.as_str());
    let service = build_service(remapper);

    Ok(ApplyPlan {
        config_map_name: cm_name,
        deployment_name: name.clone(),
        service_name: name,
        config_hash,
        config_map,
        deployment,
        service,
        requeue_secs: 30,
    })
}

/// Idempotency law for the whole apply pass: two plans built from the same
/// resource are structurally equal — re-running apply with an unchanged spec
/// sends the cluster the same names, manifests and fingerprint again, so a
/// server-side apply produces no diff.
pub proof fn lemma_apply_plan_deterministic(p1: ApplyPlan, p2: ApplyPlan, r: KafkaPartitionRemapper)
    requires
        apply_plan_ok(p1, r),
        apply_plan_ok(p2, r),
    ensures
        p1.config_map_name@ == p2.config_map_name@,
        p1.deployment_name@ == p2.deployment_name@,
        p1.service_name@ == p2.service_name@,
        p1.config_hash@ == p2.config_hash@,
        p1.config_map@ == p2.config_map@,
        p1.deployment@ == p2.deployment@,
        p1.service@ == p2.service@,
        p1.requeue_secs == p2.requeue_secs,
{
}

/// What one reconcile pass decides: the plan to apply, if any, and when the
/// runtime should come back.
#[derive(Clone, Debug)]
pub struct ReconcileDecision {
    pub plan: Option<ApplyPlan>,
    pub action: ReconcileAction,
}

/// One step of the reconcile state machine. An apply event yields the apply
/// plan and a fixed re-check; a cleanup event yields no plan — children
/// vanish through ownership-based garbage collection, so cleanup only
/// releases the finalizer — and awaits the next change. An invalid spec
/// fails the pass with its validation error.
pub fn reconcile(remapper: &KafkaPartitionRemapper, event: ReconcileEvent) -> (r: Result<
    ReconcileDecision,
    Error,
>)
    ensures
        event is Cleanup ==> (r matches Ok(d) && d.plan is None && d.action
            == ReconcileAction::AwaitChange),
        (event is Apply && spec_valid(remapper.spec)) ==> (r matches Ok(d) && d.plan matches Some(
            p,
        ) && apply_plan_ok(p, *remapper) && d.action == ReconcileAction::RequeueAfterSecs(
            success_requeue_secs(),
        )),
        (event is Apply && !spec_valid(remapper.spec)) ==> (r matches Err(
            Error::ValidationError(m),
        ) && m@ == validation_error_view(remapper.spec)),
{
    match event {
        ReconcileEvent::Apply => {
            let plan = build_apply_plan(remapper)?;
            let secs = plan.requeue_secs;
            Ok(ReconcileDecision {
                plan: Some(plan),
                action: ReconcileAction::RequeueAfterSecs(secs),
            })
        },
        ReconcileEvent::Cleanup => Ok(ReconcileDecision {
            plan: None,
            action: ReconcileAction::AwaitChange,
        }),
    }
}

} // verus!
