//! Bringing the store in line with what a provisioning event asks for, one
//! request at a time.
//!
//! A reconciliation looks the resource up and then creates it where the lookup
//! found nothing; a scheduled job that is already there gets one more unit of
//! capacity, an asset that is already there is left alone. A lookup that fails
//! for whatever reason counts as "not there". A resource is created under the
//! name and namespace by which it was looked up. The caller sends each request
//! to the store and comes back with the reply.
use crate::adrasset::{asset_name_of, asset_resource_name, AssetSpec, AssetSpecView};
use crate::crontab::{CronTabSpec, CronTabSpecView};
use crate::store::{
    StoreError, StoreErrorView, StoreReply, StoreReplyView, StoreRequest, StoreRequestView,
};
use vstd::prelude::*;

verus! {

/// What a reconciliation waits for.
#[derive(Debug)]
pub enum Reconcile {
    /// The reply to the lookup of a scheduled job.
    CronTabLookup { job: CronTabSpec, name: String, namespace: String },
    /// The reply to the lookup of an asset.
    AssetLookup { asset: AssetSpec, name: String, namespace: String },
    /// The reply to a create or an update.
    Write,
}

/// The mathematical content of a [`Reconcile`].
pub ghost enum ReconcileView {
    CronTabLookup { job: CronTabSpecView, name: Seq<char>, namespace: Seq<char> },
    AssetLookup { asset: AssetSpecView, name: Seq<char>, namespace: Seq<char> },
    Write,
}

impl View for Reconcile {
    type V = ReconcileView;

    open spec fn view(&self) -> ReconcileView {
        match self {
            Reconcile::CronTabLookup { job, name, namespace } => ReconcileView::CronTabLookup {
                job: job@,
                name: name@,
                namespace: namespace@,
            },
            Reconcile::AssetLookup { asset, name, namespace } => ReconcileView::AssetLookup {
                asset: asset@,
                name: name@,
                namespace: namespace@,
            },
            Reconcile::Write => ReconcileView::Write,
        }
    }
}

/// Why a reconciliation failed.
#[derive(Debug, Clone)]
pub enum ReconcileError {
    /// The store failed the create or the update.
    Store(StoreError),
    /// The scheduled job that was found has the largest capacity there is; it
    /// was left as it is.
    CapacityFull,
}

/// The mathematical content of a [`ReconcileError`].
pub ghost enum ReconcileErrorView {
    Store(StoreErrorView),
    CapacityFull,
}

impl View for ReconcileError {
    type V = ReconcileErrorView;

    open spec fn view(&self) -> ReconcileErrorView {
        match self {
            ReconcileError::Store(error) => ReconcileErrorView::Store(error@),
            ReconcileError::CapacityFull => ReconcileErrorView::CapacityFull,
        }
    }
}

/// How a reconciliation goes on after a reply.
#[derive(Debug)]
pub enum ReconcileStep {
    /// Send the request, and come back in the given state with the reply.
    Call(Reconcile, StoreRequest),
    /// The reconciliation is over.
    Finished(Result<(), ReconcileError>),
}

/// The mathematical content of a [`ReconcileStep`].
pub ghost enum ReconcileStepView {
    Call(ReconcileView, StoreRequestView),
    Finished(Result<(), ReconcileErrorView>),
}

impl View for ReconcileStep {
    type V = ReconcileStepView;

    open spec fn view(&self) -> ReconcileStepView {
        match self {
            ReconcileStep::Call(state, request) => ReconcileStepView::Call(state@, request@),
            ReconcileStep::Finished(Ok(())) => ReconcileStepView::Finished(Ok(())),
            ReconcileStep::Finished(Err(error)) => ReconcileStepView::Finished(Err(error@)),
        }
    }
}

/// The state and the first request of a scheduled job's reconciliation.
pub open spec fn crontab_reconciliation(
    job: CronTabSpecView,
    name: Seq<char>,
    namespace: Seq<char>,
) -> (ReconcileView, StoreRequestView) {
    (
        ReconcileView::CronTabLookup { job, name, namespace },
        StoreRequestView::FindCronTab { name, namespace },
    )
}

/// The state and the first request of the reconciliation of the asset that
/// stands for the device `identifier`.
pub open spec fn asset_reconciliation(
    asset: AssetSpecView,
    identifier: Seq<char>,
    namespace: Seq<char>,
) -> (ReconcileView, StoreRequestView) {
    (
        ReconcileView::AssetLookup { asset, name: asset_name_of(identifier), namespace },
        StoreRequestView::FindAsset { name: asset_name_of(identifier), namespace },
    )
}

/// How a reconciliation in `state` goes on after `reply`.
///
/// A scheduled job that was found is updated with one more unit of capacity;
/// one that has no room for it is left alone, and the reconciliation fails.
/// After any other reply to its lookup the job is created as it was asked
/// for, under the name and namespace of the lookup. An asset that was found
/// ends the reconciliation; after any other reply it is created. The reply to
/// a create or an update decides the outcome.
pub open spec fn reconcile_next(state: ReconcileView, reply: StoreReplyView) -> ReconcileStepView {
    match state {
        ReconcileView::CronTabLookup { job, name, namespace } => match reply {
            StoreReplyView::CronTab(found) => if found.has_room() {
                ReconcileStepView::Call(
                    ReconcileView::Write,
                    StoreRequestView::UpdateCronTab { job: found.grown(), name, namespace },
                )
            } else {
                ReconcileStepView::Finished(Err(ReconcileErrorView::CapacityFull))
            },
            _ => ReconcileStepView::Call(
                ReconcileView::Write,
                StoreRequestView::CreateCronTab { job, name, namespace },
            ),
        },
        ReconcileView::AssetLookup { asset, name, namespace } => match reply {
            StoreReplyView::Asset(_) => ReconcileStepView::Finished(Ok(())),
            _ => ReconcileStepView::Call(
                ReconcileView::Write,
                StoreRequestView::CreateAsset { asset, name, namespace },
            ),
        },
        ReconcileView::Write => match reply {
            StoreReplyView::Failed(error) => ReconcileStepView::Finished(
                Err(ReconcileErrorView::Store(error)),
            ),
            _ => ReconcileStepView::Finished(Ok(())),
        },
    }
}

/// Begins the reconciliation of the scheduled job `name`: the job is looked up.
pub fn try_create_crontab(crontab_spec: CronTabSpec, name: &str, namespace: &str) -> (r: (
    Reconcile,
    StoreRequest,
))
    ensures
        (r.0@, r.1@) == crontab_reconciliation(crontab_spec@, name@, namespace@),
{
    (
        Reconcile::CronTabLookup {
            job: crontab_spec,
            name: name.to_owned(),
            namespace: namespace.to_owned(),
        },
        StoreRequest::FindCronTab { name: name.to_owned(), namespace: namespace.to_owned() },
    )
}

/// Begins the reconciliation of the asset that stands for the device `name`:
/// the asset is looked up under the name made of the device's fingerprint.
pub fn try_create_asset(asset_spec: AssetSpec, name: &str, namespace: &str) -> (r: (
    Reconcile,
    StoreRequest,
))
    ensures
        (r.0@, r.1@) == asset_reconciliation(asset_spec@, name@, namespace@),
{
    let name = asset_resource_name(name);
    (
        Reconcile::AssetLookup {
            asset: asset_spec,
            name: name.clone(),
            namespace: namespace.to_owned(),
        },
        StoreRequest::FindAsset { name, namespace: namespace.to_owned() },
    )
}

/// Goes on with a reconciliation after the store's reply.
pub fn reconcile_step(state: Reconcile, reply: StoreReply) -> (step: ReconcileStep)
    ensures
        step@ == reconcile_next(state@, reply@),
{
    match state {
        Reconcile::CronTabLookup { job, name, namespace } => match reply {
            StoreReply::CronTab(found) => {
                if found.capacity < i32::MAX {
                    let job = CronTabSpec {
                        cron_spec: found.cron_spec,
                        image: found.image,
                        capacity: found.capacity + 1,
                    };
                    ReconcileStep::Call(
                        Reconcile::Write,
                        StoreRequest::UpdateCronTab { job, name, namespace },
                    )
                } else {
                    ReconcileStep::Finished(Err(ReconcileError::CapacityFull))
                }
            },
            _ => ReconcileStep::Call(
                Reconcile::Write,
                StoreRequest::CreateCronTab { job, name, namespace },
            ),
        },
        Reconcile::AssetLookup { asset, name, namespace } => match reply {
            StoreReply::Asset(_) => ReconcileStep::Finished(Ok(())),
            _ => ReconcileStep::Call(
                Reconcile::Write,
                StoreRequest::CreateAsset { asset, name, namespace },
            ),
        },
        Reconcile::Write => match reply {
            StoreReply::Failed(error) => ReconcileStep::Finished(Err(ReconcileError::Store(error))),
            _ => ReconcileStep::Finished(Ok(())),
        },
    }
}

} // verus!
