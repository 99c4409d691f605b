//! What serving one event after another does to a store that answers
//! truthfully: each request that a handler asks for is served by the store
//! model, and the handler is resumed with the model's reply.
use crate::adrasset::asset_name_of;
use crate::crontab::CronTabSpecView;
use crate::reconcile::{
    crontab_reconciliation, reconcile_next, ReconcileErrorView, ReconcileStepView, ReconcileView,
};
use crate::restapihttpserver::{
    accept_response, change_failed, change_next, change_start, change_succeeded, onvif_asset,
    query_next, query_reconciling, query_start, reject_response, with_instance_job,
    DeviceChangeResponseView, DeviceChangeView, DeviceQueryView, DeviceView,
    QueryDeviceResponseView,
};
use crate::store::{ResourceKey, StoreModel, StoreRequestView};
use crate::text::lowercase_of;
use vstd::prelude::*;

verus! {

/// The store requests that serving one event may take: a lookup and a write.
pub open spec fn requests_per_event() -> nat {
    2
}

/// The outcome of serving one event.
pub ghost struct Served<R> {
    /// The store afterwards.
    pub store: StoreModel,
    /// The requests that the store was sent, in order.
    pub requests: Seq<StoreRequestView>,
    /// The response; none where the requests that were allowed did not
    /// suffice.
    pub response: Option<R>,
}

/// Carries a reconciliation on from where it stands: `request` is served, and
/// so is each request that follows, up to `patience` of them.
pub open spec fn serve_reconcile(
    store: StoreModel,
    state: ReconcileView,
    request: StoreRequestView,
    patience: nat,
) -> Served<Result<(), ReconcileErrorView>>
    decreases patience,
{
    if patience == 0 {
        Served { store, requests: Seq::empty(), response: None }
    } else {
        match reconcile_next(state, store.answer(request)) {
            ReconcileStepView::Finished(outcome) => Served {
                store: store.after(request),
                requests: seq![request],
                response: Some(outcome),
            },
            ReconcileStepView::Call(next, following) => {
                let rest = serve_reconcile(
                    store.after(request),
                    next,
                    following,
                    (patience - 1) as nat,
                );
                Served { requests: seq![request] + rest.requests, ..rest }
            },
        }
    }
}

/// Serves a device query from where it stands, with at most `patience`
/// requests to the store.
pub open spec fn serve_query(
    store: StoreModel,
    query: DeviceQueryView,
    patience: nat,
) -> Served<QueryDeviceResponseView>
    decreases patience,
{
    match query {
        DeviceQueryView::Respond(body) => Served {
            store,
            requests: Seq::empty(),
            response: Some(body),
        },
        DeviceQueryView::Reconcile { pending, request } => {
            if patience == 0 {
                Served { store, requests: Seq::empty(), response: None }
            } else {
                let rest = serve_query(
                    store.after(request),
                    query_next(pending, store.answer(request)),
                    (patience - 1) as nat,
                );
                Served { requests: seq![request] + rest.requests, ..rest }
            }
        },
    }
}

/// Serves a device change from where it stands, with at most `patience`
/// requests to the store.
pub open spec fn serve_change(
    store: StoreModel,
    change: DeviceChangeView,
    patience: nat,
) -> Served<DeviceChangeResponseView>
    decreases patience,
{
    match change {
        DeviceChangeView::Respond(body) => Served {
            store,
            requests: Seq::empty(),
            response: Some(body),
        },
        DeviceChangeView::Reconcile { pending, request } => {
            if patience == 0 {
                Served { store, requests: Seq::empty(), response: None }
            } else {
                let rest = serve_change(
                    store.after(request),
                    change_next(pending, store.answer(request)),
                    (patience - 1) as nat,
                );
                Served { requests: seq![request] + rest.requests, ..rest }
            }
        },
    }
}

/// Reconciles the scheduled job `name` of `namespace` with what `job` asks
/// for.
pub open spec fn crontab_reconciled(
    store: StoreModel,
    job: CronTabSpecView,
    name: Seq<char>,
    namespace: Seq<char>,
) -> Served<Result<(), ReconcileErrorView>> {
    let (state, request) = crontab_reconciliation(job, name, namespace);
    serve_reconcile(store, state, request, requests_per_event())
}

/// The store after the scheduled job `name` of `namespace` was reconciled
/// `times` times in a row with what `job` asks for.
pub open spec fn crontab_reconciled_times(
    store: StoreModel,
    job: CronTabSpecView,
    name: Seq<char>,
    namespace: Seq<char>,
    times: nat,
) -> StoreModel
    decreases times,
{
    if times == 0 {
        store
    } else {
        crontab_reconciled(
            crontab_reconciled_times(store, job, name, namespace, (times - 1) as nat),
            job,
            name,
            namespace,
        ).store
    }
}

/// Serves the query for the device `device_id` of the protocol
/// `protocol_name`.
pub open spec fn query_event(
    store: StoreModel,
    protocol_name: Seq<char>,
    device_id: Seq<char>,
) -> Served<QueryDeviceResponseView> {
    serve_query(store, query_start(protocol_name, device_id), requests_per_event())
}

/// Serves the change of `device`.
pub open spec fn change_event(
    store: StoreModel,
    protocol_name: Seq<char>,
    reason: Seq<char>,
    device: DeviceView,
) -> Served<DeviceChangeResponseView> {
    serve_change(store, change_start(protocol_name, reason, device), requests_per_event())
}

/// Under which key the asset of the device `device_id` is kept.
pub open spec fn asset_key(device_id: Seq<char>) -> ResourceKey {
    ResourceKey {
        namespace: "azure-iot-operations"@,
        name: asset_name_of(lowercase_of(device_id)),
    }
}

/// Under which key the scheduled job of the `newcr-with-instance` device
/// `device_id` is kept.
pub open spec fn job_key(device_id: Seq<char>) -> ResourceKey {
    ResourceKey { namespace: "newcr-with-instance"@, name: lowercase_of(device_id) }
}

/// One reconciliation of a scheduled job, whatever its name: a job that is
/// not in the store is created under that name as it was asked for; a job
/// that is there, with room to grow, gets one more unit of capacity; a job
/// that has no room is left alone, and the reconciliation fails. Nothing else
/// in the store changes.
pub proof fn lemma_crontab_reconciled_once(
    store: StoreModel,
    job: CronTabSpecView,
    name: Seq<char>,
    namespace: Seq<char>,
)
    ensures
        ({
            let key = ResourceKey { namespace, name };
            let find = StoreRequestView::FindCronTab { name, namespace };
            let served = crontab_reconciled(store, job, name, namespace);
            &&& served.store.assets == store.assets
            &&& if !store.crontabs.dom().contains(key) {
                &&& served.response == Some(Ok::<(), ReconcileErrorView>(()))
                &&& served.requests == seq![
                    find,
                    StoreRequestView::CreateCronTab { job, name, namespace },
                ]
                &&& served.store.crontabs == store.crontabs.insert(key, job)
            } else if store.crontabs[key].has_room() {
                &&& served.response == Some(Ok::<(), ReconcileErrorView>(()))
                &&& served.requests == seq![
                    find,
                    StoreRequestView::UpdateCronTab {
                        job: store.crontabs[key].grown(),
                        name,
                        namespace,
                    },
                ]
                &&& served.store.crontabs == store.crontabs.insert(key, store.crontabs[key].grown())
            } else {
                &&& served.response == Some(
                    Err::<(), ReconcileErrorView>(ReconcileErrorView::CapacityFull),
                )
                &&& served.requests == seq![find]
                &&& served.store == store
            }
        }),
{
    reveal_with_fuel(serve_reconcile, 3);
    let key = ResourceKey { namespace, name };
    let find = StoreRequestView::FindCronTab { name, namespace };
    let served = crontab_reconciled(store, job, name, namespace);
    if !store.crontabs.dom().contains(key) {
        assert(served.requests =~= seq![
            find,
            StoreRequestView::CreateCronTab { job, name, namespace },
        ]);
    } else if store.crontabs[key].has_room() {
        assert(served.requests =~= seq![
            find,
            StoreRequestView::UpdateCronTab { job: store.crontabs[key].grown(), name, namespace },
        ]);
    } else {
        assert(served.requests =~= seq![find]);
    }
}

/// A scheduled job that was not in the store and has been reconciled a
/// number of times in a row is stored under the name it was reconciled by,
/// as it was asked for but with one more unit of capacity for each
/// reconciliation after the first. A job asked for with a capacity of one
/// then has the number of reconciliations as its capacity.
pub proof fn lemma_capacity_counts_reconciliations(
    store: StoreModel,
    job: CronTabSpecView,
    name: Seq<char>,
    namespace: Seq<char>,
    times: nat,
)
    requires
        !store.crontabs.dom().contains(ResourceKey { namespace, name }),
        times >= 1,
        job.capacity + times - 1 <= i32::MAX,
    ensures
        ({
            let key = ResourceKey { namespace, name };
            let after = crontab_reconciled_times(store, job, name, namespace, times);
            &&& after.crontabs.dom().contains(key)
            &&& after.crontabs[key] == (CronTabSpecView {
                capacity: job.capacity + times - 1,
                ..job
            })
            &&& after.crontabs.remove(key) == store.crontabs.remove(key)
            &&& after.assets == store.assets
        }),
    decreases times,
{
    let key = ResourceKey { namespace, name };
    let before = crontab_reconciled_times(store, job, name, namespace, (times - 1) as nat);
    let after = crontab_reconciled_times(store, job, name, namespace, times);
    assert(after == crontab_reconciled(before, job, name, namespace).store);
    lemma_crontab_reconciled_once(before, job, name, namespace);
    if times == 1 {
        assert(before == store);
    } else {
        lemma_capacity_counts_reconciliations(store, job, name, namespace, (times - 1) as nat);
    }
    assert(after.crontabs.remove(key) =~= store.crontabs.remove(key));
}

/// An ONVIF device that was added is provisioned by one asset, however often
/// its arrival is reported. The first report finds the asset or creates it,
/// with one create request; a replay of the report is answered with success
/// after a single lookup, and leaves the store as it is.
pub proof fn lemma_replayed_change_creates_nothing(store: StoreModel, device: DeviceView)
    ensures
        ({
            let key = asset_key(device.id);
            let find = StoreRequestView::FindAsset { name: key.name, namespace: key.namespace };
            let create = StoreRequestView::CreateAsset {
                asset: onvif_asset(),
                name: key.name,
                namespace: key.namespace,
            };
            let first = change_event(store, "onvif"@, "add"@, device);
            let second = change_event(first.store, "onvif"@, "add"@, device);
            &&& first.response == Some(change_succeeded(device))
            &&& first.store.assets.dom().contains(key)
            &&& first.store.crontabs == store.crontabs
            &&& if store.assets.dom().contains(key) {
                first.requests == seq![find] && first.store == store
            } else {
                first.requests == seq![find, create] && first.store.assets == store.assets.insert(
                    key,
                    onvif_asset(),
                )
            }
            &&& second.response == Some(change_succeeded(device))
            &&& second.requests == seq![find]
            &&& second.store == first.store
        }),
{
    reveal_with_fuel(serve_change, 3);
    let key = asset_key(device.id);
    let find = StoreRequestView::FindAsset { name: key.name, namespace: key.namespace };
    let create = StoreRequestView::CreateAsset {
        asset: onvif_asset(),
        name: key.name,
        namespace: key.namespace,
    };
    let first = change_event(store, "onvif"@, "add"@, device);
    let second = change_event(first.store, "onvif"@, "add"@, device);
    if store.assets.dom().contains(key) {
        assert(first.requests =~= seq![find]);
    } else {
        assert(first.requests =~= seq![find, create]);
    }
    assert(second.requests =~= seq![find]);
}

/// The query for a device whose identifier begins with `newcr-with-instance`
/// begins the reconciliation of that device's scheduled job: no earlier line
/// of the decision table takes such an identifier.
pub proof fn lemma_with_instance_query(device_id: Seq<char>)
    requires
        "newcr-with-instance"@.is_prefix_of(device_id),
    ensures
        query_start("debugEcho"@, device_id) == query_reconciling(
            with_instance_job(),
            device_id,
            "newcr-with-instance"@,
            true,
        ),
{
    reveal_strlit("newcr-with-instance");
    reveal_strlit("newcr-no-instance");
    reveal_strlit("provision-good");
    reveal_strlit("provision-bad");
    let head = device_id.subrange(0, "newcr-with-instance"@.len() as int);
    assert(head[0] == 'n' && head[6] == 'w');
    assert(device_id[0] == 'n' && device_id[6] == 'w');
    if "provision-good"@.is_prefix_of(device_id) {
        assert(device_id.subrange(0, "provision-good"@.len() as int)[0] == 'p');
    }
    if "provision-bad"@.is_prefix_of(device_id) {
        assert(device_id.subrange(0, "provision-bad"@.len() as int)[0] == 'p');
    }
    if "newcr-no-instance"@.is_prefix_of(device_id) {
        assert(device_id.subrange(0, "newcr-no-instance"@.len() as int)[6] == 'n');
    }
}

/// A `newcr-with-instance` device whose scheduled job is in the store, with
/// room to grow, is accepted, and the job's capacity grows by exactly one:
/// the job is looked up and updated, and nothing else in the store changes.
pub proof fn lemma_query_grows_capacity_by_one(store: StoreModel, device_id: Seq<char>)
    requires
        "newcr-with-instance"@.is_prefix_of(device_id),
        store.crontabs.dom().contains(job_key(device_id)),
        store.crontabs[job_key(device_id)].has_room(),
    ensures
        ({
            let key = job_key(device_id);
            let found = store.crontabs[key];
            let find = StoreRequestView::FindCronTab { name: key.name, namespace: key.namespace };
            let update = StoreRequestView::UpdateCronTab {
                job: found.grown(),
                name: key.name,
                namespace: key.namespace,
            };
            let served = query_event(store, "debugEcho"@, device_id);
            &&& served.response == Some(accept_response())
            &&& served.requests == seq![find, update]
            &&& served.store.crontabs == store.crontabs.insert(key, found.grown())
            &&& served.store.crontabs[key].capacity == found.capacity + 1
            &&& served.store.assets == store.assets
        }),
{
    reveal_with_fuel(serve_query, 3);
    lemma_with_instance_query(device_id);
    let key = job_key(device_id);
    let found = store.crontabs[key];
    let find = StoreRequestView::FindCronTab { name: key.name, namespace: key.namespace };
    let update = StoreRequestView::UpdateCronTab {
        job: found.grown(),
        name: key.name,
        namespace: key.namespace,
    };
    let served = query_event(store, "debugEcho"@, device_id);
    assert(served.requests =~= seq![find, update]);
}

/// A `newcr-with-instance` device whose scheduled job is in the store
/// without room to grow is rejected after the lookup: no update is sent, and
/// the store stays as it is.
pub proof fn lemma_query_leaves_full_job_alone(store: StoreModel, device_id: Seq<char>)
    requires
        "newcr-with-instance"@.is_prefix_of(device_id),
        store.crontabs.dom().contains(job_key(device_id)),
        !store.crontabs[job_key(device_id)].has_room(),
    ensures
        ({
            let key = job_key(device_id);
            let find = StoreRequestView::FindCronTab { name: key.name, namespace: key.namespace };
            let served = query_event(store, "debugEcho"@, device_id);
            &&& served.response == Some(reject_response())
            &&& served.requests == seq![find]
            &&& served.store == store
        }),
{
    reveal_with_fuel(serve_query, 3);
    lemma_with_instance_query(device_id);
    let key = job_key(device_id);
    let find = StoreRequestView::FindCronTab { name: key.name, namespace: key.namespace };
    let served = query_event(store, "debugEcho"@, device_id);
    assert(served.requests =~= seq![find]);
}

/// A `newcr-with-instance` device whose scheduled job is not in the store is
/// accepted, and the job is created with capacity one under the name by
/// which it was looked up.
pub proof fn lemma_query_creates_missing_job(store: StoreModel, device_id: Seq<char>)
    requires
        "newcr-with-instance"@.is_prefix_of(device_id),
        !store.crontabs.dom().contains(job_key(device_id)),
    ensures
        ({
            let key = job_key(device_id);
            let find = StoreRequestView::FindCronTab { name: key.name, namespace: key.namespace };
            let create = StoreRequestView::CreateCronTab {
                job: with_instance_job(),
                name: key.name,
                namespace: key.namespace,
            };
            let served = query_event(store, "debugEcho"@, device_id);
            &&& served.response == Some(accept_response())
            &&& served.requests == seq![find, create]
            &&& served.store.crontabs == store.crontabs.insert(key, with_instance_job())
            &&& served.store.assets == store.assets
        }),
{
    reveal_with_fuel(serve_query, 3);
    lemma_with_instance_query(device_id);
    let key = job_key(device_id);
    let find = StoreRequestView::FindCronTab { name: key.name, namespace: key.namespace };
    let create = StoreRequestView::CreateCronTab {
        job: with_instance_job(),
        name: key.name,
        namespace: key.namespace,
    };
    let served = query_event(store, "debugEcho"@, device_id);
    assert(served.requests =~= seq![find, create]);
}

/// Two queries in a row for one `newcr-with-instance` device, whatever its
/// identifier, whose scheduled job was not in the store before, are both
/// accepted and leave the job with a capacity of two.
pub proof fn lemma_second_query_counts_two(store: StoreModel, device_id: Seq<char>)
    requires
        "newcr-with-instance"@.is_prefix_of(device_id),
        !store.crontabs.dom().contains(job_key(device_id)),
    ensures
        ({
            let key = job_key(device_id);
            let first = query_event(store, "debugEcho"@, device_id);
            let second = query_event(first.store, "debugEcho"@, device_id);
            &&& first.response == Some(accept_response())
            &&& first.store.crontabs[key].capacity == 1
            &&& second.response == Some(accept_response())
            &&& second.store.crontabs.dom().contains(key)
            &&& second.store.crontabs[key] == (CronTabSpecView {
                capacity: 2,
                ..with_instance_job()
            })
            &&& second.store.crontabs.remove(key) == store.crontabs.remove(key)
            &&& second.store.assets == store.assets
        }),
{
    let key = job_key(device_id);
    lemma_query_creates_missing_job(store, device_id);
    let first = query_event(store, "debugEcho"@, device_id);
    lemma_query_grows_capacity_by_one(first.store, device_id);
    let second = query_event(first.store, "debugEcho"@, device_id);
    assert(second.store.crontabs.remove(key) =~= store.crontabs.remove(key));
}

/// Every device query is answered after at most two requests to the store.
/// It deletes no scheduled job and takes capacity from none: a job that is
/// in the store stays as it is or grows by one unit. It touches no asset.
pub proof fn lemma_query_never_shrinks_capacity(
    store: StoreModel,
    protocol_name: Seq<char>,
    device_id: Seq<char>,
)
    ensures
        ({
            let served = query_event(store, protocol_name, device_id);
            &&& served.response is Some
            &&& served.requests.len() <= requests_per_event()
            &&& served.store.assets == store.assets
            &&& forall|key: ResourceKey| #[trigger]
                store.crontabs.dom().contains(key) ==> {
                    &&& served.store.crontabs.dom().contains(key)
                    &&& served.store.crontabs[key] == store.crontabs[key]
                        || served.store.crontabs[key] == store.crontabs[key].grown()
                    &&& served.store.crontabs[key].capacity >= store.crontabs[key].capacity
                }
        }),
{
    reveal_with_fuel(serve_query, 3);
}

/// A `newcr-no-instance` device is rejected however the reconciliation of its
/// scheduled job ends.
pub proof fn lemma_no_instance_query_is_rejected(store: StoreModel, device_id: Seq<char>)
    requires
        "newcr-no-instance"@.is_prefix_of(device_id),
    ensures
        query_event(store, "debugEcho"@, device_id).response == Some(reject_response()),
{
    reveal_with_fuel(serve_query, 3);
    reveal_strlit("newcr-no-instance");
    reveal_strlit("provision-good");
    reveal_strlit("provision-bad");
    let head = device_id.subrange(0, "newcr-no-instance"@.len() as int);
    assert(head[0] == 'n');
    assert(device_id[0] == 'n');
    if "provision-good"@.is_prefix_of(device_id) {
        assert(device_id.subrange(0, "provision-good"@.len() as int)[0] == 'p');
    }
    if "provision-bad"@.is_prefix_of(device_id) {
        assert(device_id.subrange(0, "provision-bad"@.len() as int)[0] == 'p');
    }
}

/// A device change is answered after at most two requests to the store. It
/// never touches a scheduled job, and it leaves every asset that is in the
/// store as it is: an asset is created where there was none, and never
/// refreshed.
pub proof fn lemma_change_keeps_what_exists(
    store: StoreModel,
    protocol_name: Seq<char>,
    reason: Seq<char>,
    device: DeviceView,
)
    ensures
        ({
            let served = change_event(store, protocol_name, reason, device);
            &&& served.response is Some
            &&& served.requests.len() <= requests_per_event()
            &&& served.store.crontabs == store.crontabs
            &&& store.assets.submap_of(served.store.assets)
        }),
{
    reveal_with_fuel(serve_change, 3);
}

/// Only the arrival of an ONVIF device is acted on: a change of any other
/// protocol or for any other reason fails without a request to the store.
pub proof fn lemma_other_changes_fail(
    store: StoreModel,
    protocol_name: Seq<char>,
    reason: Seq<char>,
    device: DeviceView,
)
    requires
        protocol_name != "onvif"@ || reason != "add"@,
    ensures
        ({
            let served = change_event(store, protocol_name, reason, device);
            &&& served.response == Some(change_failed())
            &&& served.requests == Seq::<StoreRequestView>::empty()
            &&& served.store == store
        }),
{
    reveal_with_fuel(serve_change, 3);
}

} // verus!
