//! The service's HTTP surface without the transport: which handler a request
//! goes to, and what each handler decides.
//!
//! A handler never talks to the store or to the file system. Where it needs
//! one of them it says so in its result, and goes on when it is handed the
//! answer.
use crate::adrasset::{
    default_false, default_none_string, AssetSpec, AssetSpecView, DataPoint, DataPointView, Event,
    Status, StatusView,
};
use crate::credential::{
    get_credential_for_onvif_device, password_file_name, password_record, resolved,
    username_file_name, username_record, CredentialRecords,
};
use crate::crontab::{CronTabSpec, CronTabSpecView};
use crate::properties::PropertyMap;
use crate::reconcile::{
    asset_reconciliation, crontab_reconciliation, reconcile_next, reconcile_step,
    try_create_asset, try_create_crontab, Reconcile, ReconcileStep, ReconcileStepView,
    ReconcileView,
};
use crate::store::{StoreReply, StoreReplyView, StoreRequest, StoreRequestView};
use crate::text::{has_prefix, lowercase_of, same_text, to_lowercase};
use vstd::prelude::*;

verus! {

/// A host volume to mount into a container.
#[derive(Debug, Clone, Default)]
pub struct Mount {
    /// Path of the mount within the container.
    pub container_path: String,
    /// Path of the mount on the host.
    pub host_path: String,
    /// If set, the mount is read-only.
    pub read_only: bool,
}

/// The mathematical content of a [`Mount`].
pub ghost struct MountView {
    pub container_path: Seq<char>,
    pub host_path: Seq<char>,
    pub read_only: bool,
}

impl View for Mount {
    type V = MountView;

    open spec fn view(&self) -> MountView {
        MountView {
            container_path: self.container_path@,
            host_path: self.host_path@,
            read_only: self.read_only,
        }
    }
}

/// A host device to mount into a container.
#[derive(Debug, Clone, Default)]
pub struct DeviceSpec {
    /// Path of the device within the container.
    pub container_path: String,
    /// Path of the device on the host.
    pub host_path: String,
    /// Cgroups permissions of the device: one or more of `r`, `w` and `m`.
    pub permissions: String,
}

/// The mathematical content of a [`DeviceSpec`].
pub ghost struct DeviceSpecView {
    pub container_path: Seq<char>,
    pub host_path: Seq<char>,
    pub permissions: Seq<char>,
}

impl View for DeviceSpec {
    type V = DeviceSpecView;

    open spec fn view(&self) -> DeviceSpecView {
        DeviceSpecView {
            container_path: self.container_path@,
            host_path: self.host_path@,
            permissions: self.permissions@,
        }
    }
}

/// A device as a protocol adapter reports it.
#[derive(Debug, Clone)]
pub struct Device {
    pub id: String,
    /// Properties that identify the device, such as where to find it.
    pub properties: PropertyMap,
    /// Mounts for the containers that ask for this device.
    pub mounts: Vec<Mount>,
    /// Host devices for the containers that ask for this device.
    pub device_specs: Vec<DeviceSpec>,
}

/// The mathematical content of a [`Device`].
pub ghost struct DeviceView {
    pub id: Seq<char>,
    pub properties: Map<Seq<char>, Seq<char>>,
    pub mounts: Seq<MountView>,
    pub device_specs: Seq<DeviceSpecView>,
}

impl DeviceView {
    /// The device without identifier, properties, mounts or host devices.
    pub open spec fn empty() -> DeviceView {
        DeviceView {
            id: Seq::empty(),
            properties: Map::empty(),
            mounts: Seq::empty(),
            device_specs: Seq::empty(),
        }
    }
}

impl View for Device {
    type V = DeviceView;

    open spec fn view(&self) -> DeviceView {
        DeviceView {
            id: self.id@,
            properties: self.properties@,
            mounts: self.mounts@.map_values(|m: Mount| m@),
            device_specs: self.device_specs@.map_values(|s: DeviceSpec| s@),
        }
    }
}

impl Default for Device {
    fn default() -> (r: Self)
        ensures
            r@ == DeviceView::empty(),
    {
        let r = Device {
            id: String::new(),
            properties: PropertyMap::new(),
            mounts: Vec::new(),
            device_specs: Vec::new(),
        };
        assert(r.mounts@.map_values(|m: Mount| m@) =~= Seq::empty());
        assert(r.device_specs@.map_values(|s: DeviceSpec| s@) =~= Seq::empty());
        r
    }
}

/// The handler that a request goes to.
#[derive(Debug, Clone, Copy, PartialEq, Eq)]
pub enum Route {
    /// The liveness probe.
    HelloWorld,
    /// Whether a device is to be accepted.
    QueryDevice,
    /// The credentials of a device.
    QueryDeviceCredential,
    /// A device that was added or changed.
    DeviceChange,
    /// No handler.
    NotFound,
}

/// The handler that the request of `method` for `path` goes to.
pub open spec fn route_of(method: Seq<char>, path: Seq<char>) -> Route {
    if method == "GET"@ && path == "/api/v1/helloworld"@ {
        Route::HelloWorld
    } else if method == "POST"@ && path == "/queryDevice"@ {
        Route::QueryDevice
    } else if method == "POST"@ && path == "/queryDeviceCredential"@ {
        Route::QueryDeviceCredential
    } else if method == "POST"@ && path == "/deviceChange"@ {
        Route::DeviceChange
    } else {
        Route::NotFound
    }
}

/// The HTTP status of the response to a request that went to `route`.
pub open spec fn status_of(route: Route) -> u16 {
    if route == Route::NotFound {
        404
    } else {
        200
    }
}

/// Finds the handler for a request by its method and its path.
pub fn webservicerouter(method: &str, path: &str) -> (r: Route)
    ensures
        r == route_of(method@, path@),
{
    if same_text(method, "GET") && same_text(path, "/api/v1/helloworld") {
        Route::HelloWorld
    } else if same_text(method, "POST") && same_text(path, "/queryDevice") {
        Route::QueryDevice
    } else if same_text(method, "POST") && same_text(path, "/queryDeviceCredential") {
        Route::QueryDeviceCredential
    } else if same_text(method, "POST") && same_text(path, "/deviceChange") {
        Route::DeviceChange
    } else {
        Route::NotFound
    }
}

impl Route {
    /// The HTTP status of the response: 404 where there is no handler, 200
    /// whatever a handler decides.
    pub fn status(self) -> (r: u16)
        ensures
            r == status_of(self),
    {
        match self {
            Route::NotFound => 404,
            _ => 200,
        }
    }
}

/// Whether the service has a handler for the request of `method` for `path`.
pub open spec fn has_handler(method: Seq<char>, path: Seq<char>) -> bool {
    ||| method == "GET"@ && path == "/api/v1/helloworld"@
    ||| method == "POST"@ && path == "/queryDevice"@
    ||| method == "POST"@ && path == "/queryDeviceCredential"@
    ||| method == "POST"@ && path == "/deviceChange"@
}

/// Routing is total: a request for which the service has a handler goes to a
/// handler and is answered with status 200, every other request goes nowhere
/// and is answered with status 404.
pub proof fn lemma_routing_is_total(method: Seq<char>, path: Seq<char>)
    ensures
        has_handler(method, path) <==> route_of(method, path) != Route::NotFound,
        has_handler(method, path) ==> status_of(route_of(method, path)) == 200,
        !has_handler(method, path) ==> status_of(route_of(method, path)) == 404,
{
}

/// Each of the four requests that the service knows goes to a handler of its
/// own.
pub proof fn lemma_each_route_has_its_handler()
    ensures
        route_of("GET"@, "/api/v1/helloworld"@) == Route::HelloWorld,
        route_of("POST"@, "/queryDevice"@) == Route::QueryDevice,
        route_of("POST"@, "/queryDeviceCredential"@) == Route::QueryDeviceCredential,
        route_of("POST"@, "/deviceChange"@) == Route::DeviceChange,
{
    reveal_strlit("GET");
    reveal_strlit("POST");
    reveal_strlit("/api/v1/helloworld");
    reveal_strlit("/queryDevice");
    reveal_strlit("/queryDeviceCredential");
    reveal_strlit("/deviceChange");
    assert("GET"@.len() != "POST"@.len());
    assert("/queryDevice"@.len() != "/queryDeviceCredential"@.len());
    assert("/queryDevice"@[1] != "/deviceChange"@[1]);
    assert("/queryDeviceCredential"@.len() != "/deviceChange"@.len());
}

/// The body with which the liveness probe is answered.
pub fn gethelloworldwebservice() -> (r: String)
    ensures
        r@ == "Hello World"@,
{
    "Hello World".to_string()
}

/// The body of the answer to a request that no handler takes.
pub fn statusnotfoundwebservice() -> (r: String)
    ensures
        r@ == "404 Not Found"@,
{
    "404 Not Found".to_string()
}

/// The answer to a device query.
#[derive(Debug)]
pub struct QueryDeviceResponseBody {
    /// `accept` or `reject`.
    pub result: String,
    pub properties: PropertyMap,
}

/// The mathematical content of a [`QueryDeviceResponseBody`].
pub ghost struct QueryDeviceResponseView {
    pub result: Seq<char>,
    pub properties: Map<Seq<char>, Seq<char>>,
}

impl View for QueryDeviceResponseBody {
    type V = QueryDeviceResponseView;

    open spec fn view(&self) -> QueryDeviceResponseView {
        QueryDeviceResponseView { result: self.result@, properties: self.properties@ }
    }
}

/// The answer that accepts a device and tells nothing more.
pub open spec fn accept_response() -> QueryDeviceResponseView {
    QueryDeviceResponseView { result: "accept"@, properties: Map::empty() }
}

/// The answer that rejects a device.
pub open spec fn reject_response() -> QueryDeviceResponseView {
    QueryDeviceResponseView { result: "reject"@, properties: Map::empty() }
}

/// The answer that accepts a device and names it.
pub open spec fn provision_good_response(
    protocol_name: Seq<char>,
    device_id: Seq<char>,
) -> QueryDeviceResponseView {
    QueryDeviceResponseView {
        result: "accept"@,
        properties: Map::empty().insert("COMBINED_ID"@, protocol_name + "-"@ + device_id).insert(
            "EXTRA_INFO"@,
            "extra-info-"@ + device_id,
        ),
    }
}

/// A device query that waits for a reconciliation.
#[derive(Debug)]
pub struct PendingQuery {
    pub reconcile: Reconcile,
    /// Whether the device is accepted if the reconciliation succeeds. It is
    /// rejected if the reconciliation fails.
    pub accept_on_success: bool,
}

/// The mathematical content of a [`PendingQuery`].
pub ghost struct PendingQueryView {
    pub reconcile: ReconcileView,
    pub accept_on_success: bool,
}

impl View for PendingQuery {
    type V = PendingQueryView;

    open spec fn view(&self) -> PendingQueryView {
        PendingQueryView { reconcile: self.reconcile@, accept_on_success: self.accept_on_success }
    }
}

/// How far a device query has come.
#[derive(Debug)]
pub enum DeviceQuery {
    /// The query is answered.
    Respond(QueryDeviceResponseBody),
    /// The request is to be sent to the store, and the query resumed with the
    /// reply.
    Reconcile { pending: PendingQuery, request: StoreRequest },
}

/// The mathematical content of a [`DeviceQuery`].
pub ghost enum DeviceQueryView {
    Respond(QueryDeviceResponseView),
    Reconcile { pending: PendingQueryView, request: StoreRequestView },
}

impl View for DeviceQuery {
    type V = DeviceQueryView;

    open spec fn view(&self) -> DeviceQueryView {
        match self {
            DeviceQuery::Respond(body) => DeviceQueryView::Respond(body@),
            DeviceQuery::Reconcile { pending, request } => DeviceQueryView::Reconcile {
                pending: pending@,
                request: request@,
            },
        }
    }
}

/// The scheduled job that a `newcr-no-instance` device asks for.
pub open spec fn no_instance_job() -> CronTabSpecView {
    CronTabSpecView { cron_spec: "* * */3"@, image: "newcr-no-instance_cron_image"@, capacity: 1 }
}

/// The scheduled job that a `newcr-with-instance` device asks for.
pub open spec fn with_instance_job() -> CronTabSpecView {
    CronTabSpecView {
        cron_spec: "* * * */4"@,
        image: "newcr-with-instance_cron_image"@,
        capacity: 1,
    }
}

/// A device query that begins the reconciliation of `job` under the device's
/// lower-cased identifier.
pub open spec fn query_reconciling(
    job: CronTabSpecView,
    device_id: Seq<char>,
    namespace: Seq<char>,
    accept_on_success: bool,
) -> DeviceQueryView {
    let (reconcile, request) = crontab_reconciliation(job, lowercase_of(device_id), namespace);
    DeviceQueryView::Reconcile {
        pending: PendingQueryView { reconcile, accept_on_success },
        request,
    }
}

/// What the query for the device `device_id` of the protocol `protocol_name`
/// begins with. Only the test protocol `debugEcho` has devices accepted, and
/// there the beginning of the identifier decides.
pub open spec fn query_start(protocol_name: Seq<char>, device_id: Seq<char>) -> DeviceQueryView {
    if protocol_name != "debugEcho"@ {
        DeviceQueryView::Respond(reject_response())
    } else if "provision-good"@.is_prefix_of(device_id) {
        DeviceQueryView::Respond(provision_good_response(protocol_name, device_id))
    } else if "provision-bad"@.is_prefix_of(device_id) {
        DeviceQueryView::Respond(reject_response())
    } else if "newcr-no-instance"@.is_prefix_of(device_id) {
        query_reconciling(no_instance_job(), device_id, "newcr-no-instance"@, false)
    } else if "newcr-with-instance"@.is_prefix_of(device_id) {
        query_reconciling(with_instance_job(), device_id, "newcr-with-instance"@, true)
    } else {
        DeviceQueryView::Respond(accept_response())
    }
}

/// How a device query that waits for a reconciliation goes on after the
/// store's reply.
pub open spec fn query_next(pending: PendingQueryView, reply: StoreReplyView) -> DeviceQueryView {
    match reconcile_next(pending.reconcile, reply) {
        ReconcileStepView::Call(reconcile, request) => DeviceQueryView::Reconcile {
            pending: PendingQueryView { reconcile, ..pending },
            request,
        },
        ReconcileStepView::Finished(Ok(())) => DeviceQueryView::Respond(
            if pending.accept_on_success {
                accept_response()
            } else {
                reject_response()
            },
        ),
        ReconcileStepView::Finished(Err(_)) => DeviceQueryView::Respond(reject_response()),
    }
}

/// Accepts the device and names it in two properties.
pub fn get_provision_good_response(protocol_name: &str, device_id: &str) -> (r:
    QueryDeviceResponseBody)
    ensures
        r@ == provision_good_response(protocol_name@, device_id@),
{
    let mut properties = PropertyMap::new();
    properties.insert(
        "COMBINED_ID".to_string(),
        protocol_name.to_owned().concat("-").concat(device_id),
    );
    properties.insert("EXTRA_INFO".to_string(), "extra-info-".to_string().concat(device_id));
    QueryDeviceResponseBody { result: "accept".to_string(), properties }
}

impl QueryDeviceResponseBody {
    /// The answer that accepts a device and tells nothing more.
    pub fn accept() -> (r: QueryDeviceResponseBody)
        ensures
            r@ == accept_response(),
    {
        QueryDeviceResponseBody { result: "accept".to_string(), properties: PropertyMap::new() }
    }

    /// The answer that rejects a device.
    pub fn reject() -> (r: QueryDeviceResponseBody)
        ensures
            r@ == reject_response(),
    {
        QueryDeviceResponseBody { result: "reject".to_string(), properties: PropertyMap::new() }
    }
}

/// Rejects the device, whatever it is.
pub fn get_reject_response(_protocol_name: &str, _device_id: &str) -> (r: QueryDeviceResponseBody)
    ensures
        r@ == reject_response(),
{
    QueryDeviceResponseBody::reject()
}

/// Accepts the device, whatever it is.
pub fn get_accept_response(_protocol_name: &str, _device_id: &str) -> (r: QueryDeviceResponseBody)
    ensures
        r@ == accept_response(),
{
    QueryDeviceResponseBody::accept()
}

/// Begins the reconciliation of a scheduled job for a device that is rejected
/// however the reconciliation ends.
pub fn get_newcr_no_instance_response(_protocol_name: &str, device_id: &str) -> (r: DeviceQuery)
    ensures
        r@ == query_reconciling(no_instance_job(), device_id@, "newcr-no-instance"@, false),
{
    let crontab_spec = CronTabSpec {
        cron_spec: "* * */3".to_string(),
        image: "newcr-no-instance_cron_image".to_string(),
        capacity: 1,
    };
    let name = to_lowercase(device_id);
    let (reconcile, request) = try_create_crontab(crontab_spec, name.as_str(), "newcr-no-instance");
    DeviceQuery::Reconcile { pending: PendingQuery { reconcile, accept_on_success: false }, request }
}

/// Begins the reconciliation of a scheduled job for a device that is accepted
/// if the reconciliation succeeds.
pub fn get_newcr_with_instance_response(_protocol_name: &str, device_id: &str) -> (r: DeviceQuery)
    ensures
        r@ == query_reconciling(with_instance_job(), device_id@, "newcr-with-instance"@, true),
{
    let crontab_spec = CronTabSpec {
        cron_spec: "* * * */4".to_string(),
        image: "newcr-with-instance_cron_image".to_string(),
        capacity: 1,
    };
    let name = to_lowercase(device_id);
    let (reconcile, request) = try_create_crontab(
        crontab_spec,
        name.as_str(),
        "newcr-with-instance",
    );
    DeviceQuery::Reconcile { pending: PendingQuery { reconcile, accept_on_success: true }, request }
}

/// Decides the query for the device `device_id` of the protocol
/// `protocol_name`, as far as that can be done without the store.
pub fn handle_device_query(protocol_name: &str, device_id: &str) -> (r: DeviceQuery)
    ensures
        r@ == query_start(protocol_name@, device_id@),
{
    if !same_text(protocol_name, "debugEcho") {
        DeviceQuery::Respond(get_reject_response(protocol_name, device_id))
    } else if has_prefix(device_id, "provision-good") {
        DeviceQuery::Respond(get_provision_good_response(protocol_name, device_id))
    } else if has_prefix(device_id, "provision-bad") {
        DeviceQuery::Respond(get_reject_response(protocol_name, device_id))
    } else if has_prefix(device_id, "newcr-no-instance") {
        get_newcr_no_instance_response(protocol_name, device_id)
    } else if has_prefix(device_id, "newcr-with-instance") {
        get_newcr_with_instance_response(protocol_name, device_id)
    } else {
        DeviceQuery::Respond(get_accept_response(protocol_name, device_id))
    }
}

impl PendingQuery {
    /// Goes on with the query after the store's reply.
    pub fn resume(self, reply: StoreReply) -> (r: DeviceQuery)
        ensures
            r@ == query_next(self@, reply@),
    {
        let accept_on_success = self.accept_on_success;
        match reconcile_step(self.reconcile, reply) {
            ReconcileStep::Call(reconcile, request) => DeviceQuery::Reconcile {
                pending: PendingQuery { reconcile, accept_on_success },
                request,
            },
            ReconcileStep::Finished(Ok(())) => DeviceQuery::Respond(
                if accept_on_success {
                    QueryDeviceResponseBody::accept()
                } else {
                    QueryDeviceResponseBody::reject()
                },
            ),
            ReconcileStep::Finished(Err(_)) => DeviceQuery::Respond(
                QueryDeviceResponseBody::reject(),
            ),
        }
    }
}

/// What a credential query asks about.
#[derive(Debug, Clone, Default)]
pub struct QueryDeviceCredentialInput {
    pub id: String,
    pub properties: PropertyMap,
}

/// The mathematical content of a [`QueryDeviceCredentialInput`].
pub ghost struct QueryDeviceCredentialInputView {
    pub id: Seq<char>,
    pub properties: Map<Seq<char>, Seq<char>>,
}

impl View for QueryDeviceCredentialInput {
    type V = QueryDeviceCredentialInputView;

    open spec fn view(&self) -> QueryDeviceCredentialInputView {
        QueryDeviceCredentialInputView { id: self.id@, properties: self.properties@ }
    }
}

/// A credential query as it comes in.
#[derive(Debug, Clone)]
pub struct QueryDeviceCredentialRequestBody {
    pub protocol: String,
    pub data: QueryDeviceCredentialInput,
}

/// The mathematical content of a [`QueryDeviceCredentialRequestBody`].
pub ghost struct QueryDeviceCredentialRequestView {
    pub protocol: Seq<char>,
    pub data: QueryDeviceCredentialInputView,
}

impl QueryDeviceCredentialRequestView {
    /// The query without protocol and without device.
    pub open spec fn empty() -> QueryDeviceCredentialRequestView {
        QueryDeviceCredentialRequestView {
            protocol: Seq::empty(),
            data: QueryDeviceCredentialInputView { id: Seq::empty(), properties: Map::empty() },
        }
    }
}

impl View for QueryDeviceCredentialRequestBody {
    type V = QueryDeviceCredentialRequestView;

    open spec fn view(&self) -> QueryDeviceCredentialRequestView {
        QueryDeviceCredentialRequestView { protocol: self.protocol@, data: self.data@ }
    }
}

impl Default for QueryDeviceCredentialRequestBody {
    /// The query that stands for a body that could not be read.
    fn default() -> (r: Self)
        ensures
            r@ == QueryDeviceCredentialRequestView::empty(),
    {
        QueryDeviceCredentialRequestBody {
            protocol: String::new(),
            data: QueryDeviceCredentialInput { id: String::new(), properties: PropertyMap::new() },
        }
    }
}

/// The answer to a credential query.
#[derive(Debug)]
pub struct QueryDeviceCredentialResponseBody {
    /// `success` or `fail`.
    pub result: String,
    pub credential_type: String,
    pub credentials: PropertyMap,
}

/// The mathematical content of a [`QueryDeviceCredentialResponseBody`].
pub ghost struct QueryDeviceCredentialResponseView {
    pub result: Seq<char>,
    pub credential_type: Seq<char>,
    pub credentials: Map<Seq<char>, Seq<char>>,
}

impl View for QueryDeviceCredentialResponseBody {
    type V = QueryDeviceCredentialResponseView;

    open spec fn view(&self) -> QueryDeviceCredentialResponseView {
        QueryDeviceCredentialResponseView {
            result: self.result@,
            credential_type: self.credential_type@,
            credentials: self.credentials@,
        }
    }
}

/// The answer that there is no credential.
pub open spec fn no_credential() -> QueryDeviceCredentialResponseView {
    QueryDeviceCredentialResponseView {
        result: "fail"@,
        credential_type: Seq::empty(),
        credentials: Map::empty(),
    }
}

/// The answer that gives a user name and, where there is one, a password.
pub open spec fn username_password(
    username: Seq<char>,
    password: Option<Seq<char>>,
) -> QueryDeviceCredentialResponseView {
    let named = Map::empty().insert("username"@, username);
    QueryDeviceCredentialResponseView {
        result: "success"@,
        credential_type: "username-password"@,
        credentials: match password {
            Some(password) => named.insert("password"@, password),
            None => named,
        },
    }
}

/// The answer for an ONVIF device, given the credential that was resolved
/// for it.
pub open spec fn onvif_credential(
    credential: Option<(String, Option<String>)>,
) -> QueryDeviceCredentialResponseView {
    match credential {
        Some((username, Some(password))) => username_password(username@, Some(password@)),
        Some((username, None)) => username_password(username@, None),
        None => no_credential(),
    }
}

/// How far a credential query has come.
#[derive(Debug)]
pub enum CredentialQuery {
    /// The query is answered.
    Respond(QueryDeviceCredentialResponseBody),
    /// The two records are to be read from the credential directory, and the
    /// query resumed with what was found.
    Resolve { username_file: String, password_file: String },
}

/// The mathematical content of a [`CredentialQuery`].
pub ghost enum CredentialQueryView {
    Respond(QueryDeviceCredentialResponseView),
    Resolve { username_file: Seq<char>, password_file: Seq<char> },
}

impl View for CredentialQuery {
    type V = CredentialQueryView;

    open spec fn view(&self) -> CredentialQueryView {
        match self {
            CredentialQuery::Respond(body) => CredentialQueryView::Respond(body@),
            CredentialQuery::Resolve { username_file, password_file } => CredentialQueryView::Resolve {
                username_file: username_file@,
                password_file: password_file@,
            },
        }
    }
}

/// What the credential query for the device `device_id` of the protocol
/// `protocol_name` begins with. The test protocol knows one device; for an
/// ONVIF device the records decide; no other protocol has credentials.
pub open spec fn credential_start(
    protocol_name: Seq<char>,
    device_id: Seq<char>,
) -> CredentialQueryView {
    if protocol_name == "debugEcho"@ {
        CredentialQueryView::Respond(
            if device_id == "foo0"@ {
                username_password("debugEchoUser1"@, Some("debugEchoPassword1"@))
            } else {
                no_credential()
            },
        )
    } else if protocol_name == "onvif"@ {
        CredentialQueryView::Resolve {
            username_file: username_record(device_id),
            password_file: password_record(device_id),
        }
    } else {
        CredentialQueryView::Respond(no_credential())
    }
}

impl QueryDeviceCredentialResponseBody {
    /// The answer that there is no credential.
    pub fn fail() -> (r: QueryDeviceCredentialResponseBody)
        ensures
            r@ == no_credential(),
    {
        QueryDeviceCredentialResponseBody {
            result: "fail".to_string(),
            credential_type: String::new(),
            credentials: PropertyMap::new(),
        }
    }

    /// The answer that gives a user name and, where there is one, a password.
    pub fn success(username: String, password: Option<String>) -> (r:
        QueryDeviceCredentialResponseBody)
        ensures
            r@ == onvif_credential(Some((username, password))),
    {
        let mut credentials = PropertyMap::new();
        credentials.insert("username".to_string(), username);
        if let Some(password) = password {
            credentials.insert("password".to_string(), password);
        }
        QueryDeviceCredentialResponseBody {
            result: "success".to_string(),
            credential_type: "username-password".to_string(),
            credentials,
        }
    }
}

/// The answer for an ONVIF device, given the credential that was resolved
/// for it.
pub fn onvif_credential_response(credential: Option<(String, Option<String>)>) -> (r:
    QueryDeviceCredentialResponseBody)
    ensures
        r@ == onvif_credential(credential),
{
    match credential {
        Some((username, password)) => QueryDeviceCredentialResponseBody::success(
            username,
            password,
        ),
        None => QueryDeviceCredentialResponseBody::fail(),
    }
}

/// Decides the credential query for the device `device_id` of the protocol
/// `protocol_name`, as far as that can be done without the records.
pub fn handle_query_device_credential(protocol_name: &str, device_id: &str) -> (r: CredentialQuery)
    ensures
        r@ == credential_start(protocol_name@, device_id@),
{
    if same_text(protocol_name, "debugEcho") {
        if same_text(device_id, "foo0") {
            CredentialQuery::Respond(
                QueryDeviceCredentialResponseBody::success(
                    "debugEchoUser1".to_string(),
                    Some("debugEchoPassword1".to_string()),
                ),
            )
        } else {
            CredentialQuery::Respond(QueryDeviceCredentialResponseBody::fail())
        }
    } else if same_text(protocol_name, "onvif") {
        CredentialQuery::Resolve {
            username_file: username_file_name(device_id),
            password_file: password_file_name(device_id),
        }
    } else {
        CredentialQuery::Respond(QueryDeviceCredentialResponseBody::fail())
    }
}

/// Answers the credential query for an ONVIF device from what was found of
/// its records.
pub fn resume_query_device_credential(records: CredentialRecords) -> (r:
    QueryDeviceCredentialResponseBody)
    ensures
        r@ == onvif_credential(resolved(records)),
{
    onvif_credential_response(get_credential_for_onvif_device(records))
}

/// Decides a credential query that came in as a request body.
pub fn post_query_device_credential(request: &QueryDeviceCredentialRequestBody) -> (r:
    CredentialQuery)
    ensures
        r@ == credential_start(request@.protocol, request@.data.id),
{
    handle_query_device_credential(request.protocol.as_str(), request.data.id.as_str())
}

/// What a device change tells.
#[derive(Debug, Clone, Default)]
pub struct DeviceChangeInput {
    /// Why the change is reported; `add` for a device that appeared.
    pub reason: String,
    pub device: Device,
}

/// The mathematical content of a [`DeviceChangeInput`].
pub ghost struct DeviceChangeInputView {
    pub reason: Seq<char>,
    pub device: DeviceView,
}

impl View for DeviceChangeInput {
    type V = DeviceChangeInputView;

    open spec fn view(&self) -> DeviceChangeInputView {
        DeviceChangeInputView { reason: self.reason@, device: self.device@ }
    }
}

/// A device change as it comes in.
#[derive(Debug, Clone)]
pub struct DeviceChangeRequestBody {
    pub protocol: String,
    pub data: DeviceChangeInput,
}

/// The mathematical content of a [`DeviceChangeRequestBody`].
pub ghost struct DeviceChangeRequestView {
    pub protocol: Seq<char>,
    pub data: DeviceChangeInputView,
}

impl DeviceChangeRequestView {
    /// The change without protocol, without reason and of the empty device.
    pub open spec fn empty() -> DeviceChangeRequestView {
        DeviceChangeRequestView {
            protocol: Seq::empty(),
            data: DeviceChangeInputView { reason: Seq::empty(), device: DeviceView::empty() },
        }
    }
}

impl View for DeviceChangeRequestBody {
    type V = DeviceChangeRequestView;

    open spec fn view(&self) -> DeviceChangeRequestView {
        DeviceChangeRequestView { protocol: self.protocol@, data: self.data@ }
    }
}

impl Default for DeviceChangeRequestBody {
    /// The change that stands for a body that could not be read.
    fn default() -> (r: Self)
        ensures
            r@ == DeviceChangeRequestView::empty(),
    {
        DeviceChangeRequestBody {
            protocol: String::new(),
            data: DeviceChangeInput { reason: String::new(), device: Device::default() },
        }
    }
}

/// The answer to a device change.
#[derive(Debug)]
pub struct DeviceChangeResponseBody {
    /// `success` or `fail`.
    pub result: String,
    pub device: Device,
}

/// The mathematical content of a [`DeviceChangeResponseBody`].
pub ghost struct DeviceChangeResponseView {
    pub result: Seq<char>,
    pub device: DeviceView,
}

impl View for DeviceChangeResponseBody {
    type V = DeviceChangeResponseView;

    open spec fn view(&self) -> DeviceChangeResponseView {
        DeviceChangeResponseView { result: self.result@, device: self.device@ }
    }
}

/// The answer that the change was not acted on.
pub open spec fn change_failed() -> DeviceChangeResponseView {
    DeviceChangeResponseView { result: "fail"@, device: DeviceView::empty() }
}

/// The answer that the device was provisioned.
pub open spec fn change_succeeded(device: DeviceView) -> DeviceChangeResponseView {
    DeviceChangeResponseView { result: "success"@, device }
}

/// A device change that waits for a reconciliation.
#[derive(Debug)]
pub struct PendingChange {
    pub reconcile: Reconcile,
    /// The device that is given back if the reconciliation succeeds.
    pub device: Device,
}

/// The mathematical content of a [`PendingChange`].
pub ghost struct PendingChangeView {
    pub reconcile: ReconcileView,
    pub device: DeviceView,
}

impl View for PendingChange {
    type V = PendingChangeView;

    open spec fn view(&self) -> PendingChangeView {
        PendingChangeView { reconcile: self.reconcile@, device: self.device@ }
    }
}

/// How far a device change has come.
#[derive(Debug)]
pub enum DeviceChange {
    /// The change is answered.
    Respond(DeviceChangeResponseBody),
    /// The request is to be sent to the store, and the change resumed with
    /// the reply.
    Reconcile { pending: PendingChange, request: StoreRequest },
}

/// The mathematical content of a [`DeviceChange`].
pub ghost enum DeviceChangeView {
    Respond(DeviceChangeResponseView),
    Reconcile { pending: PendingChangeView, request: StoreRequestView },
}

impl View for DeviceChange {
    type V = DeviceChangeView;

    open spec fn view(&self) -> DeviceChangeView {
        match self {
            DeviceChange::Respond(body) => DeviceChangeView::Respond(body@),
            DeviceChange::Reconcile { pending, request } => DeviceChangeView::Reconcile {
                pending: pending@,
                request: request@,
            },
        }
    }
}

/// The data point that every ONVIF asset is created with.
pub open spec fn onvif_data_point() -> DataPointView {
    DataPointView {
        name: "data point name"@,
        data_source: "ns=3;s=FastUInt100"@,
        capability_id: "capability id"@,
        observability_mode: "none"@,
        data_point_configuration: "{}"@,
    }
}

/// The asset that is created for an ONVIF device: fixed names for display and
/// endpoint, one data point, and nothing else.
pub open spec fn onvif_asset() -> AssetSpecView {
    AssetSpecView {
        uuid: Seq::empty(),
        asset_type: Seq::empty(),
        enabled: false,
        external_asset_id: Seq::empty(),
        display_name: "onvif-device-display-name"@,
        description: Seq::empty(),
        asset_endpoint_profile_uri: "onvif-endpoint-profile-uri"@,
        version: 0,
        manufacturer: Seq::empty(),
        manufacturer_uri: Seq::empty(),
        model: Seq::empty(),
        product_code: Seq::empty(),
        hardware_revision: Seq::empty(),
        software_revision: Seq::empty(),
        documentation_uri: Seq::empty(),
        serial_number: Seq::empty(),
        attributes: Map::empty(),
        default_data_points_configuration: Seq::empty(),
        default_events_configuration: Seq::empty(),
        data_points: seq![onvif_data_point()],
        events: Seq::empty(),
        status: StatusView { errors: Seq::empty(), version: 0 },
    }
}

/// What the change of `device` for the given reason begins with, for a
/// device of the ONVIF protocol: a device that was added gets its asset
/// reconciled under its lower-cased identifier.
pub open spec fn onvif_change_start(reason: Seq<char>, device: DeviceView) -> DeviceChangeView {
    if reason == "add"@ {
        let (reconcile, request) = asset_reconciliation(
            onvif_asset(),
            lowercase_of(device.id),
            "azure-iot-operations"@,
        );
        DeviceChangeView::Reconcile { pending: PendingChangeView { reconcile, device }, request }
    } else {
        DeviceChangeView::Respond(change_failed())
    }
}

/// What the change of `device` begins with. Only ONVIF devices are acted on.
pub open spec fn change_start(
    protocol_name: Seq<char>,
    reason: Seq<char>,
    device: DeviceView,
) -> DeviceChangeView {
    if protocol_name == "onvif"@ {
        onvif_change_start(reason, device)
    } else {
        DeviceChangeView::Respond(change_failed())
    }
}

/// How a device change that waits for a reconciliation goes on after the
/// store's reply.
pub open spec fn change_next(pending: PendingChangeView, reply: StoreReplyView) -> DeviceChangeView {
    match reconcile_next(pending.reconcile, reply) {
        ReconcileStepView::Call(reconcile, request) => DeviceChangeView::Reconcile {
            pending: PendingChangeView { reconcile, ..pending },
            request,
        },
        ReconcileStepView::Finished(Ok(())) => DeviceChangeView::Respond(
            change_succeeded(pending.device),
        ),
        ReconcileStepView::Finished(Err(_)) => DeviceChangeView::Respond(change_failed()),
    }
}

impl DeviceChangeResponseBody {
    /// The answer that the change was not acted on.
    pub fn fail() -> (r: DeviceChangeResponseBody)
        ensures
            r@ == change_failed(),
    {
        DeviceChangeResponseBody { result: "fail".to_string(), device: Device::default() }
    }

    /// The answer that `device` was provisioned.
    pub fn success(device: Device) -> (r: DeviceChangeResponseBody)
        ensures
            r@ == change_succeeded(device@),
    {
        DeviceChangeResponseBody { result: "success".to_string(), device }
    }
}

/// The asset that is created for an ONVIF device.
pub fn onvif_asset_spec() -> (r: AssetSpec)
    ensures
        r@ == onvif_asset(),
{
    let data_point = DataPoint {
        name: "data point name".to_string(),
        data_source: "ns=3;s=FastUInt100".to_string(),
        capability_id: "capability id".to_string(),
        observability_mode: default_none_string(),
        data_point_configuration: "{}".to_string(),
    };
    let mut data_points: Vec<DataPoint> = Vec::new();
    data_points.push(data_point);
    let events: Vec<Event> = Vec::new();
    assert(data_points@.map_values(|p: DataPoint| p@) =~= seq![onvif_data_point()]);
    assert(events@.map_values(|e: Event| e@) =~= Seq::empty());
    AssetSpec {
        uuid: String::new(),
        asset_type: String::new(),
        enabled: default_false(),
        external_asset_id: String::new(),
        display_name: "onvif-device-display-name".to_string(),
        description: String::new(),
        asset_endpoint_profile_uri: "onvif-endpoint-profile-uri".to_string(),
        version: 0,
        manufacturer: String::new(),
        manufacturer_uri: String::new(),
        model: String::new(),
        product_code: String::new(),
        hardware_revision: String::new(),
        software_revision: String::new(),
        documentation_uri: String::new(),
        serial_number: String::new(),
        attributes: PropertyMap::new(),
        default_data_points_configuration: String::new(),
        default_events_configuration: String::new(),
        data_points,
        events,
        status: Status::default(),
    }
}

/// Decides the change of an ONVIF device, as far as that can be done without
/// the store.
pub fn handle_onvif_device_change(reason: &str, device: Device) -> (r: DeviceChange)
    ensures
        r@ == onvif_change_start(reason@, device@),
{
    if same_text(reason, "add") {
        let name = to_lowercase(device.id.as_str());
        let (reconcile, request) = try_create_asset(
            onvif_asset_spec(),
            name.as_str(),
            "azure-iot-operations",
        );
        DeviceChange::Reconcile { pending: PendingChange { reconcile, device }, request }
    } else {
        DeviceChange::Respond(DeviceChangeResponseBody::fail())
    }
}

/// Decides the change of a device of the protocol `protocol_name`, as far as
/// that can be done without the store.
pub fn handle_device_change(protocol_name: &str, reason: &str, device: Device) -> (r: DeviceChange)
    ensures
        r@ == change_start(protocol_name@, reason@, device@),
{
    if same_text(protocol_name, "onvif") {
        handle_onvif_device_change(reason, device)
    } else {
        DeviceChange::Respond(DeviceChangeResponseBody::fail())
    }
}

/// Decides a device change that came in as a request body.
pub fn post_device_change(request: DeviceChangeRequestBody) -> (r: DeviceChange)
    ensures
        r@ == change_start(request@.protocol, request@.data.reason, request@.data.device),
{
    handle_device_change(
        request.protocol.as_str(),
        request.data.reason.as_str(),
        request.data.device,
    )
}

impl PendingChange {
    /// Goes on with the change after the store's reply.
    pub fn resume(self, reply: StoreReply) -> (r: DeviceChange)
        ensures
            r@ == change_next(self@, reply@),
    {
        let device = self.device;
        match reconcile_step(self.reconcile, reply) {
            ReconcileStep::Call(reconcile, request) => DeviceChange::Reconcile {
                pending: PendingChange { reconcile, device },
                request,
            },
            ReconcileStep::Finished(Ok(())) => DeviceChange::Respond(
                DeviceChangeResponseBody::success(device),
            ),
            ReconcileStep::Finished(Err(_)) => DeviceChange::Respond(
                DeviceChangeResponseBody::fail(),
            ),
        }
    }
}

/// The string that a JSON text holds under `key` at its top level, as the
/// `serde_json` crate reads it; `None` where the text is no JSON object or
/// holds no string there.
pub uninterp spec fn json_string_member(body: Seq<char>, key: Seq<char>) -> Option<Seq<char>>;

/// The value of a field that a request may leave out: empty where it is
/// missing or no string.
pub open spec fn field_or_empty(body: Seq<char>, key: Seq<char>) -> Seq<char> {
    match json_string_member(body, key) {
        Some(value) => value,
        None => Seq::empty(),
    }
}

/// Reads `body` with `serde_json::from_str` and takes the member `key` with
/// `Value`'s index operator and `Value::as_str`. Believed, not proved: the
/// outcome depends on the two texts alone.
#[verifier::external_body]
fn json_member(body: &str, key: &str) -> (r: Option<String>)
    ensures
        match r {
            Some(value) => json_string_member(body@, key@) == Some(value@),
            None => json_string_member(body@, key@) is None,
        },
{
    let document: serde_json::Value = serde_json::from_str(body).unwrap_or_default();
    document[key].as_str().map(str::to_owned)
}

/// The value of a field that a request may leave out.
fn json_field_or_empty(body: &str, key: &str) -> (r: String)
    ensures
        r@ == field_or_empty(body@, key@),
{
    match json_member(body, key) {
        Some(value) => value,
        None => String::new(),
    }
}

/// Decides a device query that came in as a JSON text. A field that is missing
/// or no string counts as empty, and so does every field of a text that is no
/// JSON.
pub fn postquerydevicewebservice(body: &str) -> (r: DeviceQuery)
    ensures
        r@ == query_start(field_or_empty(body@, "protocol"@), field_or_empty(body@, "id"@)),
{
    let device_id = json_field_or_empty(body, "id");
    let protocol_name = json_field_or_empty(body, "protocol");
    handle_device_query(protocol_name.as_str(), device_id.as_str())
}

} // verus!
