//! The asset resource: what is recorded of a discovered device, its data
//! points and its events.
use crate::digest::{digest_of, generate_digest};
use crate::properties::PropertyMap;
use vstd::prelude::*;

verus! {

/// One value that an asset offers for reading.
#[derive(Debug, Clone, PartialEq)]
pub struct DataPoint {
    pub name: String,
    pub data_source: String,
    pub capability_id: String,
    pub observability_mode: String,
    pub data_point_configuration: String,
}

/// The mathematical content of a [`DataPoint`].
pub ghost struct DataPointView {
    pub name: Seq<char>,
    pub data_source: Seq<char>,
    pub capability_id: Seq<char>,
    pub observability_mode: Seq<char>,
    pub data_point_configuration: Seq<char>,
}

impl View for DataPoint {
    type V = DataPointView;

    open spec fn view(&self) -> DataPointView {
        DataPointView {
            name: self.name@,
            data_source: self.data_source@,
            capability_id: self.capability_id@,
            observability_mode: self.observability_mode@,
            data_point_configuration: self.data_point_configuration@,
        }
    }
}

/// One notification that an asset can raise.
#[derive(Debug, Clone, PartialEq)]
pub struct Event {
    pub name: String,
    pub event_notifier: String,
    pub capability_id: String,
    pub observability_mode: String,
    pub event_configuration: String,
}

/// The mathematical content of an [`Event`].
pub ghost struct EventView {
    pub name: Seq<char>,
    pub event_notifier: Seq<char>,
    pub capability_id: Seq<char>,
    pub observability_mode: Seq<char>,
    pub event_configuration: Seq<char>,
}

impl View for Event {
    type V = EventView;

    open spec fn view(&self) -> EventView {
        EventView {
            name: self.name@,
            event_notifier: self.event_notifier@,
            capability_id: self.capability_id@,
            observability_mode: self.observability_mode@,
            event_configuration: self.event_configuration@,
        }
    }
}

/// One error that the store reports of an asset.
#[derive(Debug, Clone, PartialEq)]
pub struct StatusError {
    pub code: i32,
    pub message: String,
}

/// The mathematical content of a [`StatusError`].
pub ghost struct StatusErrorView {
    pub code: int,
    pub message: Seq<char>,
}

impl View for StatusError {
    type V = StatusErrorView;

    open spec fn view(&self) -> StatusErrorView {
        StatusErrorView { code: self.code as int, message: self.message@ }
    }
}

/// The state that the store reports of an asset.
#[derive(Debug, Clone, PartialEq)]
pub struct Status {
    pub errors: Vec<StatusError>,
    pub version: i32,
}

/// The mathematical content of a [`Status`].
pub ghost struct StatusView {
    pub errors: Seq<StatusErrorView>,
    pub version: int,
}

impl View for Status {
    type V = StatusView;

    open spec fn view(&self) -> StatusView {
        StatusView {
            errors: self.errors@.map_values(|e: StatusError| e@),
            version: self.version as int,
        }
    }
}

impl Default for Status {
    /// No errors, version zero.
    fn default() -> (r: Self)
        ensures
            r@ == (StatusView { errors: Seq::empty(), version: 0 }),
    {
        let r = Status { errors: Vec::new(), version: 0 };
        assert(r.errors@.map_values(|e: StatusError| e@) =~= Seq::empty());
        r
    }
}

/// What is recorded of an asset.
#[derive(Debug, Clone)]
pub struct AssetSpec {
    pub uuid: String,
    pub asset_type: String,
    pub enabled: bool,
    pub external_asset_id: String,
    pub display_name: String,
    pub description: String,
    pub asset_endpoint_profile_uri: String,
    pub version: i32,
    pub manufacturer: String,
    pub manufacturer_uri: String,
    pub model: String,
    pub product_code: String,
    pub hardware_revision: String,
    pub software_revision: String,
    pub documentation_uri: String,
    pub serial_number: String,
    pub attributes: PropertyMap,
    pub default_data_points_configuration: String,
    pub default_events_configuration: String,
    pub data_points: Vec<DataPoint>,
    pub events: Vec<Event>,
    pub status: Status,
}

/// The mathematical content of an [`AssetSpec`].
pub ghost struct AssetSpecView {
    pub uuid: Seq<char>,
    pub asset_type: Seq<char>,
    pub enabled: bool,
    pub external_asset_id: Seq<char>,
    pub display_name: Seq<char>,
    pub description: Seq<char>,
    pub asset_endpoint_profile_uri: Seq<char>,
    pub version: int,
    pub manufacturer: Seq<char>,
    pub manufacturer_uri: Seq<char>,
    pub model: Seq<char>,
    pub product_code: Seq<char>,
    pub hardware_revision: Seq<char>,
    pub software_revision: Seq<char>,
    pub documentation_uri: Seq<char>,
    pub serial_number: Seq<char>,
    pub attributes: Map<Seq<char>, Seq<char>>,
    pub default_data_points_configuration: Seq<char>,
    pub default_events_configuration: Seq<char>,
    pub data_points: Seq<DataPointView>,
    pub events: Seq<EventView>,
    pub status: StatusView,
}

impl View for AssetSpec {
    type V = AssetSpecView;

    open spec fn view(&self) -> AssetSpecView {
        AssetSpecView {
            uuid: self.uuid@,
            asset_type: self.asset_type@,
            enabled: self.enabled,
            external_asset_id: self.external_asset_id@,
            display_name: self.display_name@,
            description: self.description@,
            asset_endpoint_profile_uri: self.asset_endpoint_profile_uri@,
            version: self.version as int,
            manufacturer: self.manufacturer@,
            manufacturer_uri: self.manufacturer_uri@,
            model: self.model@,
            product_code: self.product_code@,
            hardware_revision: self.hardware_revision@,
            software_revision: self.software_revision@,
            documentation_uri: self.documentation_uri@,
            serial_number: self.serial_number@,
            attributes: self.attributes@,
            default_data_points_configuration: self.default_data_points_configuration@,
            default_events_configuration: self.default_events_configuration@,
            data_points: self.data_points@.map_values(|p: DataPoint| p@),
            events: self.events@.map_values(|e: Event| e@),
            status: self.status@,
        }
    }
}

/// The value of `enabled` where a record leaves it out.
pub fn default_false() -> (r: bool)
    ensures
        !r,
{
    false
}

/// The observability mode where a record leaves it out.
pub fn default_none_string() -> (r: String)
    ensures
        r@ == "none"@,
{
    "none".to_string()
}

/// The name of the asset that stands for the device `identifier`: a fixed
/// prefix and the identifier's fingerprint.
pub open spec fn asset_name_of(identifier: Seq<char>) -> Seq<char> {
    "onvif-asset-"@ + digest_of(identifier)
}

/// The name of the asset that stands for the device `identifier`.
pub fn asset_resource_name(identifier: &str) -> (r: String)
    ensures
        r@ == asset_name_of(identifier@),
{
    "onvif-asset-".to_string().concat(generate_digest(identifier).as_str())
}

} // verus!
