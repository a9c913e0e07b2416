//! APIs that are related to basic device functions.

use crate::call::call;
use crate::call::done;
use crate::call::is_version;
use crate::call::optional_text_value;
use crate::call::text_or_null;
use crate::call::typed;
use crate::call::typed_reply;
use crate::call::typed_view;
use crate::call::unit_reply;
use crate::call::version_or_default;
use crate::client::Bravia;
use crate::decode::defaulted;
use crate::decode::element;
use crate::decode::element_or;
use crate::decode::field;
use crate::decode::field_or;
use crate::decode::optional;
use crate::decode::optional_field;
use crate::decode::placed;
use crate::decode::placed_or;
use crate::decode::required;
use crate::decode::FromJson;
use crate::encode::ToJson;
use crate::error::result_view;
use crate::error::Error;
use crate::error::ErrorView;
use crate::json::bool_value;
use crate::json::map_insert;
use crate::json::map_new;
use crate::json::object_value;
use crate::json::text_value;
use crate::json::value_as_array;
use crate::json::Json;
use crate::request::default_version;
use crate::request::RequestBodyBuilder;
use crate::request::RequestBuilder;
use crate::request::RequestGetElementType;
use crate::request::RequestGetElementTypeView;
use crate::request::RequestView;
use crate::response::completion;
use crate::transport::HttpOutcome;
use crate::transport::HttpRequest;
use serde_json::Value;
use vstd::prelude::*;

verus! {

#[derive(Debug, Clone, PartialEq, Eq)]
pub struct Time {
    /// Current time set in the device (ISO8601 format).
    pub date_time: String,
    /// Timezone offset (unit: minute, range: ±(23*60+59)).\
    /// Not available with API version 1.0.
    pub time_zone_offset_minute: Option<usize>,
    /// DST offset (unit: minute, range: ±(23*60+59)).\
    /// Not available with API version 1.0.
    pub dst_offset_minute: Option<usize>,
}

/// The mathematical value of a [`Time`].
pub struct TimeView {
    pub date_time: Seq<char>,
    pub time_zone_offset_minute: Option<usize>,
    pub dst_offset_minute: Option<usize>,
}

impl DeepView for Time {
    type V = TimeView;

    open spec fn deep_view(&self) -> TimeView {
        TimeView {
            date_time: self.date_time.deep_view(),
            time_zone_offset_minute: self.time_zone_offset_minute.deep_view(),
            dst_offset_minute: self.dst_offset_minute.deep_view(),
        }
    }
}

impl FromJson for Time {
    /// An object with the member `dateTime`; `timeZoneOffsetMinute`,
    /// `dstOffsetMinute` may be left out. Other members are ignored. Or an
    /// array of the values in the order `dateTime`, `timeZoneOffsetMinute`,
    /// `dstOffsetMinute`, with none missing and none beyond them.
    open spec fn decoded(doc: Json) -> Option<TimeView> {
        match doc.elements() {
            Some(items) => if items.len() <= 3 {
                match (
                    placed::<String>(items, 0),
                    placed::<Option<usize>>(items, 1),
                    placed::<Option<usize>>(items, 2),
                ) {
                    (
                        Some(date_time),
                        Some(time_zone_offset_minute),
                        Some(dst_offset_minute),
                    ) => Some(
                        TimeView { date_time, time_zone_offset_minute, dst_offset_minute },
                    ),
                    _ => None,
                }
            } else {
                None
            },
            None => match (
                required::<String>(doc, "dateTime"@),
                optional::<usize>(doc, "timeZoneOffsetMinute"@),
                optional::<usize>(doc, "dstOffsetMinute"@),
            ) {
                (Some(date_time), Some(time_zone_offset_minute), Some(dst_offset_minute)) => Some(
                    TimeView { date_time, time_zone_offset_minute, dst_offset_minute },
                ),
                _ => None,
            },
        }
    }

    fn from_json(v: &Value) -> (r: Option<Time>) {
        match value_as_array(v) {
            Some(items) => {
                if items.len() > 3 {
                    return None;
                }
                let date_time = element::<String>(items, 0);
                let time_zone_offset_minute = element::<Option<usize>>(items, 1);
                let dst_offset_minute = element::<Option<usize>>(items, 2);
                match (date_time, time_zone_offset_minute, dst_offset_minute) {
                    (
                        Some(date_time),
                        Some(time_zone_offset_minute),
                        Some(dst_offset_minute),
                    ) => Some(
                        Time { date_time, time_zone_offset_minute, dst_offset_minute },
                    ),
                    _ => None,
                }
            },
            None => {
                let date_time = field::<String>(v, "dateTime");
                let time_zone_offset_minute = optional_field::<usize>(v, "timeZoneOffsetMinute");
                let dst_offset_minute = optional_field::<usize>(v, "dstOffsetMinute");
                match (date_time, time_zone_offset_minute, dst_offset_minute) {
                    (
                        Some(date_time),
                        Some(time_zone_offset_minute),
                        Some(dst_offset_minute),
                    ) => Some(
                        Time { date_time, time_zone_offset_minute, dst_offset_minute },
                    ),
                    _ => None,
                }
            },
        }
    }
}

#[derive(Debug, Clone, PartialEq, Eq)]
pub struct InterfaceInfo {
    /// Category name of the device.
    pub product_category: String,
    /// More detailed product information can be returned if [product_category](Self::product_category) is not enough.
    pub product_name: String,
    /// Model name.
    pub model_name: String,
    /// If the device can launch multiple REST API servers, return this server's name for the client to distinguish.
    pub server_name: String,
    /// Version for the client to change its behavior with regards to significant differences within product_category.
    /// This version is managed/controlled within each product_category.
    /// The composition of this parameter is `[X].[Y].[Z]`,
    /// where `[X]`, `[Y]`, and `[Z]` are strings each representing an integer and concatenated with periods "." in between.
    /// * `[X]`: This value is assigned and incremented so that the client can distinguish any significant differences
    /// between devices or groups of devices within product_category.
    /// How this value is assigned depends on each product_category.
    /// * `[Y]`: This value represents the versions of API sets supported within `[X]`.
    /// This version must be incremented if supported APIs are added or deleted.
    /// * `[Z]`: This value must be incremented if any behavior of existing APIs is changed within `[X.Y]`.
    pub interface_version: String,
}

/// The mathematical value of a [`InterfaceInfo`].
pub struct InterfaceInfoView {
    pub product_category: Seq<char>,
    pub product_name: Seq<char>,
    pub model_name: Seq<char>,
    pub server_name: Seq<char>,
    pub interface_version: Seq<char>,
}

impl DeepView for InterfaceInfo {
    type V = InterfaceInfoView;

    open spec fn deep_view(&self) -> InterfaceInfoView {
        InterfaceInfoView {
            product_category: self.product_category.deep_view(),
            product_name: self.product_name.deep_view(),
            model_name: self.model_name.deep_view(),
            server_name: self.server_name.deep_view(),
            interface_version: self.interface_version.deep_view(),
        }
    }
}

impl FromJson for InterfaceInfo {
    /// An object with the members `productCategory`, `productName`,
    /// `modelName`, `serverName`, `interfaceVersion`. Other members are
    /// ignored. Or an array of the values in the order `productCategory`,
    /// `productName`, `modelName`, `serverName`, `interfaceVersion`, with
    /// none missing and none beyond them.
    open spec fn decoded(doc: Json) -> Option<InterfaceInfoView> {
        match doc.elements() {
            Some(items) => if items.len() <= 5 {
                match (
                    placed::<String>(items, 0),
                    placed::<String>(items, 1),
                    placed::<String>(items, 2),
                    placed::<String>(items, 3),
                    placed::<String>(items, 4),
                ) {
                    (
                        Some(product_category),
                        Some(product_name),
                        Some(model_name),
                        Some(server_name),
                        Some(interface_version),
                    ) => Some(
                        InterfaceInfoView {
                            product_category,
                            product_name,
                            model_name,
                            server_name,
                            interface_version,
                        },
                    ),
                    _ => None,
                }
            } else {
                None
            },
            None => match (
                required::<String>(doc, "productCategory"@),
                required::<String>(doc, "productName"@),
                required::<String>(doc, "modelName"@),
                required::<String>(doc, "serverName"@),
                required::<String>(doc, "interfaceVersion"@),
            ) {
                (
                    Some(product_category),
                    Some(product_name),
                    Some(model_name),
                    Some(server_name),
                    Some(interface_version),
                ) => Some(
                    InterfaceInfoView {
                        product_category,
                        product_name,
                        model_name,
                        server_name,
                        interface_version,
                    },
                ),
                _ => None,
            },
        }
    }

    fn from_json(v: &Value) -> (r: Option<InterfaceInfo>) {
        match value_as_array(v) {
            Some(items) => {
                if items.len() > 5 {
                    return None;
                }
                let product_category = element::<String>(items, 0);
                let product_name = element::<String>(items, 1);
                let model_name = element::<String>(items, 2);
                let server_name = element::<String>(items, 3);
                let interface_version = element::<String>(items, 4);
                match (product_category, product_name, model_name, server_name, interface_version) {
                    (
                        Some(product_category),
                        Some(product_name),
                        Some(model_name),
                        Some(server_name),
                        Some(interface_version),
                    ) => Some(
                        InterfaceInfo {
                            product_category,
                            product_name,
                            model_name,
                            server_name,
                            interface_version,
                        },
                    ),
                    _ => None,
                }
            },
            None => {
                let product_category = field::<String>(v, "productCategory");
                let product_name = field::<String>(v, "productName");
                let model_name = field::<String>(v, "modelName");
                let server_name = field::<String>(v, "serverName");
                let interface_version = field::<String>(v, "interfaceVersion");
                match (product_category, product_name, model_name, server_name, interface_version) {
                    (
                        Some(product_category),
                        Some(product_name),
                        Some(model_name),
                        Some(server_name),
                        Some(interface_version),
                    ) => Some(
                        InterfaceInfo {
                            product_category,
                            product_name,
                            model_name,
                            server_name,
                            interface_version,
                        },
                    ),
                    _ => None,
                }
            },
        }
    }
}

#[derive(Debug, Clone, PartialEq, Eq)]
pub struct LEDIndicatorStatus {
    /// Functional meaning of the target LED.
    /// * `Demo`
    /// * `AutoBrightnessAdjust`
    /// * `Dark`
    /// * `SimpleResponse`
    /// * `Off`
    pub mode: String,
    /// LED Indicator status.
    /// * `true` - On
    /// * `false` - Off
    /// * `None`
    ///     * input: the server decides the behavior
    ///     * output: unknown
    pub status: Option<String>,
}

/// The mathematical value of a [`LEDIndicatorStatus`].
pub struct LEDIndicatorStatusView {
    pub mode: Seq<char>,
    pub status: Option<Seq<char>>,
}

impl DeepView for LEDIndicatorStatus {
    type V = LEDIndicatorStatusView;

    open spec fn deep_view(&self) -> LEDIndicatorStatusView {
        LEDIndicatorStatusView {
            mode: self.mode.deep_view(),
            status: self.status.deep_view(),
        }
    }
}

impl FromJson for LEDIndicatorStatus {
    /// An object with the member `mode`; `status` may be left out. Other
    /// members are ignored. Or an array of the values in the order `mode`,
    /// `status`, with none missing and none beyond them.
    open spec fn decoded(doc: Json) -> Option<LEDIndicatorStatusView> {
        match doc.elements() {
            Some(items) => if items.len() <= 2 {
                match (
                    placed::<String>(items, 0),
                    placed::<Option<String>>(items, 1),
                ) {
                    (Some(mode), Some(status)) => Some(LEDIndicatorStatusView { mode, status }),
                    _ => None,
                }
            } else {
                None
            },
            None => match (
                required::<String>(doc, "mode"@),
                optional::<String>(doc, "status"@),
            ) {
                (Some(mode), Some(status)) => Some(LEDIndicatorStatusView { mode, status }),
                _ => None,
            },
        }
    }

    fn from_json(v: &Value) -> (r: Option<LEDIndicatorStatus>) {
        match value_as_array(v) {
            Some(items) => {
                if items.len() > 2 {
                    return None;
                }
                let mode = element::<String>(items, 0);
                let status = element::<Option<String>>(items, 1);
                match (mode, status) {
                    (Some(mode), Some(status)) => Some(LEDIndicatorStatus { mode, status }),
                    _ => None,
                }
            },
            None => {
                let mode = field::<String>(v, "mode");
                let status = optional_field::<String>(v, "status");
                match (mode, status) {
                    (Some(mode), Some(status)) => Some(LEDIndicatorStatus { mode, status }),
                    _ => None,
                }
            },
        }
    }
}

impl LEDIndicatorStatus {
    pub fn new(mode: String, status: Option<String>) -> (r: Self)
        ensures
            r.mode == mode,
            r.status == status,
    {
        Self { mode, status }
    }
}

impl ToJson for LEDIndicatorStatus {
    /// An object with the members `mode` and `status`;
    /// `status` is null where there is no value.
    open spec fn encoded(value: LEDIndicatorStatusView) -> Json {
        let p = Json::empty_object();
        let p = p.with("mode"@, Json::Str(value.mode));
        let p = p.with("status"@, text_or_null(value.status));
        p
    }

    fn to_json(&self) -> (r: Value) {
        let mut m = map_new();
        map_insert(&mut m, "mode", text_value(self.mode.as_str()));
        map_insert(&mut m, "status", optional_text_value(&self.status));
        object_value(m)
    }
}

#[derive(Debug, Clone, PartialEq, Eq)]
pub struct NetworkSettings {
    /// Network Interface.
    pub netif: String,
    /// Hardware address (MAC Address).
    pub hw_addr: String,
    /// IP Address for IPV4.
    pub ip_addr_v4: String,
    /// IP Address for IPV6.
    pub ip_addr_v6: String,
    /// Netmask.
    pub netmask: String,
    /// Gateway.
    pub gateway: String,
    /// DNS.
    pub dns: Vec<String>,
}

/// The mathematical value of a [`NetworkSettings`].
pub struct NetworkSettingsView {
    pub netif: Seq<char>,
    pub hw_addr: Seq<char>,
    pub ip_addr_v4: Seq<char>,
    pub ip_addr_v6: Seq<char>,
    pub netmask: Seq<char>,
    pub gateway: Seq<char>,
    pub dns: Seq<Seq<char>>,
}

impl DeepView for NetworkSettings {
    type V = NetworkSettingsView;

    open spec fn deep_view(&self) -> NetworkSettingsView {
        NetworkSettingsView {
            netif: self.netif.deep_view(),
            hw_addr: self.hw_addr.deep_view(),
            ip_addr_v4: self.ip_addr_v4.deep_view(),
            ip_addr_v6: self.ip_addr_v6.deep_view(),
            netmask: self.netmask.deep_view(),
            gateway: self.gateway.deep_view(),
            dns: self.dns.deep_view(),
        }
    }
}

impl FromJson for NetworkSettings {
    /// An object with the members `netif`, `hwAddr`, `ipAddrV4`, `ipAddrV6`,
    /// `netmask`, `gateway`, `dns`. Other members are ignored. Or an array of
    /// the values in the order `netif`, `hwAddr`, `ipAddrV4`, `ipAddrV6`,
    /// `netmask`, `gateway`, `dns`, with none missing and none beyond them.
    open spec fn decoded(doc: Json) -> Option<NetworkSettingsView> {
        match doc.elements() {
            Some(items) => if items.len() <= 7 {
                match (
                    placed::<String>(items, 0),
                    placed::<String>(items, 1),
                    placed::<String>(items, 2),
                    placed::<String>(items, 3),
                    placed::<String>(items, 4),
                    placed::<String>(items, 5),
                    placed::<Vec<String>>(items, 6),
                ) {
                    (
                        Some(netif),
                        Some(hw_addr),
                        Some(ip_addr_v4),
                        Some(ip_addr_v6),
                        Some(netmask),
                        Some(gateway),
                        Some(dns),
                    ) => Some(
                        NetworkSettingsView {
                            netif,
                            hw_addr,
                            ip_addr_v4,
                            ip_addr_v6,
                            netmask,
                            gateway,
                            dns,
                        },
                    ),
                    _ => None,
                }
            } else {
                None
            },
            None => match (
                required::<String>(doc, "netif"@),
                required::<String>(doc, "hwAddr"@),
                required::<String>(doc, "ipAddrV4"@),
                required::<String>(doc, "ipAddrV6"@),
                required::<String>(doc, "netmask"@),
                required::<String>(doc, "gateway"@),
                required::<Vec<String>>(doc, "dns"@),
            ) {
                (
                    Some(netif),
                    Some(hw_addr),
                    Some(ip_addr_v4),
                    Some(ip_addr_v6),
                    Some(netmask),
                    Some(gateway),
                    Some(dns),
                ) => Some(
                    NetworkSettingsView {
                        netif,
                        hw_addr,
                        ip_addr_v4,
                        ip_addr_v6,
                        netmask,
                        gateway,
                        dns,
                    },
                ),
                _ => None,
            },
        }
    }

    fn from_json(v: &Value) -> (r: Option<NetworkSettings>) {
        match value_as_array(v) {
            Some(items) => {
                if items.len() > 7 {
                    return None;
                }
                let netif = element::<String>(items, 0);
                let hw_addr = element::<String>(items, 1);
                let ip_addr_v4 = element::<String>(items, 2);
                let ip_addr_v6 = element::<String>(items, 3);
                let netmask = element::<String>(items, 4);
                let gateway = element::<String>(items, 5);
                let dns = element::<Vec<String>>(items, 6);
                match (netif, hw_addr, ip_addr_v4, ip_addr_v6, netmask, gateway, dns) {
                    (
                        Some(netif),
                        Some(hw_addr),
                        Some(ip_addr_v4),
                        Some(ip_addr_v6),
                        Some(netmask),
                        Some(gateway),
                        Some(dns),
                    ) => Some(
                        NetworkSettings {
                            netif,
                            hw_addr,
                            ip_addr_v4,
                            ip_addr_v6,
                            netmask,
                            gateway,
                            dns,
                        },
                    ),
                    _ => None,
                }
            },
            None => {
                let netif = field::<String>(v, "netif");
                let hw_addr = field::<String>(v, "hwAddr");
                let ip_addr_v4 = field::<String>(v, "ipAddrV4");
                let ip_addr_v6 = field::<String>(v, "ipAddrV6");
                let netmask = field::<String>(v, "netmask");
                let gateway = field::<String>(v, "gateway");
                let dns = field::<Vec<String>>(v, "dns");
                match (netif, hw_addr, ip_addr_v4, ip_addr_v6, netmask, gateway, dns) {
                    (
                        Some(netif),
                        Some(hw_addr),
                        Some(ip_addr_v4),
                        Some(ip_addr_v6),
                        Some(netmask),
                        Some(gateway),
                        Some(dns),
                    ) => Some(
                        NetworkSettings {
                            netif,
                            hw_addr,
                            ip_addr_v4,
                            ip_addr_v6,
                            netmask,
                            gateway,
                            dns,
                        },
                    ),
                    _ => None,
                }
            },
        }
    }
}

#[derive(Debug, Clone, PartialEq, Eq)]
pub struct RemoteControllerAction {
    /// Name of remote control button.
    pub name: String,
    /// IRCC code value that is supported in this device.
    pub value: String,
}

/// The mathematical value of a [`RemoteControllerAction`].
pub struct RemoteControllerActionView {
    pub name: Seq<char>,
    pub value: Seq<char>,
}

impl DeepView for RemoteControllerAction {
    type V = RemoteControllerActionView;

    open spec fn deep_view(&self) -> RemoteControllerActionView {
        RemoteControllerActionView {
            name: self.name.deep_view(),
            value: self.value.deep_view(),
        }
    }
}

impl FromJson for RemoteControllerAction {
    /// An object with the members `name`, `value`. Other members are ignored.
    /// Or an array of the values in the order `name`, `value`, with none
    /// missing and none beyond them.
    open spec fn decoded(doc: Json) -> Option<RemoteControllerActionView> {
        match doc.elements() {
            Some(items) => if items.len() <= 2 {
                match (
                    placed::<String>(items, 0),
                    placed::<String>(items, 1),
                ) {
                    (Some(name), Some(value)) => Some(RemoteControllerActionView { name, value }),
                    _ => None,
                }
            } else {
                None
            },
            None => match (
                required::<String>(doc, "name"@),
                required::<String>(doc, "value"@),
            ) {
                (Some(name), Some(value)) => Some(RemoteControllerActionView { name, value }),
                _ => None,
            },
        }
    }

    fn from_json(v: &Value) -> (r: Option<RemoteControllerAction>) {
        match value_as_array(v) {
            Some(items) => {
                if items.len() > 2 {
                    return None;
                }
                let name = element::<String>(items, 0);
                let value = element::<String>(items, 1);
                match (name, value) {
                    (Some(name), Some(value)) => Some(RemoteControllerAction { name, value }),
                    _ => None,
                }
            },
            None => {
                let name = field::<String>(v, "name");
                let value = field::<String>(v, "value");
                match (name, value) {
                    (Some(name), Some(value)) => Some(RemoteControllerAction { name, value }),
                    _ => None,
                }
            },
        }
    }
}

#[derive(Debug, Clone, PartialEq, Eq)]
pub struct RemoteDeviceSettings {
    /// Target name.
    /// * `accessPermission` - Sets whether to permit access from remote devices, which can access the server device from outside the door.
    pub target: String,
    /// Current value of the target.
    /// If `target` is `accessPermission`:
    /// * `on` - access is permitted
    /// * `off` - access is not permitted
    pub current_value: String,
}

/// The mathematical value of a [`RemoteDeviceSettings`].
pub struct RemoteDeviceSettingsView {
    pub target: Seq<char>,
    pub current_value: Seq<char>,
}

impl DeepView for RemoteDeviceSettings {
    type V = RemoteDeviceSettingsView;

    open spec fn deep_view(&self) -> RemoteDeviceSettingsView {
        RemoteDeviceSettingsView {
            target: self.target.deep_view(),
            current_value: self.current_value.deep_view(),
        }
    }
}

impl FromJson for RemoteDeviceSettings {
    /// An object with the members `target`, `currentValue`. Other members are
    /// ignored. Or an array of the values in the order `target`,
    /// `currentValue`, with none missing and none beyond them.
    open spec fn decoded(doc: Json) -> Option<RemoteDeviceSettingsView> {
        match doc.elements() {
            Some(items) => if items.len() <= 2 {
                match (
                    placed::<String>(items, 0),
                    placed::<String>(items, 1),
                ) {
                    (Some(target), Some(current_value)) => Some(
                        RemoteDeviceSettingsView { target, current_value },
                    ),
                    _ => None,
                }
            } else {
                None
            },
            None => match (
                required::<String>(doc, "target"@),
                required::<String>(doc, "currentValue"@),
            ) {
                (Some(target), Some(current_value)) => Some(
                    RemoteDeviceSettingsView { target, current_value },
                ),
                _ => None,
            },
        }
    }

    fn from_json(v: &Value) -> (r: Option<RemoteDeviceSettings>) {
        match value_as_array(v) {
            Some(items) => {
                if items.len() > 2 {
                    return None;
                }
                let target = element::<String>(items, 0);
                let current_value = element::<String>(items, 1);
                match (target, current_value) {
                    (Some(target), Some(current_value)) => Some(
                        RemoteDeviceSettings { target, current_value },
                    ),
                    _ => None,
                }
            },
            None => {
                let target = field::<String>(v, "target");
                let current_value = field::<String>(v, "currentValue");
                match (target, current_value) {
                    (Some(target), Some(current_value)) => Some(
                        RemoteDeviceSettings { target, current_value },
                    ),
                    _ => None,
                }
            },
        }
    }
}

#[derive(Debug, Clone, PartialEq, Eq)]
pub struct SystemInformation {
    /// Device category.
    pub product: String,
    /// Language code of the device, represented by ISO-639 alpha-3.\
    /// The default value is `""`, and if the server device cannot send this parameter,
    /// an empty string is returned.
    pub language: String,
    /// Name of the product.\
    /// This must be unique within each product.
    pub model: String,
    /// Serial ID assigned to each device.\
    /// The default value is `""`, and if the server device cannot send this parameter,
    /// an empty string is returned.
    pub serial: String,
    /// Ethernet MAC address.\
    /// Default value is `""` and in case server device can not send this parameter,
    /// empty string is returned.
    pub mac_addr: String,
    /// Product name.\
    /// This must be unique within each category.
    pub name: String,
    /// Represents the rough age and season of the device in the market.\
    /// The parameter is composed of `[X].[Y].[Z]`,
    /// where `[X]`, `[Y]`, and `[Z]` are strings each representing an integer,
    /// concatenated with periods "." in between.
    /// This must be unique within each category.\
    /// The default value is, `""` and if the server device cannot send this parameter,
    /// an empty string is returned.
    pub generation: String,
}

/// The mathematical value of a [`SystemInformation`].
pub struct SystemInformationView {
    pub product: Seq<char>,
    pub language: Seq<char>,
    pub model: Seq<char>,
    pub serial: Seq<char>,
    pub mac_addr: Seq<char>,
    pub name: Seq<char>,
    pub generation: Seq<char>,
}

impl DeepView for SystemInformation {
    type V = SystemInformationView;

    open spec fn deep_view(&self) -> SystemInformationView {
        SystemInformationView {
            product: self.product.deep_view(),
            language: self.language.deep_view(),
            model: self.model.deep_view(),
            serial: self.serial.deep_view(),
            mac_addr: self.mac_addr.deep_view(),
            name: self.name.deep_view(),
            generation: self.generation.deep_view(),
        }
    }
}

impl FromJson for SystemInformation {
    /// An object with the members `product`, `model`, `name`; `language`,
    /// `serial`, `mac_addr`, `generation` may be left out. Other members are
    /// ignored. Or an array of the values in the order `product`, `language`,
    /// `model`, `serial`, `mac_addr`, `name`, `generation`, with none beyond
    /// them and none missing but, at its end, `generation`.
    open spec fn decoded(doc: Json) -> Option<SystemInformationView> {
        match doc.elements() {
            Some(items) => if items.len() <= 7 {
                match (
                    placed::<String>(items, 0),
                    placed_or::<String>(items, 1, Seq::empty()),
                    placed::<String>(items, 2),
                    placed_or::<String>(items, 3, Seq::empty()),
                    placed_or::<String>(items, 4, Seq::empty()),
                    placed::<String>(items, 5),
                    placed_or::<String>(items, 6, Seq::empty()),
                ) {
                    (
                        Some(product),
                        Some(language),
                        Some(model),
                        Some(serial),
                        Some(mac_addr),
                        Some(name),
                        Some(generation),
                    ) => Some(
                        SystemInformationView {
                            product,
                            language,
                            model,
                            serial,
                            mac_addr,
                            name,
                            generation,
                        },
                    ),
                    _ => None,
                }
            } else {
                None
            },
            None => match (
                required::<String>(doc, "product"@),
                defaulted::<String>(doc, "language"@, Seq::empty()),
                required::<String>(doc, "model"@),
                defaulted::<String>(doc, "serial"@, Seq::empty()),
                defaulted::<String>(doc, "mac_addr"@, Seq::empty()),
                required::<String>(doc, "name"@),
                defaulted::<String>(doc, "generation"@, Seq::empty()),
            ) {
                (
                    Some(product),
                    Some(language),
                    Some(model),
                    Some(serial),
                    Some(mac_addr),
                    Some(name),
                    Some(generation),
                ) => Some(
                    SystemInformationView {
                        product,
                        language,
                        model,
                        serial,
                        mac_addr,
                        name,
                        generation,
                    },
                ),
                _ => None,
            },
        }
    }

    fn from_json(v: &Value) -> (r: Option<SystemInformation>) {
        match value_as_array(v) {
            Some(items) => {
                if items.len() > 7 {
                    return None;
                }
                let product = element::<String>(items, 0);
                let language = element_or::<String>(items, 1, String::new());
                let model = element::<String>(items, 2);
                let serial = element_or::<String>(items, 3, String::new());
                let mac_addr = element_or::<String>(items, 4, String::new());
                let name = element::<String>(items, 5);
                let generation = element_or::<String>(items, 6, String::new());
                match (product, language, model, serial, mac_addr, name, generation) {
                    (
                        Some(product),
                        Some(language),
                        Some(model),
                        Some(serial),
                        Some(mac_addr),
                        Some(name),
                        Some(generation),
                    ) => Some(
                        SystemInformation {
                            product,
                            language,
                            model,
                            serial,
                            mac_addr,
                            name,
                            generation,
                        },
                    ),
                    _ => None,
                }
            },
            None => {
                let product = field::<String>(v, "product");
                let language = field_or::<String>(v, "language", String::new());
                let model = field::<String>(v, "model");
                let serial = field_or::<String>(v, "serial", String::new());
                let mac_addr = field_or::<String>(v, "mac_addr", String::new());
                let name = field::<String>(v, "name");
                let generation = field_or::<String>(v, "generation", String::new());
                match (product, language, model, serial, mac_addr, name, generation) {
                    (
                        Some(product),
                        Some(language),
                        Some(model),
                        Some(serial),
                        Some(mac_addr),
                        Some(name),
                        Some(generation),
                    ) => Some(
                        SystemInformation {
                            product,
                            language,
                            model,
                            serial,
                            mac_addr,
                            name,
                            generation,
                        },
                    ),
                    _ => None,
                }
            },
        }
    }
}

#[derive(Debug, Clone, PartialEq, Eq)]
pub struct SupportedFunction {
    /// Option name to identify the function.
    /// * `WOL` - If the server supports WOL, the MAC address is set as a value.
    pub option: String,
    /// Current value for each option.\
    /// The value varies per option and the following value is defined.
    /// * (ex) `00:00:00:00:00:00:00:E0` (The MAC Address when the option value is `WOL`.)
    pub value: String,
}

/// The mathematical value of a [`SupportedFunction`].
pub struct SupportedFunctionView {
    pub option: Seq<char>,
    pub value: Seq<char>,
}

impl DeepView for SupportedFunction {
    type V = SupportedFunctionView;

    open spec fn deep_view(&self) -> SupportedFunctionView {
        SupportedFunctionView {
            option: self.option.deep_view(),
            value: self.value.deep_view(),
        }
    }
}

impl FromJson for SupportedFunction {
    /// An object with the members `option`, `value`. Other members are
    /// ignored. Or an array of the values in the order `option`, `value`,
    /// with none missing and none beyond them.
    open spec fn decoded(doc: Json) -> Option<SupportedFunctionView> {
        match doc.elements() {
            Some(items) => if items.len() <= 2 {
                match (
                    placed::<String>(items, 0),
                    placed::<String>(items, 1),
                ) {
                    (Some(option), Some(value)) => Some(SupportedFunctionView { option, value }),
                    _ => None,
                }
            } else {
                None
            },
            None => match (
                required::<String>(doc, "option"@),
                required::<String>(doc, "value"@),
            ) {
                (Some(option), Some(value)) => Some(SupportedFunctionView { option, value }),
                _ => None,
            },
        }
    }

    fn from_json(v: &Value) -> (r: Option<SupportedFunction>) {
        match value_as_array(v) {
            Some(items) => {
                if items.len() > 2 {
                    return None;
                }
                let option = element::<String>(items, 0);
                let value = element::<String>(items, 1);
                match (option, value) {
                    (Some(option), Some(value)) => Some(SupportedFunction { option, value }),
                    _ => None,
                }
            },
            None => {
                let option = field::<String>(v, "option");
                let value = field::<String>(v, "value");
                match (option, value) {
                    (Some(option), Some(value)) => Some(SupportedFunction { option, value }),
                    _ => None,
                }
            },
        }
    }
}

/// Provides access to system service APIs.
pub struct SystemService<'a>(pub &'a Bravia);

impl<'a> SystemService<'a> {
    pub fn new(bravia: &'a Bravia) -> (r: Self)
        ensures
            r.0 == bravia,
    {
        Self(bravia)
    }

    /// The call of `getCurrentTime`.
    pub open spec fn get_current_time_request(version: Option<Seq<char>>) -> RequestView {
        call(
            "system"@,
            51,
            "getCurrentTime"@,
            version_or_default(version),
            None,
            false,
            true,
            RequestGetElementTypeView::first(),
        )
    }

    /// Provides the current time, parameters of timezone and DST offset information.
    ///
    /// # Arguments
    /// * `version` - API version.
    ///
    /// # Authentication Level
    /// None
    pub fn get_current_time(&self, version: Option<&str>) -> (r: Result<HttpRequest, Error>)
        ensures
            result_view(r) == self.0@.prepared(
                Self::get_current_time_request(version.deep_view()),
            ),
    {
        let body = RequestBodyBuilder::default()
            .id(51)
            .method("getCurrentTime")
            .version(version)
            .build()?;
        RequestBuilder::default()
            .endpoint("system")
            .body(body)
            .has_result()
            .make(self.0)
    }

    /// What the value of `getCurrentTime` means at a version: at "1.0", also
    /// where the caller named none, the value is the time as a string, and
    /// the offsets are not known; at any other version it is an object with
    /// the time and the offsets.
    pub open spec fn current_time(
        version: Option<Seq<char>>,
        value: Result<Json, ErrorView>,
    ) -> Result<TimeView, ErrorView> {
        if version is None || version == Some("1.0"@) {
            match typed::<String>(value) {
                Ok(date_time) => Ok(
                    TimeView { date_time, time_zone_offset_minute: None, dst_offset_minute: None },
                ),
                Err(e) => Err(e),
            }
        } else {
            typed::<Time>(value)
        }
    }

    /// Reads the reply to `getCurrentTime` for the version that the call was
    /// made with.
    pub fn get_current_time_reply(
        &self,
        version: Option<&str>,
        outcome: HttpOutcome,
    ) -> (r: Result<Time, Error>)
        ensures
            typed_view(r) == Self::current_time(
                version.deep_view(),
                completion(outcome@, true, RequestGetElementTypeView::first()),
            ),
    {
        let get = RequestGetElementType::Index(0);
        if version.is_none() || is_version(version, "1.0") {
            match typed_reply::<String>(outcome, true, &get) {
                Ok(date_time) => Ok(
                    Time { date_time, time_zone_offset_minute: None, dst_offset_minute: None },
                ),
                Err(e) => Err(e),
            }
        } else {
            typed_reply::<Time>(outcome, true, &get)
        }
    }

    /// The call of `getInterfaceInformation`.
    pub open spec fn get_interface_information_request() -> RequestView {
        call(
            "system"@,
            33,
            "getInterfaceInformation"@,
            default_version(),
            None,
            false,
            true,
            RequestGetElementTypeView::first(),
        )
    }

    /// Provides information of the REST API interface provided by the server.
    ///
    /// # Authentication Level
    /// None
    pub fn get_interface_information(&self) -> (r: Result<HttpRequest, Error>)
        ensures
            result_view(r) == self.0@.prepared(Self::get_interface_information_request()),
    {
        let body = RequestBodyBuilder::default()
            .id(33)
            .method("getInterfaceInformation")
            .build()?;
        RequestBuilder::default()
            .endpoint("system")
            .body(body)
            .has_result()
            .make(self.0)
    }

    /// Reads the reply to `getInterfaceInformation`:
    /// the first element of the result.
    pub fn get_interface_information_reply(&self, outcome: HttpOutcome) -> (r: Result<
        InterfaceInfo,
        Error,
    >)
        ensures
            typed_view(r) == typed::<InterfaceInfo>(
                completion(outcome@, true, RequestGetElementTypeView::first()),
            ),
    {
        typed_reply::<InterfaceInfo>(outcome, true, &RequestGetElementType::Index(0))
    }

    /// The call of `getLEDIndicatorStatus`.
    pub open spec fn get_led_indicator_status_request() -> RequestView {
        call(
            "system"@,
            45,
            "getLEDIndicatorStatus"@,
            default_version(),
            None,
            true,
            true,
            RequestGetElementTypeView::first(),
        )
    }

    /// Provides function to get the LED Indicator mode.
    ///
    /// # Authentication Level
    /// Generic
    pub fn get_led_indicator_status(&self) -> (r: Result<HttpRequest, Error>)
        ensures
            result_view(r) == self.0@.prepared(Self::get_led_indicator_status_request()),
    {
        let body = RequestBodyBuilder::default()
            .id(45)
            .method("getLEDIndicatorStatus")
            .build()?;
        RequestBuilder::default()
            .endpoint("system")
            .body(body)
            .is_protected()
            .has_result()
            .make(self.0)
    }

    /// Reads the reply to `getLEDIndicatorStatus`:
    /// the first element of the result.
    pub fn get_led_indicator_status_reply(&self, outcome: HttpOutcome) -> (r: Result<
        LEDIndicatorStatus,
        Error,
    >)
        ensures
            typed_view(r) == typed::<LEDIndicatorStatus>(
                completion(outcome@, true, RequestGetElementTypeView::first()),
            ),
    {
        typed_reply::<LEDIndicatorStatus>(outcome, true, &RequestGetElementType::Index(0))
    }

    /// The parameter object of `getNetworkSettings`.
    pub open spec fn get_network_settings_params(netif: Option<Seq<char>>) -> Json {
        let p = Json::empty_object();
        let p = match netif {
            Some(x) => p.with("netif"@, Json::Str(x)),
            None => p,
        };
        p
    }

    /// The call of `getNetworkSettings`.
    pub open spec fn get_network_settings_request(netif: Option<Seq<char>>) -> RequestView {
        call(
            "system"@,
            2,
            "getNetworkSettings"@,
            default_version(),
            Some(Self::get_network_settings_params(netif)),
            true,
            true,
            RequestGetElementTypeView::first(),
        )
    }

    /// Provides information about network settings.
    ///
    /// # Arguments
    /// * `netif` - Network interface.\
    /// The default value is `None`, this indicates all interfaces.
    ///
    /// # Authentication Level
    /// Generic
    pub fn get_network_settings(&self, netif: Option<String>) -> (r: Result<HttpRequest, Error>)
        ensures
            result_view(r) == self.0@.prepared(
                Self::get_network_settings_request(netif.deep_view()),
            ),
    {
        let mut params = map_new();
        if let Some(x) = &netif {
            map_insert(&mut params, "netif", text_value(x.as_str()));
        }
        let params_value = object_value(params);
        let body = RequestBodyBuilder::default()
            .id(2)
            .method("getNetworkSettings")
            .params(params_value)
            .build()?;
        RequestBuilder::default()
            .endpoint("system")
            .body(body)
            .is_protected()
            .has_result()
            .make(self.0)
    }

    /// Reads the reply to `getNetworkSettings`:
    /// the first element of the result.
    pub fn get_network_settings_reply(&self, outcome: HttpOutcome) -> (r: Result<
        Vec<NetworkSettings>,
        Error,
    >)
        ensures
            typed_view(r) == typed::<Vec<NetworkSettings>>(
                completion(outcome@, true, RequestGetElementTypeView::first()),
            ),
    {
        typed_reply::<Vec<NetworkSettings>>(outcome, true, &RequestGetElementType::Index(0))
    }

    /// The call of `getPowerSavingMode`.
    pub open spec fn get_power_saving_mode_request() -> RequestView {
        call(
            "system"@,
            51,
            "getPowerSavingMode"@,
            default_version(),
            None,
            false,
            true,
            RequestGetElementTypeView::Text("mode"@),
        )
    }

    /// Provides the setting of the power saving mode to adjust the device's power consumption.
    ///
    /// # Returns
    /// Current power saving mode, the following values are defined:
    /// * `off` - Power saving mode is disabled.
    /// * `low` - Power saving mode is enabled at a low level.
    /// * `high` - Power saving mode is enabled at a high level.
    /// * `pictureOff` - Power saving mode is enabled with the panel output off.
    ///
    /// # Authentication Level
    /// None
    pub fn get_power_saving_mode(&self) -> (r: Result<HttpRequest, Error>)
        ensures
            result_view(r) == self.0@.prepared(Self::get_power_saving_mode_request()),
    {
        let body = RequestBodyBuilder::default()
            .id(51)
            .method("getPowerSavingMode")
            .build()?;
        RequestBuilder::default()
            .endpoint("system")
            .body(body)
            .has_result()
            .get("mode".into())
            .make(self.0)
    }

    /// Reads the reply to `getPowerSavingMode`:
    /// the member `mode` of the first element of the result.
    pub fn get_power_saving_mode_reply(&self, outcome: HttpOutcome) -> (r: Result<String, Error>)
        ensures
            typed_view(r) == typed::<String>(
                completion(outcome@, true, RequestGetElementTypeView::Text("mode"@)),
            ),
    {
        typed_reply::<String>(outcome, true, &"mode".into())
    }

    /// The call of `getPowerStatus`.
    pub open spec fn get_power_status_request() -> RequestView {
        call(
            "system"@,
            50,
            "getPowerStatus"@,
            default_version(),
            None,
            false,
            true,
            RequestGetElementTypeView::Text("status"@),
        )
    }

    /// Provides the current power status of the device.
    ///
    /// # Returns
    /// Current power status, the following values are defined:
    /// * `standby` - Device is in the power off state.
    /// * `active` - Device is in the power on state.
    ///
    /// # Authentication Level
    /// None
    ///
    /// # Note
    /// It is possible that some devices may not respond when they are in the power off state.
    pub fn get_power_status(&self) -> (r: Result<HttpRequest, Error>)
        ensures
            result_view(r) == self.0@.prepared(Self::get_power_status_request()),
    {
        let body = RequestBodyBuilder::default()
            .id(50)
            .method("getPowerStatus")
            .build()?;
        RequestBuilder::default()
            .endpoint("system")
            .body(body)
            .has_result()
            .get("status".into())
            .make(self.0)
    }

    /// Reads the reply to `getPowerStatus`:
    /// the member `status` of the first element of the result.
    pub fn get_power_status_reply(&self, outcome: HttpOutcome) -> (r: Result<String, Error>)
        ensures
            typed_view(r) == typed::<String>(
                completion(outcome@, true, RequestGetElementTypeView::Text("status"@)),
            ),
    {
        typed_reply::<String>(outcome, true, &"status".into())
    }

    /// The call of `getRemoteControllerInfo`.
    pub open spec fn get_remote_controller_info_request() -> RequestView {
        call(
            "system"@,
            54,
            "getRemoteControllerInfo"@,
            default_version(),
            None,
            false,
            true,
            RequestGetElementTypeView::Index(1),
        )
    }

    /// Provides the information of the device's remote controller.
    ///
    /// # Authentication Level
    /// None
    pub fn get_remote_controller_info(&self) -> (r: Result<HttpRequest, Error>)
        ensures
            result_view(r) == self.0@.prepared(Self::get_remote_controller_info_request()),
    {
        let body = RequestBodyBuilder::default()
            .id(54)
            .method("getRemoteControllerInfo")
            .build()?;
        RequestBuilder::default()
            .endpoint("system")
            .body(body)
            .has_result()
            .get(1usize.into())
            .make(self.0)
    }

    /// Reads the reply to `getRemoteControllerInfo`:
    /// the element at position 1 of the result.
    pub fn get_remote_controller_info_reply(&self, outcome: HttpOutcome) -> (r: Result<
        Vec<RemoteControllerAction>,
        Error,
    >)
        ensures
            typed_view(r) == typed::<Vec<RemoteControllerAction>>(
                completion(outcome@, true, RequestGetElementTypeView::Index(1)),
            ),
    {
        typed_reply::<Vec<RemoteControllerAction>>(outcome, true, &1usize.into())
    }

    /// The parameter object of `getRemoteDeviceSettings`.
    pub open spec fn get_remote_device_settings_params(target: Option<Seq<char>>) -> Json {
        let p = Json::empty_object();
        let p = match target {
            Some(x) => p.with("target"@, Json::Str(x)),
            None => p,
        };
        p
    }

    /// The call of `getRemoteDeviceSettings`.
    pub open spec fn get_remote_device_settings_request(target: Option<Seq<char>>) -> RequestView {
        call(
            "system"@,
            44,
            "getRemoteDeviceSettings"@,
            default_version(),
            Some(Self::get_remote_device_settings_params(target)),
            false,
            true,
            RequestGetElementTypeView::first(),
        )
    }

    /// Provides the current settings and supported settings related to remote devices, which can access the server device from outside the door.
    ///
    /// # Arguments
    /// * `target` - Target name.
    /// * `accessPermission` - Sets whether to permit access from remote devices,
    /// which can access the server device from outside the door.
    /// * `None` - Settings of all targets.
    ///
    /// # Authentication Level
    /// None
    pub fn get_remote_device_settings(
        &self,
        target: Option<String>,
    ) -> (r: Result<HttpRequest, Error>)
        ensures
            result_view(r) == self.0@.prepared(
                Self::get_remote_device_settings_request(target.deep_view()),
            ),
    {
        let mut params = map_new();
        if let Some(x) = &target {
            map_insert(&mut params, "target", text_value(x.as_str()));
        }
        let params_value = object_value(params);
        let body = RequestBodyBuilder::default()
            .id(44)
            .method("getRemoteDeviceSettings")
            .params(params_value)
            .build()?;
        RequestBuilder::default()
            .endpoint("system")
            .body(body)
            .has_result()
            .make(self.0)
    }

    /// Reads the reply to `getRemoteDeviceSettings`:
    /// the first element of the result.
    pub fn get_remote_device_settings_reply(&self, outcome: HttpOutcome) -> (r: Result<
        Vec<RemoteDeviceSettings>,
        Error,
    >)
        ensures
            typed_view(r) == typed::<Vec<RemoteDeviceSettings>>(
                completion(outcome@, true, RequestGetElementTypeView::first()),
            ),
    {
        typed_reply::<Vec<RemoteDeviceSettings>>(outcome, true, &RequestGetElementType::Index(0))
    }

    /// The call of `getSystemInformation`.
    pub open spec fn get_system_information_request() -> RequestView {
        call(
            "system"@,
            33,
            "getSystemInformation"@,
            default_version(),
            None,
            true,
            true,
            RequestGetElementTypeView::first(),
        )
    }

    /// Provides general information on the device.
    ///
    /// # Authentication Level
    /// Private
    pub fn get_system_information(&self) -> (r: Result<HttpRequest, Error>)
        ensures
            result_view(r) == self.0@.prepared(Self::get_system_information_request()),
    {
        let body = RequestBodyBuilder::default()
            .id(33)
            .method("getSystemInformation")
            .build()?;
        RequestBuilder::default()
            .endpoint("system")
            .body(body)
            .is_protected()
            .has_result()
            .make(self.0)
    }

    /// Reads the reply to `getSystemInformation`:
    /// the first element of the result.
    pub fn get_system_information_reply(&self, outcome: HttpOutcome) -> (r: Result<
        SystemInformation,
        Error,
    >)
        ensures
            typed_view(r) == typed::<SystemInformation>(
                completion(outcome@, true, RequestGetElementTypeView::first()),
            ),
    {
        typed_reply::<SystemInformation>(outcome, true, &RequestGetElementType::Index(0))
    }

    /// The call of `getSystemSupportedFunction`.
    pub open spec fn get_system_supported_function_request() -> RequestView {
        call(
            "system"@,
            55,
            "getSystemSupportedFunction"@,
            default_version(),
            None,
            false,
            true,
            RequestGetElementTypeView::first(),
        )
    }

    /// Provides the list of device capabilities within the scope of system service handling.
    ///
    /// # Authentication Level
    /// None
    pub fn get_system_supported_function(&self) -> (r: Result<HttpRequest, Error>)
        ensures
            result_view(r) == self.0@.prepared(Self::get_system_supported_function_request()),
    {
        let body = RequestBodyBuilder::default()
            .id(55)
            .method("getSystemSupportedFunction")
            .build()?;
        RequestBuilder::default()
            .endpoint("system")
            .body(body)
            .has_result()
            .make(self.0)
    }

    /// Reads the reply to `getSystemSupportedFunction`:
    /// the first element of the result.
    pub fn get_system_supported_function_reply(&self, outcome: HttpOutcome) -> (r: Result<
        Vec<SupportedFunction>,
        Error,
    >)
        ensures
            typed_view(r) == typed::<Vec<SupportedFunction>>(
                completion(outcome@, true, RequestGetElementTypeView::first()),
            ),
    {
        typed_reply::<Vec<SupportedFunction>>(outcome, true, &RequestGetElementType::Index(0))
    }

    /// The call of `getWolMode`.
    pub open spec fn get_wol_mode_request() -> RequestView {
        call(
            "system"@,
            50,
            "getWolMode"@,
            default_version(),
            None,
            true,
            true,
            RequestGetElementTypeView::Text("enabled"@),
        )
    }

    /// Provides information on the device's WoL (Wake-on-LAN) mode settings.\
    /// The mode indicates whether the device receives the WoL packet to power on.
    ///
    /// # Authentication Level
    /// Generic
    pub fn get_wol_mode(&self) -> (r: Result<HttpRequest, Error>)
        ensures
            result_view(r) == self.0@.prepared(Self::get_wol_mode_request()),
    {
        let body = RequestBodyBuilder::default()
            .id(50)
            .method("getWolMode")
            .build()?;
        RequestBuilder::default()
            .endpoint("system")
            .body(body)
            .is_protected()
            .has_result()
            .get("enabled".into())
            .make(self.0)
    }

    /// Reads the reply to `getWolMode`:
    /// the member `enabled` of the first element of the result.
    pub fn get_wol_mode_reply(&self, outcome: HttpOutcome) -> (r: Result<bool, Error>)
        ensures
            typed_view(r) == typed::<bool>(
                completion(outcome@, true, RequestGetElementTypeView::Text("enabled"@)),
            ),
    {
        typed_reply::<bool>(outcome, true, &"enabled".into())
    }

    /// The call of `requestReboot`.
    pub open spec fn request_reboot_request() -> RequestView {
        call(
            "system"@,
            10,
            "requestReboot"@,
            default_version(),
            None,
            true,
            false,
            RequestGetElementTypeView::first(),
        )
    }

    /// Provides the function to reboot the device.
    ///
    /// # Authentication Level
    /// Generic
    pub fn request_reboot(&self) -> (r: Result<HttpRequest, Error>)
        ensures
            result_view(r) == self.0@.prepared(Self::request_reboot_request()),
    {
        let body = RequestBodyBuilder::default()
            .id(10)
            .method("requestReboot")
            .build()?;
        RequestBuilder::default()
            .endpoint("system")
            .body(body)
            .is_protected()
            .make(self.0)
    }

    /// Reads the reply to `requestReboot`: success, whatever the result holds.
    pub fn request_reboot_reply(&self, outcome: HttpOutcome) -> (r: Result<(), Error>)
        ensures
            result_view(r) == done(
                completion(outcome@, false, RequestGetElementTypeView::first()),
            ),
    {
        unit_reply(outcome, false, &RequestGetElementType::Index(0))
    }

    /// The parameter object of `setLEDIndicatorStatus`.
    pub open spec fn set_led_indicator_status_params(led_status: LEDIndicatorStatusView) -> Json {
        LEDIndicatorStatus::encoded(led_status)
    }

    /// The call of `setLEDIndicatorStatus`.
    pub open spec fn set_led_indicator_status_request(
        led_status: LEDIndicatorStatusView,
    ) -> RequestView {
        call(
            "system"@,
            53,
            "setLEDIndicatorStatus"@,
            "1.1"@,
            Some(Self::set_led_indicator_status_params(led_status)),
            true,
            false,
            RequestGetElementTypeView::first(),
        )
    }

    /// Provides the function to light up a specific LED Indicator,
    /// usually equipped in the front of the device to show the current device status to the user.
    ///
    /// # Authentication Level
    /// Generic
    ///
    /// # Note
    /// When requesting to change the LED indicator status with this API,
    /// you should take care not to return it to its original status
    /// when terminating your application.
    pub fn set_led_indicator_status(
        &self,
        led_status: LEDIndicatorStatus,
    ) -> (r: Result<HttpRequest, Error>)
        ensures
            result_view(r) == self.0@.prepared(
                Self::set_led_indicator_status_request(led_status.deep_view()),
            ),
    {
        let params_value = led_status.to_json();
        let body = RequestBodyBuilder::default()
            .id(53)
            .method("setLEDIndicatorStatus")
            .version(Some("1.1"))
            .params(params_value)
            .build()?;
        RequestBuilder::default()
            .endpoint("system")
            .body(body)
            .is_protected()
            .make(self.0)
    }

    /// Reads the reply to `setLEDIndicatorStatus`: success, whatever the result holds.
    pub fn set_led_indicator_status_reply(&self, outcome: HttpOutcome) -> (r: Result<(), Error>)
        ensures
            result_view(r) == done(
                completion(outcome@, false, RequestGetElementTypeView::first()),
            ),
    {
        unit_reply(outcome, false, &RequestGetElementType::Index(0))
    }

    /// The parameter object of `setLanguage`.
    pub open spec fn set_language_params(lang: Seq<char>) -> Json {
        let p = Json::empty_object();
        let p = p.with("language"@, Json::Str(lang));
        p
    }

    /// The call of `setLanguage`.
    pub open spec fn set_language_request(lang: Seq<char>) -> RequestView {
        call(
            "system"@,
            55,
            "setLanguage"@,
            default_version(),
            Some(Self::set_language_params(lang)),
            true,
            false,
            RequestGetElementTypeView::first(),
        )
    }

    /// Provides the language setting of the device.
    ///
    /// # Arguments
    /// `lang` - Language code represented by ISO-639 alpha-3 to set in the device.
    ///
    /// # Authentication Level
    /// Generic
    ///
    /// # Notes
    /// * A special value is required for language to distinguish Chinese characters, as seen below:
    ///     * "CHS": means Simplified Chinese.
    ///     * "CHT": means Traditional Chinese.
    /// * The available values of “language” depend on region or country settings on TV.
    pub fn set_language(&self, lang: String) -> (r: Result<HttpRequest, Error>)
        ensures
            result_view(r) == self.0@.prepared(Self::set_language_request(lang@)),
    {
        let mut params = map_new();
        map_insert(&mut params, "language", text_value(lang.as_str()));
        let params_value = object_value(params);
        let body = RequestBodyBuilder::default()
            .id(55)
            .method("setLanguage")
            .params(params_value)
            .build()?;
        RequestBuilder::default()
            .endpoint("system")
            .body(body)
            .is_protected()
            .make(self.0)
    }

    /// Reads the reply to `setLanguage`: success, whatever the result holds.
    pub fn set_language_reply(&self, outcome: HttpOutcome) -> (r: Result<(), Error>)
        ensures
            result_view(r) == done(
                completion(outcome@, false, RequestGetElementTypeView::first()),
            ),
    {
        unit_reply(outcome, false, &RequestGetElementType::Index(0))
    }

    /// The parameter object of `setPowerSavingMode`.
    pub open spec fn set_power_saving_mode_params(mode: Seq<char>) -> Json {
        let p = Json::empty_object();
        let p = p.with("mode"@, Json::Str(mode));
        p
    }

    /// The call of `setPowerSavingMode`.
    pub open spec fn set_power_saving_mode_request(mode: Seq<char>) -> RequestView {
        call(
            "system"@,
            52,
            "setPowerSavingMode"@,
            default_version(),
            Some(Self::set_power_saving_mode_params(mode)),
            true,
            false,
            RequestGetElementTypeView::first(),
        )
    }

    /// Provides the function to change the setting of the power saving mode
    /// and adjust the device's power consumption.
    ///
    /// # Arguments
    /// `mode` - Current power saving mode. The following values are defined:
    /// * `off` - Power saving mode is disabled.
    /// * `low` - Power saving mode is enabled at a low level.
    /// * `high` - Power saving mode is enabled at a high level.
    /// * `pictureOff` - Power saving mode is enabled with the panel output off.
    ///
    /// # Authentication Level
    /// Generic
    pub fn set_power_saving_mode(&self, mode: String) -> (r: Result<HttpRequest, Error>)
        ensures
            result_view(r) == self.0@.prepared(Self::set_power_saving_mode_request(mode@)),
    {
        let mut params = map_new();
        map_insert(&mut params, "mode", text_value(mode.as_str()));
        let params_value = object_value(params);
        let body = RequestBodyBuilder::default()
            .id(52)
            .method("setPowerSavingMode")
            .params(params_value)
            .build()?;
        RequestBuilder::default()
            .endpoint("system")
            .body(body)
            .is_protected()
            .make(self.0)
    }

    /// Reads the reply to `setPowerSavingMode`: success, whatever the result holds.
    pub fn set_power_saving_mode_reply(&self, outcome: HttpOutcome) -> (r: Result<(), Error>)
        ensures
            result_view(r) == done(
                completion(outcome@, false, RequestGetElementTypeView::first()),
            ),
    {
        unit_reply(outcome, false, &RequestGetElementType::Index(0))
    }

    /// The parameter object of `setPowerStatus`.
    pub open spec fn set_power_status_params(status: bool) -> Json {
        let p = Json::empty_object();
        let p = p.with("status"@, Json::Bool(status));
        p
    }

    /// The call of `setPowerStatus`.
    pub open spec fn set_power_status_request(status: bool) -> RequestView {
        call(
            "system"@,
            55,
            "setPowerStatus"@,
            default_version(),
            Some(Self::set_power_status_params(status)),
            true,
            false,
            RequestGetElementTypeView::first(),
        )
    }

    /// Provides the function to change the current power status of the device.
    ///
    /// # Arguments
    /// `status` - Power status.
    ///
    /// # Authentication Level
    /// Generic
    pub fn set_power_status(&self, status: bool) -> (r: Result<HttpRequest, Error>)
        ensures
            result_view(r) == self.0@.prepared(Self::set_power_status_request(status)),
    {
        let mut params = map_new();
        map_insert(&mut params, "status", bool_value(status));
        let params_value = object_value(params);
        let body = RequestBodyBuilder::default()
            .id(55)
            .method("setPowerStatus")
            .params(params_value)
            .build()?;
        RequestBuilder::default()
            .endpoint("system")
            .body(body)
            .is_protected()
            .make(self.0)
    }

    /// Reads the reply to `setPowerStatus`: success, whatever the result holds.
    pub fn set_power_status_reply(&self, outcome: HttpOutcome) -> (r: Result<(), Error>)
        ensures
            result_view(r) == done(
                completion(outcome@, false, RequestGetElementTypeView::first()),
            ),
    {
        unit_reply(outcome, false, &RequestGetElementType::Index(0))
    }

    /// The parameter object of `setWolMode`.
    pub open spec fn set_wol_mode_params(enabled: bool) -> Json {
        let p = Json::empty_object();
        let p = p.with("enabled"@, Json::Bool(enabled));
        p
    }

    /// The call of `setWolMode`.
    pub open spec fn set_wol_mode_request(enabled: bool) -> RequestView {
        call(
            "system"@,
            55,
            "setWolMode"@,
            default_version(),
            Some(Self::set_wol_mode_params(enabled)),
            true,
            false,
            RequestGetElementTypeView::first(),
        )
    }

    /// Changes the WoL (Wake-on-LAN) mode settings of the device.\
    /// The mode indicates whether the device receives the WoL packet to power on.
    ///
    /// # Arguments
    /// `enabled` - Information on the WoL mode setting.
    ///
    /// # Authentication Level
    /// Generic
    pub fn set_wol_mode(&self, enabled: bool) -> (r: Result<HttpRequest, Error>)
        ensures
            result_view(r) == self.0@.prepared(Self::set_wol_mode_request(enabled)),
    {
        let mut params = map_new();
        map_insert(&mut params, "enabled", bool_value(enabled));
        let params_value = object_value(params);
        let body = RequestBodyBuilder::default()
            .id(55)
            .method("setWolMode")
            .params(params_value)
            .build()?;
        RequestBuilder::default()
            .endpoint("system")
            .body(body)
            .is_protected()
            .make(self.0)
    }

    /// Reads the reply to `setWolMode`: success, whatever the result holds.
    pub fn set_wol_mode_reply(&self, outcome: HttpOutcome) -> (r: Result<(), Error>)
        ensures
            result_view(r) == done(
                completion(outcome@, false, RequestGetElementTypeView::first()),
            ),
    {
        unit_reply(outcome, false, &RequestGetElementType::Index(0))
    }

}

} // verus!
