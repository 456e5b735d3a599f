//! Device records and the metadata decoded from them.

use vstd::prelude::*;

use vstd::std_specs::cmp::PartialEqSpec;

use crate::codes::{
    MV_CAMERALINK_DEVICE, MV_GENTL_CAMERALINK_DEVICE, MV_GENTL_CXP_DEVICE, MV_GENTL_GIGE_DEVICE,
    MV_GENTL_VIR_DEVICE, MV_GENTL_XOF_DEVICE, MV_GIGE_DEVICE, MV_USB_DEVICE, MV_VIR_GIGE_DEVICE,
    MV_VIR_USB_DEVICE,
};
use crate::format::{byte_list, byte_list_spec, decimal, decimal_spec, decimal_u64};
use crate::text::{
    c_prefix, same_bytes, sdk_bytes_from_cstr_array, SdkText,
};
use crate::types::TransportLayer;

verus! {

/// Description of a GigE device.
#[derive(Clone, Debug)]
pub struct GigeFields {
    pub manufacturer_name: Vec<u8>,
    pub model_name: Vec<u8>,
    pub serial_number: Vec<u8>,
    pub user_defined_name: Vec<u8>,
    pub device_version: Vec<u8>,
    pub manufacturer_specific_info: Vec<u8>,
    pub current_ip: u32,
    pub current_subnet_mask: u32,
    pub default_gateway: u32,
    pub net_export: u32,
}

/// Description of a USB3 device.
#[derive(Clone, Debug)]
pub struct UsbFields {
    pub manufacturer_name: Vec<u8>,
    pub model_name: Vec<u8>,
    pub serial_number: Vec<u8>,
    pub user_defined_name: Vec<u8>,
    pub device_version: Vec<u8>,
}

/// Description of a native Camera Link device.
#[derive(Clone, Debug)]
pub struct CameraLinkFields {
    pub manufacturer_name: Vec<u8>,
    pub model_name: Vec<u8>,
    pub serial_number: Vec<u8>,
    pub device_version: Vec<u8>,
}

/// Description of a device behind a GenTL frame grabber.
#[derive(Clone, Debug)]
pub struct GentlFields {
    pub vendor_name: Vec<u8>,
    pub model_name: Vec<u8>,
    pub serial_number: Vec<u8>,
    pub user_defined_name: Vec<u8>,
    pub device_version: Vec<u8>,
}

/// One record of the device enumeration.
///
/// The transport type selects the description that applies; the others hold
/// whatever the shared memory of the native record reads as.
#[derive(Clone, Debug)]
pub struct RawDeviceInfo {
    pub major_version: u16,
    pub minor_version: u16,
    pub mac_high: u32,
    pub mac_low: u32,
    pub transport_layer: u32,
    pub device_type_info: u32,
    pub gige: GigeFields,
    pub usb: UsbFields,
    pub camera_link: CameraLinkFields,
    pub gentl_camera_link: GentlFields,
    pub gentl_cxp: GentlFields,
    pub gentl_xof: GentlFields,
    pub gentl_virtual: GentlFields,
    /// The native record itself, byte for byte, for handle creation.
    pub snapshot: Vec<u8>,
}

/// The text fields of one device description, before they are cut at a NUL.
pub ghost struct MetadataView {
    pub manufacturer: Seq<u8>,
    pub model: Seq<u8>,
    pub serial: Seq<u8>,
    pub user_defined_name: Seq<u8>,
    pub device_version: Seq<u8>,
    pub manufacturer_specific_info: Seq<u8>,
}

/// Borrowed text fields of the description that applies to a record.
struct DeviceMetadata<'a> {
    manufacturer: &'a [u8],
    model: &'a [u8],
    serial: &'a [u8],
    user_defined_name: &'a [u8],
    device_version: &'a [u8],
    manufacturer_specific_info: &'a [u8],
}

impl<'a> DeviceMetadata<'a> {
    spec fn fields(self) -> MetadataView {
        MetadataView {
            manufacturer: self.manufacturer@,
            model: self.model@,
            serial: self.serial@,
            user_defined_name: self.user_defined_name@,
            device_version: self.device_version@,
            manufacturer_specific_info: self.manufacturer_specific_info@,
        }
    }
}

impl GentlFields {
    /// The text fields.
    pub open spec fn fields(self) -> MetadataView {
        MetadataView {
            manufacturer: self.vendor_name@,
            model: self.model_name@,
            serial: self.serial_number@,
            user_defined_name: self.user_defined_name@,
            device_version: self.device_version@,
            manufacturer_specific_info: Seq::empty(),
        }
    }

    fn metadata(&self) -> (r: DeviceMetadata<'_>)
        ensures
            r.fields() == self.fields(),
    {
        let absent: &[u8] = &[];
        assert(absent@ =~= Seq::<u8>::empty());
        DeviceMetadata {
            manufacturer: self.vendor_name.as_slice(),
            model: self.model_name.as_slice(),
            serial: self.serial_number.as_slice(),
            user_defined_name: self.user_defined_name.as_slice(),
            device_version: self.device_version.as_slice(),
            manufacturer_specific_info: absent,
        }
    }
}

/// An IPv4 address, as the number that its four octets spell in network order.
#[derive(Copy, Clone, PartialEq, Eq, Structural, Hash, Debug)]
pub struct Ipv4Address(pub u32);

/// The bytes of a word, most significant first.
pub open spec fn be_bytes_spec(v: u32) -> Seq<u8> {
    seq![
        (v / 0x100_0000) as u8,
        ((v / 0x1_0000) % 0x100) as u8,
        ((v / 0x100) % 0x100) as u8,
        (v % 0x100) as u8,
    ]
}

/// The bytes of a word, most significant first.
fn be_bytes(v: u32) -> (r: [u8; 4])
    ensures
        r@ == be_bytes_spec(v),
{
    let r: [u8; 4] = [
        (v / 0x100_0000) as u8,
        ((v / 0x1_0000) % 0x100) as u8,
        ((v / 0x100) % 0x100) as u8,
        (v % 0x100) as u8,
    ];
    assert(r@ =~= be_bytes_spec(v));
    r
}

impl Ipv4Address {
    /// The four octets, in the order in which they are written.
    pub fn octets(self) -> (r: [u8; 4])
        ensures
            r@ == be_bytes_spec(self.0),
    {
        be_bytes(self.0)
    }

    /// The four octets in decimal, with dots between them.
    pub open spec fn text_spec(self) -> Seq<char> {
        let octets = be_bytes_spec(self.0);
        decimal_spec(octets[0] as nat) + "."@ + decimal_spec(octets[1] as nat) + "."@
            + decimal_spec(octets[2] as nat) + "."@ + decimal_spec(octets[3] as nat)
    }

    /// Render the address, such as `192.168.1.2`.
    pub fn text(self) -> (r: String)
        ensures
            r@ == self.text_spec(),
    {
        let octets = self.octets();
        let mut text = decimal(octets[0] as usize);
        text.append(".");
        text.append(decimal(octets[1] as usize).as_str());
        text.append(".");
        text.append(decimal(octets[2] as usize).as_str());
        text.append(".");
        text.append(decimal(octets[3] as usize).as_str());
        text
    }
}

/// Read an address that the SDK keeps as a number.
pub fn ipv4_from_sdk(value: u32) -> (r: Ipv4Address)
    ensures
        r == Ipv4Address(value),
{
    Ipv4Address(value)
}

/// Join the two words of a MAC address into eight bytes, big-endian.
pub fn mac_from_parts(high: u32, low: u32) -> (r: [u8; 8])
    ensures
        r@ == be_bytes_spec(high) + be_bytes_spec(low),
{
    let h = be_bytes(high);
    let l = be_bytes(low);
    let r: [u8; 8] = [h[0], h[1], h[2], h[3], l[0], l[1], l[2], l[3]];
    assert(r@ =~= be_bytes_spec(high) + be_bytes_spec(low));
    r
}

/// SDK text of a fixed field, or the empty text where there is no field.
pub fn sdk_text(bytes: Option<&[u8]>) -> (r: SdkText)
    ensures
        r@ == (match bytes {
            Some(field) => c_prefix(field@),
            None => Seq::empty(),
        }),
{
    match bytes {
        Some(field) => SdkText::from_sdk_bytes(sdk_bytes_from_cstr_array(field)),
        None => SdkText::default(),
    }
}

/// The four addresses of a GigE device.
#[derive(Copy, Clone, PartialEq, Eq, Structural, Debug)]
pub struct GigeAddresses {
    pub current_ip: Option<Ipv4Address>,
    pub current_subnet_mask: Option<Ipv4Address>,
    pub default_gateway: Option<Ipv4Address>,
    pub host_nic_ip: Option<Ipv4Address>,
}

impl RawDeviceInfo {
    /// The text fields of the description that the transport type selects.
    pub open spec fn metadata_spec(self) -> Option<MetadataView> {
        let layer = TransportLayer(self.transport_layer);
        if layer.is_gige_spec() {
            Some(
                MetadataView {
                    manufacturer: self.gige.manufacturer_name@,
                    model: self.gige.model_name@,
                    serial: self.gige.serial_number@,
                    user_defined_name: self.gige.user_defined_name@,
                    device_version: self.gige.device_version@,
                    manufacturer_specific_info: self.gige.manufacturer_specific_info@,
                },
            )
        } else if layer.is_usb_spec() {
            Some(
                MetadataView {
                    manufacturer: self.usb.manufacturer_name@,
                    model: self.usb.model_name@,
                    serial: self.usb.serial_number@,
                    user_defined_name: self.usb.user_defined_name@,
                    device_version: self.usb.device_version@,
                    manufacturer_specific_info: Seq::empty(),
                },
            )
        } else if layer.0 == MV_CAMERALINK_DEVICE {
            Some(
                MetadataView {
                    manufacturer: self.camera_link.manufacturer_name@,
                    model: self.camera_link.model_name@,
                    serial: self.camera_link.serial_number@,
                    user_defined_name: Seq::empty(),
                    device_version: self.camera_link.device_version@,
                    manufacturer_specific_info: Seq::empty(),
                },
            )
        } else if layer.0 == MV_GENTL_CAMERALINK_DEVICE {
            Some(self.gentl_camera_link.fields())
        } else if layer.0 == MV_GENTL_CXP_DEVICE {
            Some(self.gentl_cxp.fields())
        } else if layer.0 == MV_GENTL_XOF_DEVICE {
            Some(self.gentl_xof.fields())
        } else if layer.0 == MV_GENTL_VIR_DEVICE {
            Some(self.gentl_virtual.fields())
        } else {
            None
        }
    }

    /// The addresses, which only GigE devices have.
    pub open spec fn addresses_spec(self) -> GigeAddresses {
        if TransportLayer(self.transport_layer).is_gige_spec() {
            GigeAddresses {
                current_ip: Some(Ipv4Address(self.gige.current_ip)),
                current_subnet_mask: Some(Ipv4Address(self.gige.current_subnet_mask)),
                default_gateway: Some(Ipv4Address(self.gige.default_gateway)),
                host_nic_ip: Some(Ipv4Address(self.gige.net_export)),
            }
        } else {
            GigeAddresses {
                current_ip: None,
                current_subnet_mask: None,
                default_gateway: None,
                host_nic_ip: None,
            }
        }
    }

    /// Whether `properties` are the decoded fields of this record.
    pub open spec fn decodes_to(self, properties: DeviceProperties) -> bool {
        &&& properties.major_version == self.major_version
        &&& properties.minor_version == self.minor_version
        &&& properties.mac_address@ == be_bytes_spec(self.mac_high) + be_bytes_spec(self.mac_low)
        &&& properties.transport_layer == TransportLayer(self.transport_layer)
        &&& properties.device_type_info == self.device_type_info
        &&& properties.addresses() == self.addresses_spec()
        &&& match self.metadata_spec() {
            Some(fields) => {
                &&& properties.manufacturer@ == c_prefix(fields.manufacturer)
                &&& properties.model@ == c_prefix(fields.model)
                &&& properties.device_version@ == c_prefix(fields.device_version)
                &&& properties.manufacturer_specific_info@ == c_prefix(
                    fields.manufacturer_specific_info,
                )
                &&& properties.serial@ == c_prefix(fields.serial)
                &&& properties.user_defined_name@ == c_prefix(fields.user_defined_name)
            },
            None => {
                &&& properties.manufacturer@ == Seq::<u8>::empty()
                &&& properties.model@ == Seq::<u8>::empty()
                &&& properties.device_version@ == Seq::<u8>::empty()
                &&& properties.manufacturer_specific_info@ == Seq::<u8>::empty()
                &&& properties.serial@ == Seq::<u8>::empty()
                &&& properties.user_defined_name@ == Seq::<u8>::empty()
            },
        }
    }

    /// Select the description that the transport type calls for.
    fn metadata(&self) -> (r: Option<DeviceMetadata<'_>>)
        ensures
            match r {
                Some(fields) => self.metadata_spec() == Some(fields.fields()),
                None => self.metadata_spec() is None,
            },
    {
        let layer = TransportLayer::from_raw(self.transport_layer);
        let absent: &[u8] = &[];
        assert(absent@ =~= Seq::<u8>::empty());
        if layer.is_gige() {
            Some(
                DeviceMetadata {
                    manufacturer: self.gige.manufacturer_name.as_slice(),
                    model: self.gige.model_name.as_slice(),
                    serial: self.gige.serial_number.as_slice(),
                    user_defined_name: self.gige.user_defined_name.as_slice(),
                    device_version: self.gige.device_version.as_slice(),
                    manufacturer_specific_info: self.gige.manufacturer_specific_info.as_slice(),
                },
            )
        } else if layer.is_usb() {
            Some(
                DeviceMetadata {
                    manufacturer: self.usb.manufacturer_name.as_slice(),
                    model: self.usb.model_name.as_slice(),
                    serial: self.usb.serial_number.as_slice(),
                    user_defined_name: self.usb.user_defined_name.as_slice(),
                    device_version: self.usb.device_version.as_slice(),
                    manufacturer_specific_info: absent,
                },
            )
        } else if layer.raw() == MV_CAMERALINK_DEVICE {
            Some(
                DeviceMetadata {
                    manufacturer: self.camera_link.manufacturer_name.as_slice(),
                    model: self.camera_link.model_name.as_slice(),
                    serial: self.camera_link.serial_number.as_slice(),
                    user_defined_name: absent,
                    device_version: self.camera_link.device_version.as_slice(),
                    manufacturer_specific_info: absent,
                },
            )
        } else if layer.raw() == MV_GENTL_CAMERALINK_DEVICE {
            Some(self.gentl_camera_link.metadata())
        } else if layer.raw() == MV_GENTL_CXP_DEVICE {
            Some(self.gentl_cxp.metadata())
        } else if layer.raw() == MV_GENTL_XOF_DEVICE {
            Some(self.gentl_xof.metadata())
        } else if layer.raw() == MV_GENTL_VIR_DEVICE {
            Some(self.gentl_virtual.metadata())
        } else {
            None
        }
    }

    /// Return whether the record describes a GigE device.
    pub fn is_gige_transport(&self) -> (r: bool)
        ensures
            r == TransportLayer(self.transport_layer).is_gige_spec(),
    {
        TransportLayer::from_raw(self.transport_layer).is_gige()
    }

    /// Read the addresses of a GigE device.
    pub fn gige_addresses(&self) -> (r: GigeAddresses)
        ensures
            r == self.addresses_spec(),
    {
        if !self.is_gige_transport() {
            return GigeAddresses {
                current_ip: None,
                current_subnet_mask: None,
                default_gateway: None,
                host_nic_ip: None,
            };
        }
        GigeAddresses {
            current_ip: Some(ipv4_from_sdk(self.gige.current_ip)),
            current_subnet_mask: Some(ipv4_from_sdk(self.gige.current_subnet_mask)),
            default_gateway: Some(ipv4_from_sdk(self.gige.default_gateway)),
            host_nic_ip: Some(ipv4_from_sdk(self.gige.net_export)),
        }
    }

    /// Decode the fields that are common to every transport.
    pub fn decode(&self) -> (r: DeviceProperties)
        ensures
            self.decodes_to(r),
    {
        let metadata = self.metadata();
        let addresses = self.gige_addresses();
        let (manufacturer, model, serial, user_defined_name, device_version, specific) =
            match metadata {
            Some(fields) => (
                sdk_text(Some(fields.manufacturer)),
                sdk_text(Some(fields.model)),
                sdk_text(Some(fields.serial)),
                sdk_text(Some(fields.user_defined_name)),
                sdk_text(Some(fields.device_version)),
                sdk_text(Some(fields.manufacturer_specific_info)),
            ),
            None => (
                sdk_text(None),
                sdk_text(None),
                sdk_text(None),
                sdk_text(None),
                sdk_text(None),
                sdk_text(None),
            ),
        };
        DeviceProperties {
            major_version: self.major_version,
            minor_version: self.minor_version,
            mac_address: mac_from_parts(self.mac_high, self.mac_low),
            transport_layer: TransportLayer::from_raw(self.transport_layer),
            device_type_info: self.device_type_info,
            manufacturer,
            model,
            device_version,
            manufacturer_specific_info: specific,
            serial,
            user_defined_name,
            current_ip: addresses.current_ip,
            current_subnet_mask: addresses.current_subnet_mask,
            default_gateway: addresses.default_gateway,
            host_nic_ip: addresses.host_nic_ip,
        }
    }
}

/// Fields decoded from a device record.
///
/// The common subset of what the transports report; texts keep their raw bytes.
#[derive(Clone, Eq)]
#[non_exhaustive]
pub struct DeviceProperties {
    /// Major version of the record.
    pub major_version: u16,
    /// Minor version of the record.
    pub minor_version: u16,
    /// The two words of the MAC address, joined big-endian.
    pub mac_address: [u8; 8],
    /// Transport type; the SDK writes a single device type here.
    pub transport_layer: TransportLayer,
    /// Device type information.
    pub device_type_info: u32,
    /// Manufacturer name.
    pub manufacturer: SdkText,
    /// Model name.
    pub model: SdkText,
    /// Device version; empty where there is no such field.
    pub device_version: SdkText,
    /// Manufacturer's additional information of a GigE device; empty for the
    /// other transports.
    pub manufacturer_specific_info: SdkText,
    /// Serial number.
    pub serial: SdkText,
    /// User-defined name; empty where there is no such field.
    pub user_defined_name: SdkText,
    /// Current address of a GigE device.
    pub current_ip: Option<Ipv4Address>,
    /// Current subnet mask of a GigE device.
    pub current_subnet_mask: Option<Ipv4Address>,
    /// Default gateway of a GigE device.
    pub default_gateway: Option<Ipv4Address>,
    /// Address of the host interface of a GigE device.
    pub host_nic_ip: Option<Ipv4Address>,
}

/// Diagnostic text of an optional address.
pub open spec fn address_debug_spec(address: Option<Ipv4Address>) -> Seq<char> {
    match address {
        Some(address) => "Some("@ + address.text_spec() + ")"@,
        None => "None"@,
    }
}

/// Diagnostic text of an optional address.
fn address_debug(address: Option<Ipv4Address>) -> (r: String)
    ensures
        r@ == address_debug_spec(address),
{
    match address {
        Some(address) => {
            let mut text = "Some(".to_owned();
            text.append(address.text().as_str());
            text.append(")");
            text
        },
        None => "None".to_owned(),
    }
}

/// Whether two optional addresses are equal.
fn same_address(a: Option<Ipv4Address>, b: Option<Ipv4Address>) -> (r: bool)
    ensures
        r == (a == b),
{
    match a {
        Some(x) => match b {
            Some(y) => x == y,
            None => false,
        },
        None => b.is_none(),
    }
}

impl DeviceProperties {
    /// The four address fields.
    pub open spec fn addresses(self) -> GigeAddresses {
        GigeAddresses {
            current_ip: self.current_ip,
            current_subnet_mask: self.current_subnet_mask,
            default_gateway: self.default_gateway,
            host_nic_ip: self.host_nic_ip,
        }
    }

    /// Diagnostic text of every field.
    pub open spec fn debug_text_spec(self) -> Seq<char> {
        "DeviceProperties { major_version: "@ + decimal_spec(self.major_version as nat)
            + ", minor_version: "@ + decimal_spec(self.minor_version as nat)
            + ", mac_address: "@ + byte_list_spec(self.mac_address@)
            + ", transport_layer: "@ + self.transport_layer.debug_text_spec()
            + ", device_type_info: "@ + decimal_spec(self.device_type_info as nat)
            + ", manufacturer: "@ + self.manufacturer.debug_text_spec()
            + ", model: "@ + self.model.debug_text_spec()
            + ", device_version: "@ + self.device_version.debug_text_spec()
            + ", manufacturer_specific_info: "@ + self.manufacturer_specific_info.debug_text_spec()
            + ", serial: "@ + self.serial.debug_text_spec()
            + ", user_defined_name: "@ + self.user_defined_name.debug_text_spec()
            + ", current_ip: "@ + address_debug_spec(self.current_ip)
            + ", current_subnet_mask: "@ + address_debug_spec(self.current_subnet_mask)
            + ", default_gateway: "@ + address_debug_spec(self.default_gateway)
            + ", host_nic_ip: "@ + address_debug_spec(self.host_nic_ip)
            + " }"@
    }

    /// Diagnostic text: every field, by name.
    pub fn debug_text(&self) -> (r: String)
        ensures
            r@ == self.debug_text_spec(),
    {
        let mut text = "DeviceProperties { major_version: ".to_owned();
        text.append(decimal_u64(self.major_version as u64).as_str());
        text.append(", minor_version: ");
        text.append(decimal_u64(self.minor_version as u64).as_str());
        text.append(", mac_address: ");
        text.append(byte_list(self.mac_address.as_slice()).as_str());
        text.append(", transport_layer: ");
        text.append(self.transport_layer.debug_text().as_str());
        text.append(", device_type_info: ");
        text.append(decimal_u64(self.device_type_info as u64).as_str());
        text.append(", manufacturer: ");
        text.append(self.manufacturer.debug_text().as_str());
        text.append(", model: ");
        text.append(self.model.debug_text().as_str());
        text.append(", device_version: ");
        text.append(self.device_version.debug_text().as_str());
        text.append(", manufacturer_specific_info: ");
        text.append(self.manufacturer_specific_info.debug_text().as_str());
        text.append(", serial: ");
        text.append(self.serial.debug_text().as_str());
        text.append(", user_defined_name: ");
        text.append(self.user_defined_name.debug_text().as_str());
        text.append(", current_ip: ");
        text.append(address_debug(self.current_ip).as_str());
        text.append(", current_subnet_mask: ");
        text.append(address_debug(self.current_subnet_mask).as_str());
        text.append(", default_gateway: ");
        text.append(address_debug(self.default_gateway).as_str());
        text.append(", host_nic_ip: ");
        text.append(address_debug(self.host_nic_ip).as_str());
        text.append(" }");
        text
    }

    /// Whether every field is equal.
    pub open spec fn same_fields(self, other: Self) -> bool {
        &&& self.major_version == other.major_version
        &&& self.minor_version == other.minor_version
        &&& self.mac_address@ == other.mac_address@
        &&& self.transport_layer == other.transport_layer
        &&& self.device_type_info == other.device_type_info
        &&& self.manufacturer@ == other.manufacturer@
        &&& self.model@ == other.model@
        &&& self.device_version@ == other.device_version@
        &&& self.manufacturer_specific_info@ == other.manufacturer_specific_info@
        &&& self.serial@ == other.serial@
        &&& self.user_defined_name@ == other.user_defined_name@
        &&& self.addresses() == other.addresses()
    }
}

impl PartialEq for DeviceProperties {
    fn eq(&self, other: &Self) -> (r: bool) {
        self.major_version == other.major_version && self.minor_version == other.minor_version
            && same_bytes(self.mac_address.as_slice(), other.mac_address.as_slice())
            && self.transport_layer == other.transport_layer && self.device_type_info
            == other.device_type_info && self.manufacturer == other.manufacturer && self.model
            == other.model && self.device_version == other.device_version
            && self.manufacturer_specific_info == other.manufacturer_specific_info && self.serial
            == other.serial && self.user_defined_name == other.user_defined_name && same_address(
            self.current_ip,
            other.current_ip,
        ) && same_address(self.current_subnet_mask, other.current_subnet_mask) && same_address(
            self.default_gateway,
            other.default_gateway,
        ) && same_address(self.host_nic_ip, other.host_nic_ip)
    }
}

impl vstd::std_specs::cmp::PartialEqSpecImpl for DeviceProperties {
    open spec fn obeys_eq_spec() -> bool {
        true
    }

    open spec fn eq_spec(&self, other: &Self) -> bool {
        self.same_fields(*other)
    }
}

/// Snapshot of one enumerated device.
///
/// The value holds no session; opening and accessibility queries are methods
/// of [`Sdk`](crate::Sdk).
#[derive(Clone)]
#[non_exhaustive]
pub struct DeviceInfo {
    /// The decoded fields.
    pub properties: DeviceProperties,
    /// The record that the fields were decoded from.
    pub record: RawDeviceInfo,
}

impl DeviceInfo {
    /// Whether the snapshot holds `record` and its decoded fields.
    pub open spec fn is_snapshot_of(self, record: RawDeviceInfo) -> bool {
        &&& self.record == record
        &&& record.decodes_to(self.properties)
    }

    /// Decode a record and keep it.
    pub fn from_record(record: RawDeviceInfo) -> (r: Self)
        ensures
            r.is_snapshot_of(record),
    {
        DeviceInfo { properties: record.decode(), record }
    }

    /// Borrow the record, for handle creation and accessibility queries.
    pub fn as_raw(&self) -> (r: &RawDeviceInfo)
        ensures
            *r == self.record,
    {
        &self.record
    }

    /// Diagnostic text of the fields that tell devices apart.
    pub open spec fn debug_text_spec(self) -> Seq<char> {
        "DeviceInfo { transport_layer: "@ + self.properties.transport_layer.debug_text_spec()
            + ", manufacturer: "@ + self.properties.manufacturer.debug_text_spec()
            + ", model: "@ + self.properties.model.debug_text_spec()
            + ", serial: "@ + self.properties.serial.debug_text_spec()
            + ", user_defined_name: "@ + self.properties.user_defined_name.debug_text_spec()
            + ", current_ip: "@ + address_debug_spec(self.properties.current_ip)
            + " }"@
    }

    /// Diagnostic text: the fields that tell devices apart, by name.
    pub fn debug_text(&self) -> (r: String)
        ensures
            r@ == self.debug_text_spec(),
    {
        let mut text = "DeviceInfo { transport_layer: ".to_owned();
        text.append(self.properties.transport_layer.debug_text().as_str());
        text.append(", manufacturer: ");
        text.append(self.properties.manufacturer.debug_text().as_str());
        text.append(", model: ");
        text.append(self.properties.model.debug_text().as_str());
        text.append(", serial: ");
        text.append(self.properties.serial.debug_text().as_str());
        text.append(", user_defined_name: ");
        text.append(self.properties.user_defined_name.debug_text().as_str());
        text.append(", current_ip: ");
        text.append(address_debug(self.properties.current_ip).as_str());
        text.append(" }");
        text
    }

    /// Return whether the device uses a GigE transport.
    pub fn is_gige(&self) -> (r: bool)
        ensures
            r == self.properties.transport_layer.is_gige_spec(),
    {
        self.properties.transport_layer.is_gige()
    }

    /// Return whether the device uses a USB transport.
    pub fn is_usb(&self) -> (r: bool)
        ensures
            r == self.properties.transport_layer.is_usb_spec(),
    {
        self.properties.transport_layer.is_usb()
    }
}

impl PartialEq for DeviceInfo {
    /// Equality goes by the decoded fields alone.
    fn eq(&self, other: &Self) -> (r: bool) {
        self.properties == other.properties
    }
}

impl vstd::std_specs::cmp::PartialEqSpecImpl for DeviceInfo {
    open spec fn obeys_eq_spec() -> bool {
        true
    }

    open spec fn eq_spec(&self, other: &Self) -> bool {
        self.properties.same_fields(other.properties)
    }
}

impl Eq for DeviceInfo {

}

/// The entries that hold a record, in order.
pub open spec fn present_records(entries: Seq<Option<RawDeviceInfo>>) -> Seq<RawDeviceInfo>
    decreases entries.len(),
{
    if entries.len() == 0 {
        Seq::empty()
    } else {
        let before = present_records(entries.drop_last());
        match entries.last() {
            Some(record) => before.push(record),
            None => before,
        }
    }
}

/// The entries of a device list that the SDK declares filled, up to the
/// capacity of the list.
pub open spec fn listed(device_num: u32, entries: Seq<Option<RawDeviceInfo>>) -> Seq<
    Option<RawDeviceInfo>,
> {
    if device_num <= entries.len() {
        entries.take(device_num as int)
    } else {
        entries
    }
}

/// Turn the SDK's device list into snapshots: the declared number of entries,
/// at most as many as the list holds, without the empty ones.
pub fn devices_from_list(device_num: u32, entries: Vec<Option<RawDeviceInfo>>) -> (r: Vec<
    DeviceInfo,
>)
    ensures
        r@.len() == present_records(listed(device_num, entries@)).len(),
        forall|i: int|
            0 <= i < r@.len() ==> (#[trigger] r@[i]).is_snapshot_of(
                present_records(listed(device_num, entries@))[i],
            ),
{
    let mut rest = entries;
    let ghost all = listed(device_num, entries@);
    if (device_num as usize) < rest.len() {
        rest.truncate(device_num as usize);
    }
    assert(rest@ =~= all);
    let mut devices: Vec<DeviceInfo> = Vec::new();
    let mut i: usize = 0;
    assert(all.take(0) =~= Seq::empty());
    while i < rest.len()
        invariant
            i <= rest@.len(),
            rest@.len() == all.len(),
            forall|j: int| i <= j < rest@.len() ==> rest@[j] == all[j],
            devices@.len() == present_records(all.take(i as int)).len(),
            forall|j: int|
                0 <= j < devices@.len() ==> (#[trigger] devices@[j]).is_snapshot_of(
                    present_records(all.take(i as int))[j],
                ),
        decreases rest@.len() - i,
    {
        assert(all.take(i + 1).drop_last() =~= all.take(i as int));
        assert(all.take(i + 1).last() == all[i as int]);
        match rest[i].take() {
            Some(record) => {
                devices.push(DeviceInfo::from_record(record));
            },
            None => {},
        }
        i += 1;
    }
    assert(all.take(i as int) =~= all);
    devices
}

/// A snapshot has addresses exactly when its transport is GigE, and then all
/// four of them.
pub proof fn law_addresses_go_with_gige(record: RawDeviceInfo, device: DeviceInfo)
    requires
        device.is_snapshot_of(record),
    ensures
        device.properties.transport_layer.is_gige_spec()
            == device.properties.current_ip is Some,
        device.properties.current_ip is Some == device.properties.current_subnet_mask is Some,
        device.properties.current_ip is Some == device.properties.default_gateway is Some,
        device.properties.current_ip is Some == device.properties.host_nic_ip is Some,
{
}

/// Only GigE devices have additional information from their manufacturer.
pub proof fn law_specific_info_goes_with_gige(record: RawDeviceInfo, device: DeviceInfo)
    requires
        device.is_snapshot_of(record),
        !device.properties.transport_layer.is_gige_spec(),
    ensures
        device.properties.manufacturer_specific_info@ == Seq::<u8>::empty(),
{
    let none = Seq::<u8>::empty();
    none.index_of_first_ensures(0u8);
    assert(c_prefix(none) =~= none);
}

/// Snapshots of one record are equal, whatever the order in which they were
/// taken.
pub proof fn law_snapshots_of_one_record_are_equal(
    record: RawDeviceInfo,
    a: DeviceInfo,
    b: DeviceInfo,
)
    requires
        a.is_snapshot_of(record),
        b.is_snapshot_of(record),
    ensures
        a.properties.same_fields(b.properties),
{
}

/// Enumeration never yields more devices than the SDK declared or than its
/// list can hold.
pub proof fn law_enumeration_is_bounded(device_num: u32, entries: Seq<Option<RawDeviceInfo>>)
    ensures
        present_records(listed(device_num, entries)).len() <= device_num,
        present_records(listed(device_num, entries)).len() <= entries.len(),
{
    lemma_present_records_shrink(listed(device_num, entries));
}

/// Dropping empty entries does not lengthen a list.
proof fn lemma_present_records_shrink(entries: Seq<Option<RawDeviceInfo>>)
    ensures
        present_records(entries).len() <= entries.len(),
    decreases entries.len(),
{
    if entries.len() > 0 {
        lemma_present_records_shrink(entries.drop_last());
    }
}

/// Each text of a device is the C text of the field of that name, in the
/// description that the device's transport calls for; a text without such a
/// field is empty.
pub proof fn law_texts_come_from_their_fields(record: RawDeviceInfo, device: DeviceInfo)
    requires
        device.is_snapshot_of(record),
    ensures
        (record.transport_layer == MV_GIGE_DEVICE || record.transport_layer == MV_VIR_GIGE_DEVICE
            || record.transport_layer == MV_GENTL_GIGE_DEVICE) ==> {
            &&& device.properties.manufacturer@ == c_prefix(record.gige.manufacturer_name@)
            &&& device.properties.model@ == c_prefix(record.gige.model_name@)
            &&& device.properties.serial@ == c_prefix(record.gige.serial_number@)
            &&& device.properties.user_defined_name@ == c_prefix(record.gige.user_defined_name@)
            &&& device.properties.device_version@ == c_prefix(record.gige.device_version@)
            &&& device.properties.manufacturer_specific_info@ == c_prefix(record.gige.manufacturer_specific_info@)
        },
        (record.transport_layer == MV_USB_DEVICE || record.transport_layer == MV_VIR_USB_DEVICE) ==> {
            &&& device.properties.manufacturer@ == c_prefix(record.usb.manufacturer_name@)
            &&& device.properties.model@ == c_prefix(record.usb.model_name@)
            &&& device.properties.serial@ == c_prefix(record.usb.serial_number@)
            &&& device.properties.user_defined_name@ == c_prefix(record.usb.user_defined_name@)
            &&& device.properties.device_version@ == c_prefix(record.usb.device_version@)
            &&& device.properties.manufacturer_specific_info@.len() == 0
        },
        record.transport_layer == MV_CAMERALINK_DEVICE ==> {
            &&& device.properties.manufacturer@ == c_prefix(record.camera_link.manufacturer_name@)
            &&& device.properties.model@ == c_prefix(record.camera_link.model_name@)
            &&& device.properties.serial@ == c_prefix(record.camera_link.serial_number@)
            &&& device.properties.user_defined_name@.len() == 0
            &&& device.properties.device_version@ == c_prefix(record.camera_link.device_version@)
            &&& device.properties.manufacturer_specific_info@.len() == 0
        },
        record.transport_layer == MV_GENTL_CAMERALINK_DEVICE ==> {
            &&& device.properties.manufacturer@ == c_prefix(record.gentl_camera_link.vendor_name@)
            &&& device.properties.model@ == c_prefix(record.gentl_camera_link.model_name@)
            &&& device.properties.serial@ == c_prefix(record.gentl_camera_link.serial_number@)
            &&& device.properties.user_defined_name@ == c_prefix(record.gentl_camera_link.user_defined_name@)
            &&& device.properties.device_version@ == c_prefix(record.gentl_camera_link.device_version@)
            &&& device.properties.manufacturer_specific_info@.len() == 0
        },
        record.transport_layer == MV_GENTL_CXP_DEVICE ==> {
            &&& device.properties.manufacturer@ == c_prefix(record.gentl_cxp.vendor_name@)
            &&& device.properties.model@ == c_prefix(record.gentl_cxp.model_name@)
            &&& device.properties.serial@ == c_prefix(record.gentl_cxp.serial_number@)
            &&& device.properties.user_defined_name@ == c_prefix(record.gentl_cxp.user_defined_name@)
            &&& device.properties.device_version@ == c_prefix(record.gentl_cxp.device_version@)
            &&& device.properties.manufacturer_specific_info@.len() == 0
        },
        record.transport_layer == MV_GENTL_XOF_DEVICE ==> {
            &&& device.properties.manufacturer@ == c_prefix(record.gentl_xof.vendor_name@)
            &&& device.properties.model@ == c_prefix(record.gentl_xof.model_name@)
            &&& device.properties.serial@ == c_prefix(record.gentl_xof.serial_number@)
            &&& device.properties.user_defined_name@ == c_prefix(record.gentl_xof.user_defined_name@)
            &&& device.properties.device_version@ == c_prefix(record.gentl_xof.device_version@)
            &&& device.properties.manufacturer_specific_info@.len() == 0
        },
        record.transport_layer == MV_GENTL_VIR_DEVICE ==> {
            &&& device.properties.manufacturer@ == c_prefix(record.gentl_virtual.vendor_name@)
            &&& device.properties.model@ == c_prefix(record.gentl_virtual.model_name@)
            &&& device.properties.serial@ == c_prefix(record.gentl_virtual.serial_number@)
            &&& device.properties.user_defined_name@ == c_prefix(record.gentl_virtual.user_defined_name@)
            &&& device.properties.device_version@ == c_prefix(record.gentl_virtual.device_version@)
            &&& device.properties.manufacturer_specific_info@.len() == 0
        },
{
    let none = Seq::<u8>::empty();
    none.index_of_first_ensures(0u8);
    assert(c_prefix(none) =~= none);
}

/// A device of no known single transport has no texts.
pub proof fn law_unknown_transports_have_no_texts(record: RawDeviceInfo, device: DeviceInfo)
    requires
        device.is_snapshot_of(record),
        record.transport_layer != MV_GIGE_DEVICE,
        record.transport_layer != MV_VIR_GIGE_DEVICE,
        record.transport_layer != MV_GENTL_GIGE_DEVICE,
        record.transport_layer != MV_USB_DEVICE,
        record.transport_layer != MV_VIR_USB_DEVICE,
        record.transport_layer != MV_CAMERALINK_DEVICE,
        record.transport_layer != MV_GENTL_CAMERALINK_DEVICE,
        record.transport_layer != MV_GENTL_CXP_DEVICE,
        record.transport_layer != MV_GENTL_XOF_DEVICE,
        record.transport_layer != MV_GENTL_VIR_DEVICE,
    ensures
        device.properties.manufacturer@.len() == 0,
        device.properties.model@.len() == 0,
        device.properties.serial@.len() == 0,
        device.properties.user_defined_name@.len() == 0,
        device.properties.device_version@.len() == 0,
        device.properties.manufacturer_specific_info@.len() == 0,
{
}

/// A device keeps the numbers of its record and the record itself. The bytes of
/// its MAC address spell the high word and then the low word.
pub proof fn law_numbers_come_from_the_record(record: RawDeviceInfo, device: DeviceInfo)
    requires
        device.is_snapshot_of(record),
    ensures
        device.record == record,
        device.properties.major_version == record.major_version,
        device.properties.minor_version == record.minor_version,
        device.properties.transport_layer.0 == record.transport_layer,
        device.properties.device_type_info == record.device_type_info,
        device.properties.mac_address@.len() == 8,
        record.mac_high == 0x100_0000 * device.properties.mac_address@[0] + 0x1_0000
            * device.properties.mac_address@[1] + 0x100 * device.properties.mac_address@[2]
            + device.properties.mac_address@[3],
        record.mac_low == 0x100_0000 * device.properties.mac_address@[4] + 0x1_0000
            * device.properties.mac_address@[5] + 0x100 * device.properties.mac_address@[6]
            + device.properties.mac_address@[7],
{
    law_bytes_spell_the_word(record.mac_high);
    law_bytes_spell_the_word(record.mac_low);
    let joined = be_bytes_spec(record.mac_high) + be_bytes_spec(record.mac_low);
    assert(joined[4] == be_bytes_spec(record.mac_low)[0]);
    assert(joined[5] == be_bytes_spec(record.mac_low)[1]);
    assert(joined[6] == be_bytes_spec(record.mac_low)[2]);
    assert(joined[7] == be_bytes_spec(record.mac_low)[3]);
}

/// The addresses of a GigE device are the four that its description reports,
/// each in its place, and other devices have none.
pub proof fn law_addresses_come_from_their_fields(record: RawDeviceInfo, device: DeviceInfo)
    requires
        device.is_snapshot_of(record),
    ensures
        (record.transport_layer == MV_GIGE_DEVICE || record.transport_layer == MV_VIR_GIGE_DEVICE
            || record.transport_layer == MV_GENTL_GIGE_DEVICE) ==> {
            &&& device.properties.current_ip matches Some(ip) && ip.0 == record.gige.current_ip
            &&& device.properties.current_subnet_mask matches Some(ip) && ip.0
                == record.gige.current_subnet_mask
            &&& device.properties.default_gateway matches Some(ip) && ip.0
                == record.gige.default_gateway
            &&& device.properties.host_nic_ip matches Some(ip) && ip.0 == record.gige.net_export
        },
        !(record.transport_layer == MV_GIGE_DEVICE || record.transport_layer == MV_VIR_GIGE_DEVICE
            || record.transport_layer == MV_GENTL_GIGE_DEVICE) ==> {
            &&& device.properties.current_ip is None
            &&& device.properties.current_subnet_mask is None
            &&& device.properties.default_gateway is None
            &&& device.properties.host_nic_ip is None
        },
{
}

/// The bytes of a word spell it, most significant first.
pub proof fn law_bytes_spell_the_word(v: u32)
    ensures
        be_bytes_spec(v).len() == 4,
        v == 0x100_0000 * be_bytes_spec(v)[0] + 0x1_0000 * be_bytes_spec(v)[1] + 0x100
            * be_bytes_spec(v)[2] + be_bytes_spec(v)[3],
{
}

/// An address is written as its four octets in decimal, first octet first.
pub proof fn law_addresses_are_written_octet_by_octet(address: Ipv4Address)
    ensures
        address.text_spec() == decimal_spec((address.0 / 0x100_0000) as nat) + "."@
            + decimal_spec(((address.0 / 0x1_0000) % 0x100) as nat) + "."@ + decimal_spec(
            ((address.0 / 0x100) % 0x100) as nat,
        ) + "."@ + decimal_spec((address.0 % 0x100) as nat),
{
}

/// Devices compare equal exactly when every decoded field is equal.
pub proof fn law_equality_looks_at_every_field(a: DeviceProperties, b: DeviceProperties)
    ensures
        a.same_fields(b) <==> {
            &&& a.major_version == b.major_version
            &&& a.minor_version == b.minor_version
            &&& a.mac_address@ == b.mac_address@
            &&& a.transport_layer.0 == b.transport_layer.0
            &&& a.device_type_info == b.device_type_info
            &&& a.manufacturer@ == b.manufacturer@
            &&& a.model@ == b.model@
            &&& a.device_version@ == b.device_version@
            &&& a.manufacturer_specific_info@ == b.manufacturer_specific_info@
            &&& a.serial@ == b.serial@
            &&& a.user_defined_name@ == b.user_defined_name@
            &&& a.current_ip == b.current_ip
            &&& a.current_subnet_mask == b.current_subnet_mask
            &&& a.default_gateway == b.default_gateway
            &&& a.host_nic_ip == b.host_nic_ip
        },
{
}

/// Enumeration keeps exactly the entries that hold a record, in their order.
pub proof fn law_enumeration_keeps_every_record(entries: Seq<Option<RawDeviceInfo>>)
    ensures
        present_records(entries) == entries.filter(
            |entry: Option<RawDeviceInfo>| entry is Some,
        ).map_values(|entry: Option<RawDeviceInfo>| entry->0),
    decreases entries.len(),
{
    let holds = |entry: Option<RawDeviceInfo>| entry is Some;
    let record = |entry: Option<RawDeviceInfo>| entry->0;
    reveal(Seq::filter);
    if entries.len() > 0 {
        law_enumeration_keeps_every_record(entries.drop_last());
        let before = entries.drop_last().filter(holds);
        if entries.last() is Some {
            assert(entries.filter(holds) == before.push(entries.last()));
            assert(before.push(entries.last()).map_values(record) =~= before.map_values(
                record,
            ).push(entries.last()->0));
        } else {
            assert(entries.filter(holds) == before);
        }
    } else {
        assert(entries.filter(holds).map_values(record) =~= Seq::empty());
    }
}

/// The entries that count are the declared number of entries from the front, or
/// all of them where more are declared than there are.
pub proof fn law_declared_entries_count(device_num: u32, entries: Seq<Option<RawDeviceInfo>>)
    ensures
        device_num <= entries.len() ==> listed(device_num, entries).len() == device_num,
        device_num > entries.len() ==> listed(device_num, entries).len() == entries.len(),
        forall|i: int|
            0 <= i < listed(device_num, entries).len() ==> listed(device_num, entries)[i]
                == entries[i],
{
}

/// An address is shown in parentheses where there is one, and named as missing
/// where there is none.
pub proof fn law_optional_addresses_are_shown(address: Option<Ipv4Address>)
    ensures
        address matches Some(ip) ==> address_debug_spec(address) == "Some("@ + ip.text_spec()
            + ")"@,
        address is None ==> address_debug_spec(address) == "None"@,
{
}

/// The diagnostic texts of a device show its fields by name, each with its own
/// value: all of them for the properties, and for the device itself those that
/// tell devices apart.
pub proof fn law_device_texts_show_their_fields(device: DeviceInfo)
    ensures
        device.debug_text_spec() == "DeviceInfo { transport_layer: "@
            + device.properties.transport_layer.debug_text_spec() + ", manufacturer: "@
            + device.properties.manufacturer.debug_text_spec() + ", model: "@
            + device.properties.model.debug_text_spec() + ", serial: "@
            + device.properties.serial.debug_text_spec() + ", user_defined_name: "@
            + device.properties.user_defined_name.debug_text_spec() + ", current_ip: "@
            + address_debug_spec(device.properties.current_ip) + " }"@,
        device.properties.debug_text_spec() == "DeviceProperties { major_version: "@ + decimal_spec(
            device.properties.major_version as nat,
        ) + ", minor_version: "@ + decimal_spec(device.properties.minor_version as nat)
            + ", mac_address: "@ + byte_list_spec(device.properties.mac_address@)
            + ", transport_layer: "@ + device.properties.transport_layer.debug_text_spec()
            + ", device_type_info: "@ + decimal_spec(device.properties.device_type_info as nat)
            + ", manufacturer: "@ + device.properties.manufacturer.debug_text_spec()
            + ", model: "@ + device.properties.model.debug_text_spec() + ", device_version: "@
            + device.properties.device_version.debug_text_spec()
            + ", manufacturer_specific_info: "@
            + device.properties.manufacturer_specific_info.debug_text_spec() + ", serial: "@
            + device.properties.serial.debug_text_spec() + ", user_defined_name: "@
            + device.properties.user_defined_name.debug_text_spec() + ", current_ip: "@
            + address_debug_spec(device.properties.current_ip) + ", current_subnet_mask: "@
            + address_debug_spec(device.properties.current_subnet_mask) + ", default_gateway: "@
            + address_debug_spec(device.properties.default_gateway) + ", host_nic_ip: "@
            + address_debug_spec(device.properties.host_nic_ip) + " }"@,
{
}

/// Properties are compared by all their fields, and devices by their
/// properties alone.
pub proof fn law_devices_compare_by_their_properties(a: DeviceInfo, b: DeviceInfo)
    ensures
        DeviceProperties::obeys_eq_spec(),
        DeviceInfo::obeys_eq_spec(),
        a.eq_spec(&b) <==> a.properties.eq_spec(&b.properties),
        a.properties.eq_spec(&b.properties) <==> a.properties.same_fields(b.properties),
{
}

} // verus!
