//! Plain value types: access modes, node values, transport sets and pixel
//! formats.

use vstd::prelude::*;

use vstd::std_specs::ops::BitOrSpec;

use crate::codes::{
    MV_ACCESS_EXCLUSIVE, MV_ACCESS_EXCLUSIVE_WITH_SWITCH, MV_ACCESS_CONTROL,
    MV_ACCESS_CONTROL_WITH_SWITCH, MV_ACCESS_CONTROL_SWITCH_ENABLE,
    MV_ACCESS_CONTROL_SWITCH_ENABLE_WITH_KEY, MV_ACCESS_MONITOR, MV_UNKNOW_DEVICE,
    MV_GIGE_DEVICE, MV_1394_DEVICE, MV_USB_DEVICE, MV_CAMERALINK_DEVICE, MV_VIR_GIGE_DEVICE,
    MV_VIR_USB_DEVICE, MV_GENTL_GIGE_DEVICE, MV_GENTL_CAMERALINK_DEVICE, MV_GENTL_CXP_DEVICE,
    MV_GENTL_XOF_DEVICE, MV_GENTL_VIR_DEVICE, PIXEL_UNDEFINED, PIXEL_MONO8, PIXEL_MONO10,
    PIXEL_MONO10_PACKED, PIXEL_MONO12, PIXEL_MONO12_PACKED, PIXEL_MONO14, PIXEL_MONO16,
    PIXEL_BAYER_GR8, PIXEL_BAYER_RG8, PIXEL_BAYER_GB8, PIXEL_BAYER_BG8, PIXEL_RGB8_PACKED,
    PIXEL_BGR8_PACKED, PIXEL_RGBA8_PACKED, PIXEL_BGRA8_PACKED, PIXEL_YUV422_PACKED,
    PIXEL_YUV422_YUYV_PACKED,
};
use crate::format::{hex8, hex8_spec, hex_value, law_hex8_text_spells_the_number};

verus! {

/// Device access mode passed to [`Sdk::open`](crate::Sdk::open).
///
/// The mode and the switchover key are meaningful for native GigE devices.
/// GenTL GigE devices accept only exclusive, control, or monitor access; the
/// other transports ignore both parameters and open with control access.
#[derive(Copy, Clone, PartialEq, Eq, Structural, Debug)]
pub enum AccessMode {
    /// Exclusive control of the device.
    Exclusive,
    /// Exclusive control while allowing the device's control owner to switch.
    ExclusiveWithSwitch,
    /// Control access without exclusive ownership.
    Control,
    /// Control access while allowing the control owner to switch.
    ControlWithSwitch,
    /// Enable control-owner switching without a key.
    ControlSwitchEnable,
    /// Enable control-owner switching with a key supplied to `Sdk::open`.
    ControlSwitchEnableWithKey,
    /// Read-only monitoring access.
    Monitor,
}

impl AccessMode {
    /// The vendor's number for each mode.
    pub open spec fn raw_spec(self) -> u32 {
        match self {
            AccessMode::Exclusive => MV_ACCESS_EXCLUSIVE,
            AccessMode::ExclusiveWithSwitch => MV_ACCESS_EXCLUSIVE_WITH_SWITCH,
            AccessMode::Control => MV_ACCESS_CONTROL,
            AccessMode::ControlWithSwitch => MV_ACCESS_CONTROL_WITH_SWITCH,
            AccessMode::ControlSwitchEnable => MV_ACCESS_CONTROL_SWITCH_ENABLE,
            AccessMode::ControlSwitchEnableWithKey => MV_ACCESS_CONTROL_SWITCH_ENABLE_WITH_KEY,
            AccessMode::Monitor => MV_ACCESS_MONITOR,
        }
    }

    /// Return the vendor's number for this mode.
    pub fn raw(self) -> (r: u32)
        ensures
            r == self.raw_spec(),
    {
        match self {
            AccessMode::Exclusive => MV_ACCESS_EXCLUSIVE,
            AccessMode::ExclusiveWithSwitch => MV_ACCESS_EXCLUSIVE_WITH_SWITCH,
            AccessMode::Control => MV_ACCESS_CONTROL,
            AccessMode::ControlWithSwitch => MV_ACCESS_CONTROL_WITH_SWITCH,
            AccessMode::ControlSwitchEnable => MV_ACCESS_CONTROL_SWITCH_ENABLE,
            AccessMode::ControlSwitchEnableWithKey => MV_ACCESS_CONTROL_SWITCH_ENABLE_WITH_KEY,
            AccessMode::Monitor => MV_ACCESS_MONITOR,
        }
    }
}

/// Bit pattern of an IEEE 754 single-precision number.
///
/// Node values and frame metadata carry single-precision numbers that nothing
/// here computes with; they pass through unchanged, bit for bit.
#[derive(Copy, Clone, PartialEq, Eq, Structural, Hash, Debug)]
pub struct FloatBits(pub u32);

impl FloatBits {
    /// Wrap the bit pattern of a single-precision number.
    pub fn from_bits(bits: u32) -> (r: Self)
        ensures
            r == FloatBits(bits),
    {
        FloatBits(bits)
    }

    /// Return the bit pattern.
    pub fn to_bits(self) -> (r: u32)
        ensures
            r == self.0,
    {
        self.0
    }
}

/// Integer node value snapshot: current value plus its allowed range.
#[derive(Copy, Clone, PartialEq, Eq, Structural, Debug)]
pub struct IntValue {
    /// Current node value.
    pub current: i64,
    /// Smallest accepted value.
    pub min: i64,
    /// Largest accepted value.
    pub max: i64,
    /// Required increment between accepted values.
    pub inc: i64,
}

/// Float node value snapshot: current value plus its allowed range.
#[derive(Copy, Clone, PartialEq, Eq, Structural)]
pub struct FloatValue {
    /// Current node value.
    pub current: FloatBits,
    /// Smallest accepted value.
    pub min: FloatBits,
    /// Largest accepted value.
    pub max: FloatBits,
}

/// Enum node value snapshot: current numeric value and allowed values.
#[derive(Clone, Debug)]
pub struct EnumValue {
    /// Current numeric value.
    pub current: u32,
    /// Numeric values reported as supported by the node.
    pub supported: Vec<u32>,
}

/// Bit set of transport-layer protocols to enumerate. Combine with `|`.
#[derive(Copy, Clone, PartialEq, Eq, Structural)]
pub struct TransportLayer(pub u32);

/// Union of every transport bit, as a raw mask.
pub const ALL_TRANSPORTS: u32 = 0x0000_07FF;

impl Default for TransportLayer {
    /// The empty set.
    fn default() -> (r: Self)
        ensures
            r == TransportLayer(0),
    {
        TransportLayer(0)
    }
}

#[allow(non_snake_case)]
impl TransportLayer {
    /// Unknown or unspecified transport.
    pub fn UNKNOWN() -> (r: Self)
        ensures
            r == TransportLayer(MV_UNKNOW_DEVICE),
    {
        TransportLayer(MV_UNKNOW_DEVICE)
    }

    /// GigE Vision devices.
    pub fn GIGE() -> (r: Self)
        ensures
            r == TransportLayer(MV_GIGE_DEVICE),
    {
        TransportLayer(MV_GIGE_DEVICE)
    }

    /// IEEE 1394-a/b devices.
    pub fn IEEE_1394() -> (r: Self)
        ensures
            r == TransportLayer(MV_1394_DEVICE),
    {
        TransportLayer(MV_1394_DEVICE)
    }

    /// USB3 Vision devices.
    pub fn USB() -> (r: Self)
        ensures
            r == TransportLayer(MV_USB_DEVICE),
    {
        TransportLayer(MV_USB_DEVICE)
    }

    /// Camera Link devices.
    pub fn CAMERALINK() -> (r: Self)
        ensures
            r == TransportLayer(MV_CAMERALINK_DEVICE),
    {
        TransportLayer(MV_CAMERALINK_DEVICE)
    }

    /// Virtual GigE devices.
    pub fn VIR_GIGE() -> (r: Self)
        ensures
            r == TransportLayer(MV_VIR_GIGE_DEVICE),
    {
        TransportLayer(MV_VIR_GIGE_DEVICE)
    }

    /// Virtual USB devices.
    pub fn VIR_USB() -> (r: Self)
        ensures
            r == TransportLayer(MV_VIR_USB_DEVICE),
    {
        TransportLayer(MV_VIR_USB_DEVICE)
    }

    /// GigE devices exposed through GenTL.
    pub fn GENTL_GIGE() -> (r: Self)
        ensures
            r == TransportLayer(MV_GENTL_GIGE_DEVICE),
    {
        TransportLayer(MV_GENTL_GIGE_DEVICE)
    }

    /// Camera Link devices exposed through GenTL.
    pub fn GENTL_CAMERALINK() -> (r: Self)
        ensures
            r == TransportLayer(MV_GENTL_CAMERALINK_DEVICE),
    {
        TransportLayer(MV_GENTL_CAMERALINK_DEVICE)
    }

    /// CoaXPress devices exposed through GenTL.
    pub fn GENTL_CXP() -> (r: Self)
        ensures
            r == TransportLayer(MV_GENTL_CXP_DEVICE),
    {
        TransportLayer(MV_GENTL_CXP_DEVICE)
    }

    /// XoF devices exposed through GenTL.
    pub fn GENTL_XOF() -> (r: Self)
        ensures
            r == TransportLayer(MV_GENTL_XOF_DEVICE),
    {
        TransportLayer(MV_GENTL_XOF_DEVICE)
    }

    /// Virtual devices exposed through GenTL.
    pub fn GENTL_VIR() -> (r: Self)
        ensures
            r == TransportLayer(MV_GENTL_VIR_DEVICE),
    {
        TransportLayer(MV_GENTL_VIR_DEVICE)
    }

    /// Every transport-layer bit that the vendor headers define.
    pub fn ALL() -> (r: Self)
        ensures
            r == TransportLayer(ALL_TRANSPORTS),
            r.0 == MV_GIGE_DEVICE | MV_1394_DEVICE | MV_USB_DEVICE | MV_CAMERALINK_DEVICE
                | MV_VIR_GIGE_DEVICE | MV_VIR_USB_DEVICE | MV_GENTL_GIGE_DEVICE
                | MV_GENTL_CAMERALINK_DEVICE | MV_GENTL_CXP_DEVICE | MV_GENTL_XOF_DEVICE
                | MV_GENTL_VIR_DEVICE,
    {
        assert(0x7FFu32 == 0x1u32 | 0x2 | 0x4 | 0x8 | 0x10 | 0x20 | 0x40 | 0x80 | 0x100 | 0x200
            | 0x400) by (bit_vector);
        TransportLayer(ALL_TRANSPORTS)
    }
}

impl TransportLayer {
    /// Whether every bit of `other` is set in `self`.
    pub open spec fn contains_spec(self, other: Self) -> bool {
        forall|i: u32| #![trigger other.bit(i)] i < 32 && other.bit(i) ==> self.bit(i)
    }

    /// Whether bit `i` is set.
    pub open spec fn bit(self, i: u32) -> bool {
        (self.0 >> i) & 1 == 1
    }

    /// Whether the value is one of the GigE transport types.
    pub open spec fn is_gige_spec(self) -> bool {
        self.0 == MV_GIGE_DEVICE || self.0 == MV_VIR_GIGE_DEVICE || self.0 == MV_GENTL_GIGE_DEVICE
    }

    /// Whether the value is one of the USB transport types.
    pub open spec fn is_usb_spec(self) -> bool {
        self.0 == MV_USB_DEVICE || self.0 == MV_VIR_USB_DEVICE
    }

    /// Construct a transport-layer bit set from the SDK's raw mask.
    pub fn from_raw(raw: u32) -> (r: Self)
        ensures
            r == TransportLayer(raw),
    {
        TransportLayer(raw)
    }

    /// Return the SDK transport-layer mask.
    pub fn raw(self) -> (r: u32)
        ensures
            r == self.0,
    {
        self.0
    }

    /// Return whether every bit in `other` is present in this set.
    pub fn contains(self, other: Self) -> (r: bool)
        ensures
            r == self.contains_spec(other),
            r == ((self.0 & other.0) == other.0),
    {
        proof {
            lemma_mask_is_subset(self, other);
        }
        (self.0 & other.0) == other.0
    }

    /// Return whether this device type is a GigE transport.
    pub fn is_gige(self) -> (r: bool)
        ensures
            r == self.is_gige_spec(),
    {
        self.0 == MV_GIGE_DEVICE || self.0 == MV_VIR_GIGE_DEVICE || self.0 == MV_GENTL_GIGE_DEVICE
    }

    /// Return whether this device type is a USB transport.
    pub fn is_usb(self) -> (r: bool)
        ensures
            r == self.is_usb_spec(),
    {
        self.0 == MV_USB_DEVICE || self.0 == MV_VIR_USB_DEVICE
    }

    /// Diagnostic text of the value.
    pub open spec fn debug_text_spec(self) -> Seq<char> {
        "TransportLayer(0x"@ + hex8_spec(self.0) + ")"@
    }

    /// Diagnostic text, such as `TransportLayer(0x00000001)`.
    pub fn debug_text(self) -> (r: String)
        ensures
            r@ == self.debug_text_spec(),
    {
        let mut text = "TransportLayer(0x".to_owned();
        text.append(hex8(self.0).as_str());
        text.append(")");
        text
    }
}

impl core::ops::BitOr for TransportLayer {
    type Output = Self;

    fn bitor(self, rhs: Self) -> Self {
        TransportLayer(self.0 | rhs.0)
    }
}

impl vstd::std_specs::ops::BitOrSpecImpl for TransportLayer {
    open spec fn obeys_bitor_spec() -> bool {
        true
    }

    open spec fn bitor_req(self, rhs: Self) -> bool {
        true
    }

    open spec fn bitor_spec(self, rhs: Self) -> Self {
        TransportLayer(self.0 | rhs.0)
    }
}

impl core::ops::BitOrAssign for TransportLayer {
    fn bitor_assign(&mut self, rhs: Self)
        ensures
            *final(self) == TransportLayer(old(self).0 | rhs.0),
    {
        self.0 = self.0 | rhs.0;
    }
}

/// A mask is contained in another exactly when conjunction leaves it unchanged.
proof fn lemma_mask_is_subset(a: TransportLayer, b: TransportLayer)
    ensures
        a.contains_spec(b) <==> (a.0 & b.0) == b.0,
{
    let x = a.0;
    let y = b.0;
    if (x & y) == y {
        assert forall|i: u32| #![trigger b.bit(i)] i < 32 && b.bit(i) implies a.bit(i) by {
            assert((x & y) == y && (y >> i) & 1 == 1 ==> (x >> i) & 1 == 1) by (bit_vector);
        }
    }
    if a.contains_spec(b) {
        lemma_no_missing_bit_below(a, b, 32);
        assert((y & !x) & (!(0xFFFF_FFFF_FFFF_FFFFu64 << 32u64)) as u32 == 0 ==> (x & y) == y)
            by (bit_vector);
    }
}

/// With every bit of `b` present in `a`, no bit below position `k` is missing.
proof fn lemma_no_missing_bit_below(a: TransportLayer, b: TransportLayer, k: u64)
    requires
        k <= 32,
        a.contains_spec(b),
    ensures
        (b.0 & !a.0) & (!(0xFFFF_FFFF_FFFF_FFFFu64 << k)) as u32 == 0,
    decreases k,
{
    let x = a.0;
    let y = b.0;
    if k == 0 {
        assert((y & !x) & (!(0xFFFF_FFFF_FFFF_FFFFu64 << 0u64)) as u32 == 0) by (bit_vector);
    } else {
        let j = (k - 1) as u64;
        let i = j as u32;
        lemma_no_missing_bit_below(a, b, j);
        assert(b.bit(i) ==> a.bit(i));
        assert((y & !x) & (!(0xFFFF_FFFF_FFFF_FFFFu64 << k)) as u32 == 0) by (bit_vector)
            requires
                1 <= k <= 32,
                j == k - 1,
                i == j as u32,
                (y & !x) & (!(0xFFFF_FFFF_FFFF_FFFFu64 << j)) as u32 == 0,
                (y >> i) & 1 == 1 ==> (x >> i) & 1 == 1,
        ;
    }
}

/// Inclusion of transport sets is a partial order: reflexive, transitive and
/// antisymmetric.
pub proof fn law_contains_is_a_partial_order(a: TransportLayer, b: TransportLayer, c: TransportLayer)
    ensures
        a.contains_spec(a),
        a.contains_spec(b) && b.contains_spec(c) ==> a.contains_spec(c),
        a.contains_spec(b) && b.contains_spec(a) ==> a == b,
{
    lemma_mask_is_subset(a, a);
    lemma_mask_is_subset(a, b);
    lemma_mask_is_subset(b, c);
    lemma_mask_is_subset(a, c);
    lemma_mask_is_subset(b, a);
    let x = a.0;
    let y = b.0;
    let z = c.0;
    assert(x & x == x) by (bit_vector);
    assert((x & y) == y && (y & z) == z ==> (x & z) == z) by (bit_vector);
    assert((x & y) == y && (y & x) == x ==> x == y) by (bit_vector);
}

/// The union of two transport sets is their least upper bound.
pub proof fn law_union_is_the_least_upper_bound(
    a: TransportLayer,
    b: TransportLayer,
    c: TransportLayer,
)
    ensures
        TransportLayer(a.0 | b.0).contains_spec(a),
        TransportLayer(a.0 | b.0).contains_spec(b),
        c.contains_spec(a) && c.contains_spec(b) ==> c.contains_spec(TransportLayer(a.0 | b.0)),
{
    let u = TransportLayer(a.0 | b.0);
    lemma_mask_is_subset(u, a);
    lemma_mask_is_subset(u, b);
    lemma_mask_is_subset(c, a);
    lemma_mask_is_subset(c, b);
    lemma_mask_is_subset(c, u);
    let x = a.0;
    let y = b.0;
    let z = c.0;
    assert((x | y) & x == x) by (bit_vector);
    assert((x | y) & y == y) by (bit_vector);
    assert((z & x) == x && (z & y) == y ==> z & (x | y) == (x | y)) by (bit_vector);
}

/// The full set contains a transport mask exactly when the mask has no bit
/// outside the defined transports.
pub proof fn law_all_holds_exactly_the_defined_bits(a: TransportLayer)
    ensures
        TransportLayer(ALL_TRANSPORTS).contains_spec(a) <==> a.0 <= ALL_TRANSPORTS,
{
    lemma_mask_is_subset(TransportLayer(ALL_TRANSPORTS), a);
    let x = a.0;
    assert((0x7FFu32 & x) == x <==> x <= 0x7FFu32) by (bit_vector);
}

/// Wire pixel format code, a thin wrapper over the SDK's pixel-type value.
#[derive(Copy, Clone, PartialEq, Eq, Structural, Hash)]
pub struct PixelType(pub u32);

#[allow(non_snake_case)]
impl PixelType {
    /// Undefined or unknown pixel format.
    pub fn UNDEFINED() -> (r: Self)
        ensures
            r == PixelType(PIXEL_UNDEFINED),
    {
        PixelType(PIXEL_UNDEFINED)
    }

    /// 8-bit monochrome pixels.
    pub fn MONO8() -> (r: Self)
        ensures
            r == PixelType(PIXEL_MONO8),
    {
        PixelType(PIXEL_MONO8)
    }

    /// 10-bit monochrome pixels stored in 16-bit words.
    pub fn MONO10() -> (r: Self)
        ensures
            r == PixelType(PIXEL_MONO10),
    {
        PixelType(PIXEL_MONO10)
    }

    /// Packed 10-bit monochrome pixels.
    pub fn MONO10_PACKED() -> (r: Self)
        ensures
            r == PixelType(PIXEL_MONO10_PACKED),
    {
        PixelType(PIXEL_MONO10_PACKED)
    }

    /// 12-bit monochrome pixels stored in 16-bit words.
    pub fn MONO12() -> (r: Self)
        ensures
            r == PixelType(PIXEL_MONO12),
    {
        PixelType(PIXEL_MONO12)
    }

    /// Packed 12-bit monochrome pixels.
    pub fn MONO12_PACKED() -> (r: Self)
        ensures
            r == PixelType(PIXEL_MONO12_PACKED),
    {
        PixelType(PIXEL_MONO12_PACKED)
    }

    /// 14-bit monochrome pixels stored in 16-bit words.
    pub fn MONO14() -> (r: Self)
        ensures
            r == PixelType(PIXEL_MONO14),
    {
        PixelType(PIXEL_MONO14)
    }

    /// 16-bit monochrome pixels.
    pub fn MONO16() -> (r: Self)
        ensures
            r == PixelType(PIXEL_MONO16),
    {
        PixelType(PIXEL_MONO16)
    }

    /// 8-bit Bayer pixels in GR order.
    pub fn BAYER_GR8() -> (r: Self)
        ensures
            r == PixelType(PIXEL_BAYER_GR8),
    {
        PixelType(PIXEL_BAYER_GR8)
    }

    /// 8-bit Bayer pixels in RG order.
    pub fn BAYER_RG8() -> (r: Self)
        ensures
            r == PixelType(PIXEL_BAYER_RG8),
    {
        PixelType(PIXEL_BAYER_RG8)
    }

    /// 8-bit Bayer pixels in GB order.
    pub fn BAYER_GB8() -> (r: Self)
        ensures
            r == PixelType(PIXEL_BAYER_GB8),
    {
        PixelType(PIXEL_BAYER_GB8)
    }

    /// 8-bit Bayer pixels in BG order.
    pub fn BAYER_BG8() -> (r: Self)
        ensures
            r == PixelType(PIXEL_BAYER_BG8),
    {
        PixelType(PIXEL_BAYER_BG8)
    }

    /// Packed RGB with 8 bits per channel.
    pub fn RGB8_PACKED() -> (r: Self)
        ensures
            r == PixelType(PIXEL_RGB8_PACKED),
    {
        PixelType(PIXEL_RGB8_PACKED)
    }

    /// Packed BGR with 8 bits per channel.
    pub fn BGR8_PACKED() -> (r: Self)
        ensures
            r == PixelType(PIXEL_BGR8_PACKED),
    {
        PixelType(PIXEL_BGR8_PACKED)
    }

    /// Packed RGBA with 8 bits per channel.
    pub fn RGBA8_PACKED() -> (r: Self)
        ensures
            r == PixelType(PIXEL_RGBA8_PACKED),
    {
        PixelType(PIXEL_RGBA8_PACKED)
    }

    /// Packed BGRA with 8 bits per channel.
    pub fn BGRA8_PACKED() -> (r: Self)
        ensures
            r == PixelType(PIXEL_BGRA8_PACKED),
    {
        PixelType(PIXEL_BGRA8_PACKED)
    }

    /// Packed YUV 4:2:2 pixels.
    pub fn YUV422_PACKED() -> (r: Self)
        ensures
            r == PixelType(PIXEL_YUV422_PACKED),
    {
        PixelType(PIXEL_YUV422_PACKED)
    }

    /// Packed YUV 4:2:2 pixels in YUYV order.
    pub fn YUV422_YUYV_PACKED() -> (r: Self)
        ensures
            r == PixelType(PIXEL_YUV422_YUYV_PACKED),
    {
        PixelType(PIXEL_YUV422_YUYV_PACKED)
    }
}

impl PixelType {
    /// The seven category bits; the custom bit above them is not part of it.
    pub open spec fn category(self) -> int {
        (self.0 as int / 0x100_0000) % 0x80
    }

    /// The byte that holds the number of bits per pixel.
    pub open spec fn bits_per_pixel_spec(self) -> int {
        (self.0 as int / 0x1_0000) % 0x100
    }

    /// Category of monochrome formats.
    pub open spec fn is_mono_spec(self) -> bool {
        self.category() == 1
    }

    /// Category of color formats.
    pub open spec fn is_color_spec(self) -> bool {
        self.category() == 2
    }

    /// Whether the vendor's custom bit, the topmost one, is set.
    pub open spec fn is_custom_spec(self) -> bool {
        self.0 >= 0x8000_0000
    }

    /// Construct a pixel type from the SDK's raw wire-format code.
    pub fn from_raw(raw: u32) -> (r: Self)
        ensures
            r == PixelType(raw),
    {
        PixelType(raw)
    }

    /// Return the SDK's raw wire-format code.
    pub fn raw(self) -> (r: u32)
        ensures
            r == self.0,
    {
        self.0
    }

    /// Effective bits per pixel encoded in the format descriptor.
    pub fn bits_per_pixel(self) -> (r: u32)
        ensures
            r == self.bits_per_pixel_spec(),
            r < 0x100,
    {
        let raw: u32 = self.0;
        assert((raw >> 16) & 0xFF == (raw / 0x1_0000) % 0x100) by (bit_vector);
        (raw >> 16) & 0xFF
    }

    /// Return whether the format descriptor identifies monochrome data.
    pub fn is_mono(self) -> (r: bool)
        ensures
            r == self.is_mono_spec(),
    {
        let raw: u32 = self.0;
        assert((raw & 0x7F00_0000) == 0x0100_0000 <==> (raw / 0x100_0000) % 0x80 == 1)
            by (bit_vector);
        (raw & 0x7F00_0000) == 0x0100_0000
    }

    /// Return whether the format descriptor identifies color data.
    pub fn is_color(self) -> (r: bool)
        ensures
            r == self.is_color_spec(),
    {
        let raw: u32 = self.0;
        assert((raw & 0x7F00_0000) == 0x0200_0000 <==> (raw / 0x100_0000) % 0x80 == 2)
            by (bit_vector);
        (raw & 0x7F00_0000) == 0x0200_0000
    }

    /// Return whether the SDK's custom-format bit is set.
    pub fn is_custom(self) -> (r: bool)
        ensures
            r == self.is_custom_spec(),
    {
        let raw: u32 = self.0;
        assert((raw & 0x8000_0000) != 0 <==> raw >= 0x8000_0000) by (bit_vector);
        (raw & 0x8000_0000) != 0
    }

    /// Diagnostic text of the value.
    pub open spec fn debug_text_spec(self) -> Seq<char> {
        "PixelType(0x"@ + hex8_spec(self.0) + ")"@
    }

    /// Diagnostic text, such as `PixelType(0x01080001)`.
    pub fn debug_text(self) -> (r: String)
        ensures
            r@ == self.debug_text_spec(),
    {
        let mut text = "PixelType(0x".to_owned();
        text.append(hex8(self.0).as_str());
        text.append(")");
        text
    }
}

/// No format is both monochrome and color.
pub proof fn law_mono_and_color_exclude_each_other(p: PixelType)
    ensures
        !(p.is_mono_spec() && p.is_color_spec()),
{
}

/// The custom bit is orthogonal to the category: setting it changes neither
/// the mono and color classification nor the bits per pixel.
pub proof fn law_custom_bit_is_orthogonal(p: PixelType, q: PixelType)
    requires
        q.0 == p.0 | 0x8000_0000,
    ensures
        q.is_custom_spec(),
        q.is_mono_spec() == p.is_mono_spec(),
        q.is_color_spec() == p.is_color_spec(),
        q.bits_per_pixel_spec() == p.bits_per_pixel_spec(),
{
    let x = p.0;
    let y = q.0;
    assert(y == x | 0x8000_0000 ==> y >= 0x8000_0000 && (y / 0x100_0000) % 0x80 == (x / 0x100_0000)
        % 0x80 && (y / 0x1_0000) % 0x100 == (x / 0x1_0000) % 0x100) by (bit_vector);
}

/// The vendor numbers the access modes from one to seven, in the order of their
/// declaration, so no two modes share a number.
pub proof fn law_access_modes_are_numbered_in_order(mode: AccessMode)
    ensures
        1 <= mode.raw_spec() <= 7,
        mode is Exclusive <==> mode.raw_spec() == 1,
        mode is ExclusiveWithSwitch <==> mode.raw_spec() == 2,
        mode is Control <==> mode.raw_spec() == 3,
        mode is ControlWithSwitch <==> mode.raw_spec() == 4,
        mode is ControlSwitchEnable <==> mode.raw_spec() == 5,
        mode is ControlSwitchEnableWithKey <==> mode.raw_spec() == 6,
        mode is Monitor <==> mode.raw_spec() == 7,
{
}

/// Every transport has a bit of its own, each twice the one before.
pub proof fn law_transports_are_single_bits()
    ensures
        MV_UNKNOW_DEVICE == 0,
        MV_GIGE_DEVICE == 1,
        MV_1394_DEVICE == 2 * MV_GIGE_DEVICE,
        MV_USB_DEVICE == 2 * MV_1394_DEVICE,
        MV_CAMERALINK_DEVICE == 2 * MV_USB_DEVICE,
        MV_VIR_GIGE_DEVICE == 2 * MV_CAMERALINK_DEVICE,
        MV_VIR_USB_DEVICE == 2 * MV_VIR_GIGE_DEVICE,
        MV_GENTL_GIGE_DEVICE == 2 * MV_VIR_USB_DEVICE,
        MV_GENTL_CAMERALINK_DEVICE == 2 * MV_GENTL_GIGE_DEVICE,
        MV_GENTL_CXP_DEVICE == 2 * MV_GENTL_CAMERALINK_DEVICE,
        MV_GENTL_XOF_DEVICE == 2 * MV_GENTL_CXP_DEVICE,
        MV_GENTL_VIR_DEVICE == 2 * MV_GENTL_XOF_DEVICE,
        ALL_TRANSPORTS == 2 * MV_GENTL_VIR_DEVICE - 1,
{
}

/// A device type is GigE when it is native, virtual or GenTL GigE, and USB when
/// it is native or virtual USB; nothing is both, and no union of types is
/// either.
pub proof fn law_device_types_are_gige_or_usb_or_neither(layer: TransportLayer)
    ensures
        layer.is_gige_spec() <==> layer.0 == 0x1 || layer.0 == 0x10 || layer.0 == 0x40,
        layer.is_usb_spec() <==> layer.0 == 0x4 || layer.0 == 0x20,
        !(layer.is_gige_spec() && layer.is_usb_spec()),
{
}

/// A set holds another exactly when adding the other changes nothing.
pub proof fn law_containing_means_nothing_to_add(a: TransportLayer, b: TransportLayer)
    ensures
        a.contains_spec(b) <==> a.0 | b.0 == a.0,
{
    lemma_mask_is_subset(a, b);
    let x = a.0;
    let y = b.0;
    assert((x & y) == y <==> x | y == x) by (bit_vector);
}

/// A pixel format is read from the bytes of its code: the second byte from the
/// top counts bits per pixel, the seven low bits of the top byte tell the
/// category, and the topmost bit marks vendor formats.
pub proof fn law_pixel_formats_are_read_from_their_bytes(p: PixelType)
    ensures
        p.bits_per_pixel_spec() == (p.0 / 0x1_0000) % 0x100,
        p.is_mono_spec() <==> (p.0 / 0x100_0000) % 0x80 == 1,
        p.is_color_spec() <==> (p.0 / 0x100_0000) % 0x80 == 2,
        p.is_custom_spec() <==> p.0 / 0x8000_0000 == 1,
{
}

/// The named formats: monochrome and Bayer codes are monochrome, the others are
/// color, and each states the bits per pixel of its name.
pub proof fn law_named_formats_state_their_depth()
    ensures
        PIXEL_UNDEFINED == 0,
        PIXEL_MONO8 == 0x0108_0001,
        PIXEL_MONO10 == 0x0110_0003,
        PIXEL_MONO10_PACKED == 0x010C_0004,
        PIXEL_MONO12 == 0x0110_0005,
        PIXEL_MONO12_PACKED == 0x010C_0006,
        PIXEL_MONO14 == 0x0110_0025,
        PIXEL_MONO16 == 0x0110_0007,
        PIXEL_BAYER_GR8 == 0x0108_0008,
        PIXEL_BAYER_RG8 == 0x0108_0009,
        PIXEL_BAYER_GB8 == 0x0108_000A,
        PIXEL_BAYER_BG8 == 0x0108_000B,
        PIXEL_RGB8_PACKED == 0x0218_0014,
        PIXEL_BGR8_PACKED == 0x0218_0015,
        PIXEL_RGBA8_PACKED == 0x0220_0016,
        PIXEL_BGRA8_PACKED == 0x0220_0017,
        PIXEL_YUV422_PACKED == 0x0210_001F,
        PIXEL_YUV422_YUYV_PACKED == 0x0210_0032,
        PixelType(PIXEL_MONO8).is_mono_spec() && PixelType(PIXEL_MONO8).bits_per_pixel_spec() == 8,
        PixelType(PIXEL_MONO12_PACKED).bits_per_pixel_spec() == 12,
        PixelType(PIXEL_BAYER_RG8).is_mono_spec(),
        PixelType(PIXEL_RGB8_PACKED).is_color_spec() && PixelType(
            PIXEL_RGB8_PACKED,
        ).bits_per_pixel_spec() == 24,
        PixelType(PIXEL_BGRA8_PACKED).bits_per_pixel_spec() == 32,
        PixelType(PIXEL_YUV422_PACKED).bits_per_pixel_spec() == 16,
{
}

/// Transport sets and pixel formats are shown by their raw value, in eight
/// hexadecimal digits that spell it.
pub proof fn law_raw_values_are_shown_in_hexadecimal(layer: TransportLayer, format: PixelType)
    ensures
        layer.debug_text_spec() == "TransportLayer(0x"@ + hex8_spec(layer.0) + ")"@,
        format.debug_text_spec() == "PixelType(0x"@ + hex8_spec(format.0) + ")"@,
        hex_value(hex8_spec(layer.0), 'A') == layer.0,
        hex_value(hex8_spec(format.0), 'A') == format.0,
{
    law_hex8_text_spells_the_number(layer.0);
    law_hex8_text_spells_the_number(format.0);
}

/// The union of two sets holds a transport exactly when one of them does.
pub proof fn law_unions_hold_what_either_holds(a: TransportLayer, b: TransportLayer, i: u32)
    requires
        i < 32,
    ensures
        TransportLayer::obeys_bitor_spec(),
        a.bitor_req(b),
        a.bitor_spec(b).bit(i) <==> a.bit(i) || b.bit(i),
        a.bit(i) <==> (a.0 >> i) % 2 == 1,
{
    let x: u32 = a.0;
    let y: u32 = b.0;
    assert(((x | y) >> i) & 1 == 1 <==> (x >> i) & 1 == 1 || (y >> i) & 1 == 1) by (bit_vector);
    assert((x >> i) & 1 == 1 <==> (x >> i) % 2 == 1) by (bit_vector);
}

} // verus!
