//! The item prefixes of a HID report-map descriptor, and the encoding of
//! one descriptor item into its wire bytes. The first byte of an item is
//! its tag with the payload size in the low bits; the payload bytes follow.
use vstd::prelude::*;

verus! {

/// The bare item tags of a HID report map, without their size bits.
#[derive(Clone, Copy, PartialEq, Eq, Structural, Debug)]
pub enum HidReportType {
    HidInput,
    HidOutput,
    Feature,
    Collection,
    EndCollection,
    UsagePage,
    LogicalMinimum,
    LogicalMaximum,
    PhysicalMinimum,
    PhysicalMaximum,
    UnitExponent,
    Unit,
    ReportSize,
    ReportID,
    ReportCount,
    Push,
    Pop,
    Usage,
    UsageMinimum,
    UsageMaximum,
    DesignatorIndex,
    DesignatorMinimum,
    DesignatorMaximum,
    StringIndex,
    StringMinimum,
    StringMaximum,
    Delimiter,
}

impl HidReportType {
    /// The tag byte of this item kind, before the payload size is added.
    pub open spec fn tag_spec(self) -> u8 {
        match self {
            HidReportType::HidInput => 0x80,
            HidReportType::HidOutput => 0x90,
            HidReportType::Feature => 0xb0,
            HidReportType::Collection => 0xa0,
            HidReportType::EndCollection => 0xc0,
            HidReportType::UsagePage => 0x04,
            HidReportType::LogicalMinimum => 0x14,
            HidReportType::LogicalMaximum => 0x24,
            HidReportType::PhysicalMinimum => 0x34,
            HidReportType::PhysicalMaximum => 0x44,
            HidReportType::UnitExponent => 0x54,
            HidReportType::Unit => 0x64,
            HidReportType::ReportSize => 0x74,
            HidReportType::ReportID => 0x84,
            HidReportType::ReportCount => 0x94,
            HidReportType::Push => 0xa4,
            HidReportType::Pop => 0xb4,
            HidReportType::Usage => 0x08,
            HidReportType::UsageMinimum => 0x18,
            HidReportType::UsageMaximum => 0x28,
            HidReportType::DesignatorIndex => 0x38,
            HidReportType::DesignatorMinimum => 0x48,
            HidReportType::DesignatorMaximum => 0x58,
            HidReportType::StringIndex => 0x78,
            HidReportType::StringMinimum => 0x88,
            HidReportType::StringMaximum => 0x98,
            HidReportType::Delimiter => 0xa8,
        }
    }

    /// The tag byte of this item kind.
    pub fn tag(self) -> (r: u8)
        ensures
            r == self.tag_spec(),
    {
        match self {
            HidReportType::HidInput => 0x80,
            HidReportType::HidOutput => 0x90,
            HidReportType::Feature => 0xb0,
            HidReportType::Collection => 0xa0,
            HidReportType::EndCollection => 0xc0,
            HidReportType::UsagePage => 0x04,
            HidReportType::LogicalMinimum => 0x14,
            HidReportType::LogicalMaximum => 0x24,
            HidReportType::PhysicalMinimum => 0x34,
            HidReportType::PhysicalMaximum => 0x44,
            HidReportType::UnitExponent => 0x54,
            HidReportType::Unit => 0x64,
            HidReportType::ReportSize => 0x74,
            HidReportType::ReportID => 0x84,
            HidReportType::ReportCount => 0x94,
            HidReportType::Push => 0xa4,
            HidReportType::Pop => 0xb4,
            HidReportType::Usage => 0x08,
            HidReportType::UsageMinimum => 0x18,
            HidReportType::UsageMaximum => 0x28,
            HidReportType::DesignatorIndex => 0x38,
            HidReportType::DesignatorMinimum => 0x48,
            HidReportType::DesignatorMaximum => 0x58,
            HidReportType::StringIndex => 0x78,
            HidReportType::StringMinimum => 0x88,
            HidReportType::StringMaximum => 0x98,
            HidReportType::Delimiter => 0xa8,
        }
    }
}

/// One item of a HID report map together with its payload.
#[derive(Clone, Copy, PartialEq, Eq, Structural, Debug)]
pub enum HidReportMapType {
    HidInput(u8),
    HidOutput(u8),
    Feature(u8),
    Collection(u8),
    EndCollection,
    UsagePage(u8),
    LogicalMinimum(u8),
    LogicalMaximum(u8),
    PhysicalMinimum(u8),
    PhysicalMaximum(u8),
    UnitExponent(u8),
    Unit(u8),
    ReportSize(u8),
    ReportID(u8),
    ReportCount(u8),
    Push(u8),
    Pop(u8),
    Usage(u8),
    UsageW(u8, u8),
    UsageMinimum(u8),
    UsageMaximum(u8),
    DesignatorIndex(u8),
    DesignatorMinimum(u8),
    DesignatorMaximum(u8),
    StringIndex(u8),
    StringMinimum(u8),
    StringMaximum(u8),
    Delimiter(u8),
}

impl HidReportMapType {
    /// The wire form of this item: a three-byte buffer, of which the
    /// first so-many bytes are significant.
    pub open spec fn to_bytes_spec(self) -> (Seq<u8>, int) {
        match self {
            HidReportMapType::HidInput(v) => (seq![0x81u8, v, 0u8], 2),
            HidReportMapType::HidOutput(v) => (seq![0x91u8, v, 0u8], 2),
            HidReportMapType::Feature(v) => (seq![0xb1u8, v, 0u8], 2),
            HidReportMapType::Collection(v) => (seq![0xa1u8, v, 0u8], 2),
            HidReportMapType::EndCollection => (seq![0xc0u8, 0u8, 0u8], 2),
            HidReportMapType::UsagePage(v) => (seq![0x05u8, v, 0u8], 2),
            HidReportMapType::LogicalMinimum(v) => (seq![0x15u8, v, 0u8], 2),
            HidReportMapType::LogicalMaximum(v) => (seq![0x25u8, v, 0u8], 2),
            HidReportMapType::PhysicalMinimum(v) => (seq![0x35u8, v, 0u8], 2),
            HidReportMapType::PhysicalMaximum(v) => (seq![0x45u8, v, 0u8], 2),
            HidReportMapType::UnitExponent(v) => (seq![0x55u8, v, 0u8], 2),
            HidReportMapType::Unit(v) => (seq![0x65u8, v, 0u8], 2),
            HidReportMapType::ReportSize(v) => (seq![0x75u8, v, 0u8], 2),
            HidReportMapType::ReportID(v) => (seq![0x85u8, v, 0u8], 2),
            HidReportMapType::ReportCount(v) => (seq![0x95u8, v, 0u8], 2),
            HidReportMapType::Push(v) => (seq![0xa5u8, v, 0u8], 2),
            HidReportMapType::Pop(v) => (seq![0xb5u8, v, 0u8], 2),
            HidReportMapType::Usage(v) => (seq![0x09u8, v, 0u8], 2),
            HidReportMapType::UsageW(p, v) => (seq![0x0au8, p, v], 3),
            HidReportMapType::UsageMinimum(v) => (seq![0x19u8, v, 0u8], 2),
            HidReportMapType::UsageMaximum(v) => (seq![0x29u8, v, 0u8], 2),
            HidReportMapType::DesignatorIndex(v) => (seq![0x39u8, v, 0u8], 2),
            HidReportMapType::DesignatorMinimum(v) => (seq![0x49u8, v, 0u8], 2),
            HidReportMapType::DesignatorMaximum(v) => (seq![0x59u8, v, 0u8], 2),
            HidReportMapType::StringIndex(v) => (seq![0x79u8, v, 0u8], 2),
            HidReportMapType::StringMinimum(v) => (seq![0x89u8, v, 0u8], 2),
            HidReportMapType::StringMaximum(v) => (seq![0x99u8, v, 0u8], 2),
            HidReportMapType::Delimiter(v) => (seq![0xa9u8, v, 0u8], 2),
        }
    }

    /// Encodes this item: the tag byte with its payload size, then the
    /// payload, padded to three bytes; the count says how many matter.
    pub fn to_bytes(&self) -> (r: ([u8; 3], usize))
        ensures
            (r.0@, r.1 as int) == self.to_bytes_spec(),
            r.1 == 2 || r.1 == 3,
    {
        let r: ([u8; 3], usize) = match self {
            HidReportMapType::HidInput(v) => ([0x81, *v, 0], 2),
            HidReportMapType::HidOutput(v) => ([0x91, *v, 0], 2),
            HidReportMapType::Feature(v) => ([0xb1, *v, 0], 2),
            HidReportMapType::Collection(v) => ([0xa1, *v, 0], 2),
            HidReportMapType::EndCollection => ([0xc0, 0, 0], 2),
            HidReportMapType::UsagePage(v) => ([0x05, *v, 0], 2),
            HidReportMapType::LogicalMinimum(v) => ([0x15, *v, 0], 2),
            HidReportMapType::LogicalMaximum(v) => ([0x25, *v, 0], 2),
            HidReportMapType::PhysicalMinimum(v) => ([0x35, *v, 0], 2),
            HidReportMapType::PhysicalMaximum(v) => ([0x45, *v, 0], 2),
            HidReportMapType::UnitExponent(v) => ([0x55, *v, 0], 2),
            HidReportMapType::Unit(v) => ([0x65, *v, 0], 2),
            HidReportMapType::ReportSize(v) => ([0x75, *v, 0], 2),
            HidReportMapType::ReportID(v) => ([0x85, *v, 0], 2),
            HidReportMapType::ReportCount(v) => ([0x95, *v, 0], 2),
            HidReportMapType::Push(v) => ([0xa5, *v, 0], 2),
            HidReportMapType::Pop(v) => ([0xb5, *v, 0], 2),
            HidReportMapType::Usage(v) => ([0x09, *v, 0], 2),
            HidReportMapType::UsageW(p, v) => ([0x0a, *p, *v], 3),
            HidReportMapType::UsageMinimum(v) => ([0x19, *v, 0], 2),
            HidReportMapType::UsageMaximum(v) => ([0x29, *v, 0], 2),
            HidReportMapType::DesignatorIndex(v) => ([0x39, *v, 0], 2),
            HidReportMapType::DesignatorMinimum(v) => ([0x49, *v, 0], 2),
            HidReportMapType::DesignatorMaximum(v) => ([0x59, *v, 0], 2),
            HidReportMapType::StringIndex(v) => ([0x79, *v, 0], 2),
            HidReportMapType::StringMinimum(v) => ([0x89, *v, 0], 2),
            HidReportMapType::StringMaximum(v) => ([0x99, *v, 0], 2),
            HidReportMapType::Delimiter(v) => ([0xa9, *v, 0], 2),
        };
        proof {
            assert((r.0@, r.1 as int) =~= self.to_bytes_spec());
        }
        r
    }
}

/// Who assigned the vendor identifier of the PnP ID record.
#[derive(Clone, Copy, PartialEq, Eq, Structural, Debug)]
pub enum VidSource {
    BluetoothSIG,
    UsbIF,
}

impl VidSource {
    /// The wire tag of this source.
    pub open spec fn tag_spec(self) -> u8 {
        match self {
            VidSource::BluetoothSIG => 1,
            VidSource::UsbIF => 2,
        }
    }

    /// The wire tag of this source.
    pub fn tag(self) -> (r: u8)
        ensures
            r == self.tag_spec(),
    {
        match self {
            VidSource::BluetoothSIG => 1,
            VidSource::UsbIF => 2,
        }
    }
}

/// The PnP ID record of the device-information service: who assigned the
/// vendor identifier, and the vendor, product and version numbers.
#[derive(Clone, Copy, PartialEq, Eq, Structural, Debug)]
pub struct PnPID {
    pub vid_source: VidSource,
    pub vendor_id: u16,
    pub product_id: u16,
    pub product_version: u16,
}

/// The little-endian 16-bit value of two wire bytes.
pub open spec fn le16(lo: u8, hi: u8) -> u16 {
    (lo + hi * 256) as u16
}

impl PnPID {
    /// Decodes the seven-byte characteristic value: the source tag, then
    /// the vendor, product and version numbers, each little-endian.
    pub fn from_gatt(data: &[u8]) -> (r: PnPID)
        requires
            data@.len() == 7,
            data@[0] == 1 || data@[0] == 2,
        ensures
            r.vid_source.tag_spec() == data@[0],
            r.vendor_id == le16(data@[1], data@[2]),
            r.product_id == le16(data@[3], data@[4]),
            r.product_version == le16(data@[5], data@[6]),
    {
        let vid_source = if data[0] == 1 {
            VidSource::BluetoothSIG
        } else {
            VidSource::UsbIF
        };
        PnPID {
            vid_source,
            vendor_id: data[1] as u16 + data[2] as u16 * 256,
            product_id: data[3] as u16 + data[4] as u16 * 256,
            product_version: data[5] as u16 + data[6] as u16 * 256,
        }
    }

    /// Encodes the record into its seven wire bytes; inverse of
    /// `from_gatt`.
    pub fn to_gatt(&self) -> (r: [u8; 7])
        ensures
            r@.len() == 7,
            r@[0] == self.vid_source.tag_spec(),
            le16(r@[1], r@[2]) == self.vendor_id,
            le16(r@[3], r@[4]) == self.product_id,
            le16(r@[5], r@[6]) == self.product_version,
    {
        [
            self.vid_source.tag(),
            (self.vendor_id % 256) as u8,
            (self.vendor_id / 256) as u8,
            (self.product_id % 256) as u8,
            (self.product_id / 256) as u8,
            (self.product_version % 256) as u8,
            (self.product_version / 256) as u8,
        ]
    }
}

} // verus!
