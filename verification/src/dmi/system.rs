//! The System Information structure.

use crate::text::{get_string, rows_view, string_at, texts, Row};
use vstd::prelude::*;
use vstd::slice::slice_subrange;
use vstd::string::*;

verus! {

/// The event that woke the system.
#[derive(Clone, Copy, Debug, PartialEq, Eq, Structural)]
pub enum WakeupType {
    Reserved,
    Unknown,
    ApmTimer,
    ModemRing,
    LanRemote,
    PowerSwitch,
    PciPme,
    AcPowerRestored,
    Other,
    /// A code that the table format does not define.
    Undefined(u8),
}

impl WakeupType {
    /// The wake-up type that a code stands for.
    pub open spec fn of(value: u8) -> WakeupType {
        match value {
            0 => WakeupType::Reserved,
            1 => WakeupType::Other,
            2 => WakeupType::Unknown,
            3 => WakeupType::ApmTimer,
            4 => WakeupType::ModemRing,
            5 => WakeupType::LanRemote,
            6 => WakeupType::PowerSwitch,
            7 => WakeupType::PciPme,
            8 => WakeupType::AcPowerRestored,
            _ => WakeupType::Undefined(value),
        }
    }

    /// The name under which the wake-up type is shown.
    pub open spec fn label(self) -> Seq<char> {
        match self {
            WakeupType::Reserved => "Reserved"@,
            WakeupType::Unknown => "Unknown"@,
            WakeupType::ApmTimer => "APM Timer"@,
            WakeupType::ModemRing => "Modem Ring"@,
            WakeupType::LanRemote => "LAN Remote"@,
            WakeupType::PowerSwitch => "Power Switch"@,
            WakeupType::PciPme => "PCI PME"@,
            WakeupType::AcPowerRestored => "AC Power Restored"@,
            WakeupType::Other => "Other"@,
            WakeupType::Undefined(_) => "Undefined"@,
        }
    }

    pub fn to_string(&self) -> (s: String)
        ensures
            s@ == self.label(),
    {
        String::from_str(
            match self {
                WakeupType::Reserved => "Reserved",
                WakeupType::Unknown => "Unknown",
                WakeupType::ApmTimer => "APM Timer",
                WakeupType::ModemRing => "Modem Ring",
                WakeupType::LanRemote => "LAN Remote",
                WakeupType::PowerSwitch => "Power Switch",
                WakeupType::PciPme => "PCI PME",
                WakeupType::AcPowerRestored => "AC Power Restored",
                WakeupType::Other => "Other",
                WakeupType::Undefined(_) => "Undefined",
            },
        )
    }
}

impl From<u8> for WakeupType {
    fn from(value: u8) -> (r: Self) {
        match value {
            0 => WakeupType::Reserved,
            1 => WakeupType::Other,
            2 => WakeupType::Unknown,
            3 => WakeupType::ApmTimer,
            4 => WakeupType::ModemRing,
            5 => WakeupType::LanRemote,
            6 => WakeupType::PowerSwitch,
            7 => WakeupType::PciPme,
            8 => WakeupType::AcPowerRestored,
            _ => WakeupType::Undefined(value),
        }
    }
}

impl vstd::std_specs::convert::FromSpecImpl<u8> for WakeupType {
    open spec fn obeys_from_spec() -> bool {
        true
    }

    open spec fn from_spec(value: u8) -> Self {
        WakeupType::of(value)
    }
}

/// Lower-case hexadecimal digits.
pub open spec fn lower_digit(d: int) -> char {
    seq![
        '0', '1', '2', '3', '4', '5', '6', '7', '8', '9', 'a', 'b', 'c', 'd', 'e', 'f',
    ][d]
}

/// The two lower-case hexadecimal digits of a byte.
pub open spec fn hex_pair(b: u8) -> Seq<char> {
    seq![lower_digit(b as int / 16), lower_digit(b as int % 16)]
}

/// The hyphenated text form of an identifier stored in the mixed-endian GUID
/// layout: the first three fields are stored least significant byte first,
/// the remaining eight bytes in order.
pub open spec fn guid_text(b: Seq<u8>) -> Seq<char> {
    hex_pair(b[3]) + hex_pair(b[2]) + hex_pair(b[1]) + hex_pair(b[0]) + seq!['-']
        + hex_pair(b[5]) + hex_pair(b[4]) + seq!['-']
        + hex_pair(b[7]) + hex_pair(b[6]) + seq!['-']
        + hex_pair(b[8]) + hex_pair(b[9]) + seq!['-']
        + hex_pair(b[10]) + hex_pair(b[11]) + hex_pair(b[12])
        + hex_pair(b[13]) + hex_pair(b[14]) + hex_pair(b[15])
}

/// `uuid::Uuid::from_bytes_le` followed by the identifier's `Display` form.
/// The contract restates what the `uuid` crate does: `from_bytes_le` reverses
/// the bytes of the first three fields, and `Display` writes the sixteen
/// bytes as lower-case hexadecimal in groups of 8-4-4-4-12 digits. It is
/// taken on trust.
#[verifier::external_body]
fn guid_string(bytes: &[u8]) -> (r: String)
    requires
        bytes@.len() == 16,
    ensures
        r@ == guid_text(bytes@),
{
    let fields: [u8; 16] = bytes.try_into().unwrap();
    uuid::Uuid::from_bytes_le(fields).to_string()
}

/// What the system is: maker, product, identity.
#[derive(Debug)]
pub struct System {
    pub manufacturer: String,
    pub product_name: String,
    pub version: String,
    pub serial_number: String,
    pub uuid: String,
    pub wakeup_type: WakeupType,
    pub sku: String,
    pub family: String,
}

/// A [`System`] as plain values.
pub struct SystemView {
    pub manufacturer: Seq<char>,
    pub product_name: Seq<char>,
    pub version: Seq<char>,
    pub serial_number: Seq<char>,
    pub uuid: Seq<char>,
    pub wakeup_type: WakeupType,
    pub sku: Seq<char>,
    pub family: Seq<char>,
}

impl View for System {
    type V = SystemView;

    open spec fn view(&self) -> SystemView {
        SystemView {
            manufacturer: self.manufacturer@,
            product_name: self.product_name@,
            version: self.version@,
            serial_number: self.serial_number@,
            uuid: self.uuid@,
            wakeup_type: self.wakeup_type,
            sku: self.sku@,
            family: self.family@,
        }
    }
}

impl System {
    /// Whether a record body is long enough to hold the structure.
    pub open spec fn accepts(data: Seq<u8>) -> bool {
        data.len() >= 23
    }

    /// The structure that a record body and its string table describe.
    pub open spec fn decoded(data: Seq<u8>, table: Seq<Seq<char>>) -> SystemView {
        SystemView {
            manufacturer: string_at(table, data[0]),
            product_name: string_at(table, data[1]),
            version: string_at(table, data[2]),
            serial_number: string_at(table, data[3]),
            uuid: guid_text(data.subrange(4, 20)),
            wakeup_type: WakeupType::of(data[20]),
            sku: string_at(table, data[21]),
            family: string_at(table, data[22]),
        }
    }

    /// Decodes a record body that is long enough.
    pub fn from_body(data: &[u8], table: &[String]) -> (r: System)
        requires
            System::accepts(data@),
        ensures
            r@ == System::decoded(data@, texts(table@)),
    {
        System {
            manufacturer: get_string(table, data[0]),
            product_name: get_string(table, data[1]),
            version: get_string(table, data[2]),
            serial_number: get_string(table, data[3]),
            uuid: guid_string(slice_subrange(data, 4, 20)),
            wakeup_type: WakeupType::from(data[20]),
            sku: get_string(table, data[21]),
            family: get_string(table, data[22]),
        }
    }

    /// Decodes a record body, or says that it is too short.
    pub fn decode(data: &[u8], table: &[String]) -> (r: Option<System>)
        ensures
            r is Some <==> System::accepts(data@),
            r matches Some(s) ==> s@ == System::decoded(data@, texts(table@)),
    {
        if data.len() >= 23 {
            Some(System::from_body(data, table))
        } else {
            None
        }
    }

    /// The lines under which the structure is shown.
    pub open spec fn rows_of(v: SystemView) -> Seq<(Seq<char>, Seq<char>)> {
        seq![
            ("Manufacturer"@, v.manufacturer),
            ("Product Name"@, v.product_name),
            ("Version"@, v.version),
            ("Serial Number"@, v.serial_number),
            ("Uuid"@, v.uuid),
            ("Wakeup Type"@, v.wakeup_type.label()),
            ("SKU Number"@, v.sku),
            ("Familly"@, v.family),
        ]
    }

    pub fn rows(&self) -> (r: Vec<Row>)
        ensures
            rows_view(r@) == System::rows_of(self@),
    {
        let mut r: Vec<Row> = Vec::new();
        r.push(Row::new("Manufacturer", self.manufacturer.clone()));
        r.push(Row::new("Product Name", self.product_name.clone()));
        r.push(Row::new("Version", self.version.clone()));
        r.push(Row::new("Serial Number", self.serial_number.clone()));
        r.push(Row::new("Uuid", self.uuid.clone()));
        r.push(Row::new("Wakeup Type", self.wakeup_type.to_string()));
        r.push(Row::new("SKU Number", self.sku.clone()));
        r.push(Row::new("Familly", self.family.clone()));
        assert(rows_view(r@) =~= System::rows_of(self@));
        r
    }
}

} // verus!
