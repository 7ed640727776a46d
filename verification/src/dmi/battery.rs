//! The Portable Battery structure.

use crate::bytes::{le16, le32, read_le16, read_le32};
use crate::text::{
    decimal, decimal2, decimal2_string, decimal_string, get_string, hex_upper, hex_upper_string,
    rows_view, string_at, texts, Row,
};
use vstd::prelude::*;
use vstd::string::*;

verus! {

/// What a battery is made of.
#[derive(Clone, Copy, Debug, PartialEq, Eq, Structural)]
pub enum Chemistry {
    Other,
    Unknown,
    LeadAcid,
    NickelCadmium,
    NickelMetalHydride,
    LithiumIon,
    ZincAir,
    LithiumPolymer,
    /// A code that the table format does not define.
    Undefined(u8),
}

impl Chemistry {
    /// The chemistry that a code stands for.
    pub open spec fn of(value: u8) -> Chemistry {
        match value {
            1 => Chemistry::Other,
            2 => Chemistry::Unknown,
            3 => Chemistry::LeadAcid,
            4 => Chemistry::NickelCadmium,
            5 => Chemistry::NickelMetalHydride,
            6 => Chemistry::LithiumIon,
            7 => Chemistry::ZincAir,
            8 => Chemistry::LithiumPolymer,
            _ => Chemistry::Undefined(value),
        }
    }

    /// The name under which the chemistry is shown.
    pub open spec fn label(self) -> Seq<char> {
        match self {
            Chemistry::Other => "Other"@,
            Chemistry::Unknown => "Unknown"@,
            Chemistry::LeadAcid => "Lead Acid"@,
            Chemistry::NickelCadmium => "Nickel Cadmium"@,
            Chemistry::NickelMetalHydride => "Nickel metal hydride"@,
            Chemistry::LithiumIon => "Lithium-ion"@,
            Chemistry::ZincAir => "Zinc air"@,
            Chemistry::LithiumPolymer => "Lithium Polymer"@,
            Chemistry::Undefined(_) => "Undefined"@,
        }
    }

    pub fn to_string(&self) -> (s: String)
        ensures
            s@ == self.label(),
    {
        String::from_str(
            match self {
                Chemistry::Other => "Other",
                Chemistry::Unknown => "Unknown",
                Chemistry::LeadAcid => "Lead Acid",
                Chemistry::NickelCadmium => "Nickel Cadmium",
                Chemistry::NickelMetalHydride => "Nickel metal hydride",
                Chemistry::LithiumIon => "Lithium-ion",
                Chemistry::ZincAir => "Zinc air",
                Chemistry::LithiumPolymer => "Lithium Polymer",
                Chemistry::Undefined(_) => "Undefined",
            },
        )
    }
}

impl From<u8> for Chemistry {
    fn from(value: u8) -> (r: Self) {
        match value {
            1 => Chemistry::Other,
            2 => Chemistry::Unknown,
            3 => Chemistry::LeadAcid,
            4 => Chemistry::NickelCadmium,
            5 => Chemistry::NickelMetalHydride,
            6 => Chemistry::LithiumIon,
            7 => Chemistry::ZincAir,
            8 => Chemistry::LithiumPolymer,
            _ => Chemistry::Undefined(value),
        }
    }
}

impl vstd::std_specs::convert::FromSpecImpl<u8> for Chemistry {
    open spec fn obeys_from_spec() -> bool {
        true
    }

    open spec fn from_spec(value: u8) -> Self {
        Chemistry::of(value)
    }
}
/// The chemistry code that says "the chemistry is given as a string".
pub const CHEMISTRY_BY_NAME: u8 = 2;

/// The value of the error field that says "not known".
pub const UNKNOWN_ERROR: u8 = 0xFF;

/// The year that a packed date counts from.
pub const EPOCH: u16 = 1980;

/// A packed date as text: the low five bits hold the day, the next four the
/// month, the rest the years since the epoch.
pub open spec fn packed_date_text(packed: u16) -> Seq<char> {
    decimal((packed / 512 + EPOCH) as nat) + "-"@ + decimal2(((packed / 32) % 16) as nat) + "-"@
        + decimal2((packed % 32) as nat)
}

/// Formats a packed date as year, month and day.
pub fn packed_date_string(packed: u16) -> (r: String)
    ensures
        r@ == packed_date_text(packed),
{
    let day = packed % 32;
    let month = (packed / 32) % 16;
    let year = packed / 512 + EPOCH;
    let mut s = decimal_string(year as u64);
    s.append("-");
    let m = decimal2_string(month as u64);
    s.append(m.as_str());
    s.append("-");
    let d = decimal2_string(day as u64);
    s.append(d.as_str());
    s
}

/// A 16-bit quantity in which 0 stands for "not known".
pub open spec fn known(value: int) -> Option<u16> {
    if value == 0 {
        None
    } else {
        Some(value as u16)
    }
}

/// The design capacity: the magnitude times its multiplier, or nothing where
/// the magnitude is 0.
pub open spec fn design_capacity_of(magnitude: int, multiplier: u8) -> Option<u32> {
    if magnitude == 0 {
        None
    } else {
        Some((magnitude * multiplier) as u32)
    }
}

/// What a battery is made of, as the table gives it: by a code, or, where
/// the code refers to it, by a name from the string table.
#[derive(Clone, Debug, PartialEq, Eq)]
pub enum DeviceChemistry {
    Coded(Chemistry),
    Named(String),
}

/// A [`DeviceChemistry`] as plain values.
pub enum DeviceChemistryView {
    Coded(Chemistry),
    Named(Seq<char>),
}

impl DeviceChemistryView {
    /// The text under which the chemistry is shown: the label of the code,
    /// or the name.
    pub open spec fn text(self) -> Seq<char> {
        match self {
            DeviceChemistryView::Coded(chemistry) => chemistry.label(),
            DeviceChemistryView::Named(name) => name,
        }
    }
}

impl View for DeviceChemistry {
    type V = DeviceChemistryView;

    open spec fn view(&self) -> DeviceChemistryView {
        match self {
            DeviceChemistry::Coded(chemistry) => DeviceChemistryView::Coded(*chemistry),
            DeviceChemistry::Named(name) => DeviceChemistryView::Named(name@),
        }
    }
}

impl DeviceChemistry {
    pub fn to_string(&self) -> (s: String)
        ensures
            s@ == self@.text(),
    {
        match self {
            DeviceChemistry::Coded(chemistry) => chemistry.to_string(),
            DeviceChemistry::Named(name) => name.clone(),
        }
    }
}

/// A battery of a portable system.
#[derive(Debug)]
pub struct Battery {
    pub location: String,
    pub manufacturer: String,
    pub manufacture_date: String,
    pub serial_number: String,
    pub device_name: String,
    pub device_chemistry: DeviceChemistry,
    pub design_capacity: Option<u32>,
    pub design_voltage: Option<u16>,
    pub sbds_version: String,
    pub max_error_in_battery: Option<u8>,
    pub oem_specific: u32,
}

/// A [`Battery`] as plain values.
pub struct BatteryView {
    pub location: Seq<char>,
    pub manufacturer: Seq<char>,
    pub manufacture_date: Seq<char>,
    pub serial_number: Seq<char>,
    pub device_name: Seq<char>,
    pub device_chemistry: DeviceChemistryView,
    pub design_capacity: Option<u32>,
    pub design_voltage: Option<u16>,
    pub sbds_version: Seq<char>,
    pub max_error_in_battery: Option<u8>,
    pub oem_specific: u32,
}

impl View for Battery {
    type V = BatteryView;

    open spec fn view(&self) -> BatteryView {
        BatteryView {
            location: self.location@,
            manufacturer: self.manufacturer@,
            manufacture_date: self.manufacture_date@,
            serial_number: self.serial_number@,
            device_name: self.device_name@,
            device_chemistry: self.device_chemistry@,
            design_capacity: self.design_capacity,
            design_voltage: self.design_voltage,
            sbds_version: self.sbds_version@,
            max_error_in_battery: self.max_error_in_battery,
            oem_specific: self.oem_specific,
        }
    }
}

impl Battery {
    /// Whether a record body is long enough to hold the structure.
    pub open spec fn accepts(data: Seq<u8>) -> bool {
        data.len() >= 22
    }

    /// The structure that a record body and its string table describe.
    pub open spec fn decoded(data: Seq<u8>, table: Seq<Seq<char>>) -> BatteryView {
        BatteryView {
            location: string_at(table, data[0]),
            manufacturer: string_at(table, data[1]),
            manufacture_date: if data[2] == 0 {
                packed_date_text(le16(data, 14) as u16)
            } else {
                string_at(table, data[2])
            },
            serial_number: if data[3] == 0 {
                "0x"@ + hex_upper(le16(data, 12) as nat)
            } else {
                string_at(table, data[3])
            },
            device_name: string_at(table, data[4]),
            device_chemistry: if data[5] == CHEMISTRY_BY_NAME {
                DeviceChemistryView::Named(string_at(table, data[16]))
            } else {
                DeviceChemistryView::Coded(Chemistry::of(data[5]))
            },
            design_capacity: design_capacity_of(le16(data, 6), data[17]),
            design_voltage: known(le16(data, 8)),
            sbds_version: string_at(table, data[10]),
            max_error_in_battery: if data[11] == UNKNOWN_ERROR {
                None
            } else {
                Some(data[11])
            },
            oem_specific: le32(data, 18) as u32,
        }
    }

    /// Decodes a record body that is long enough.
    pub fn from_body(data: &[u8], table: &[String]) -> (r: Battery)
        requires
            Battery::accepts(data@),
        ensures
            r@ == Battery::decoded(data@, texts(table@)),
    {
        let manufacture_date = if data[2] == 0 {
            packed_date_string(read_le16(data, 14))
        } else {
            get_string(table, data[2])
        };
        let serial_number = if data[3] == 0 {
            let mut s = String::from_str("0x");
            let digits = hex_upper_string(read_le16(data, 12) as u64);
            s.append(digits.as_str());
            s
        } else {
            get_string(table, data[3])
        };
        let voltage = read_le16(data, 8);
        let device_chemistry = if data[5] == CHEMISTRY_BY_NAME {
            DeviceChemistry::Named(get_string(table, data[16]))
        } else {
            DeviceChemistry::Coded(Chemistry::from(data[5]))
        };
        let magnitude = read_le16(data, 6);
        let multiplier = data[17];
        let design_capacity = if magnitude == 0 {
            None
        } else {
            assert(magnitude * multiplier <= 0xFFFF * 0xFF) by (nonlinear_arith)
                requires
                    0 <= magnitude <= 0xFFFF,
                    0 <= multiplier <= 0xFF,
            ;
            Some(magnitude as u32 * multiplier as u32)
        };
        Battery {
            location: get_string(table, data[0]),
            manufacturer: get_string(table, data[1]),
            manufacture_date,
            serial_number,
            device_name: get_string(table, data[4]),
            device_chemistry,
            design_capacity,
            design_voltage: if voltage == 0 {
                None
            } else {
                Some(voltage)
            },
            sbds_version: get_string(table, data[10]),
            max_error_in_battery: if data[11] == UNKNOWN_ERROR {
                None
            } else {
                Some(data[11])
            },
            oem_specific: read_le32(data, 18),
        }
    }

    /// Decodes a record body, or says that it is too short.
    pub fn decode(data: &[u8], table: &[String]) -> (r: Option<Battery>)
        ensures
            r is Some <==> Battery::accepts(data@),
            r matches Some(b) ==> b@ == Battery::decoded(data@, texts(table@)),
    {
        if data.len() >= 22 {
            Some(Battery::from_body(data, table))
        } else {
            None
        }
    }

    /// How an optional quantity is shown, with the unit that follows it.
    pub open spec fn quantity_text(value: Option<nat>, unit: Seq<char>) -> Seq<char> {
        match value {
            Some(n) => decimal(n) + unit,
            None => "Unknown"@,
        }
    }

    /// An optional machine integer as an optional number.
    pub open spec fn as_nat<T: Integer>(value: Option<T>) -> Option<nat> {
        match value {
            Some(n) => Some(n as nat),
            None => None,
        }
    }

    /// The lines under which the structure is shown.
    pub open spec fn rows_of(v: BatteryView) -> Seq<(Seq<char>, Seq<char>)> {
        seq![
            ("location"@, v.location),
            ("Manufacturer"@, v.manufacturer),
            ("Manufacture Date"@, v.manufacture_date),
            ("Serial number"@, v.serial_number),
            ("Name"@, v.device_name),
            ("Chemistry"@, v.device_chemistry.text()),
            ("Design Voltage"@, Battery::quantity_text(Battery::as_nat(v.design_voltage), " mV"@)),
            ("Design Capacity"@, Battery::quantity_text(Battery::as_nat(v.design_capacity), " mWh"@)),
            ("SBDS Version"@, v.sbds_version),
            ("Maximum Error"@, Battery::quantity_text(Battery::as_nat(v.max_error_in_battery), "%"@)),
            ("OEM specific"@, "0x"@ + hex_upper(v.oem_specific as nat)),
        ]
    }

    fn quantity_string(value: Option<u64>, unit: &str) -> (r: String)
        ensures
            r@ == Battery::quantity_text(Battery::as_nat(value), unit@),
    {
        match value {
            Some(n) => {
                let mut s = decimal_string(n);
                s.append(unit);
                s
            },
            None => String::from_str("Unknown"),
        }
    }

    pub fn rows(&self) -> (r: Vec<Row>)
        ensures
            rows_view(r@) == Battery::rows_of(self@),
    {
        let voltage: Option<u64> = match self.design_voltage {
            Some(v) => Some(v as u64),
            None => None,
        };
        let capacity: Option<u64> = match self.design_capacity {
            Some(v) => Some(v as u64),
            None => None,
        };
        let error: Option<u64> = match self.max_error_in_battery {
            Some(v) => Some(v as u64),
            None => None,
        };
        let mut oem = String::from_str("0x");
        let digits = hex_upper_string(self.oem_specific as u64);
        oem.append(digits.as_str());
        let mut r: Vec<Row> = Vec::new();
        r.push(Row::new("location", self.location.clone()));
        r.push(Row::new("Manufacturer", self.manufacturer.clone()));
        r.push(Row::new("Manufacture Date", self.manufacture_date.clone()));
        r.push(Row::new("Serial number", self.serial_number.clone()));
        r.push(Row::new("Name", self.device_name.clone()));
        r.push(Row::new("Chemistry", self.device_chemistry.to_string()));
        r.push(Row::new("Design Voltage", Battery::quantity_string(voltage, " mV")));
        r.push(Row::new("Design Capacity", Battery::quantity_string(capacity, " mWh")));
        r.push(Row::new("SBDS Version", self.sbds_version.clone()));
        r.push(Row::new("Maximum Error", Battery::quantity_string(error, "%")));
        r.push(Row::new("OEM specific", oem));
        assert(rows_view(r@) =~= Battery::rows_of(self@));
        r
    }
}

} // verus!
