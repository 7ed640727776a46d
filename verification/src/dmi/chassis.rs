//! The System Enclosure (chassis) structure.

use crate::bytes::{bit, bit_set, le32, read_le32};
use crate::text::{
    decimal, decimal_string, get_string, hex_upper, hex_upper_string, rows_view, string_at, texts,
    Row,
};
use vstd::prelude::*;
use vstd::string::*;

verus! {

/// The form of the enclosure.
#[derive(Clone, Copy, Debug, PartialEq, Eq, Structural)]
pub enum ChassisType {
    Other,
    Unknown,
    Desktop,
    LowProfileDesktop,
    PizzaBox,
    MiniTower,
    Tower,
    Portable,
    Laptop,
    Notebook,
    HandHeld,
    DockingStation,
    AllInOne,
    SubNotebook,
    SpaceSaving,
    LunchBox,
    MainServerChassis,
    ExpansionChassis,
    SubChassis,
    BusExpansionChassis,
    PeripheralChassis,
    RAIDChassis,
    RackMountChassis,
    SealedcasePC,
    MultisystemChassis,
    CompactPCI,
    AdvancedTCA,
    Blade,
    BladeEncolsure,
    Tablet,
    Convertible,
    Detachable,
    IoTGateway,
    EmbeddedPC,
    MiniPC,
    StickPC,
    /// A code that the table format does not define.
    Undefined(u8),
}

impl ChassisType {
    /// The chassis type that a code stands for.
    pub open spec fn of(value: u8) -> ChassisType {
        match value {
            1 => ChassisType::Other,
            2 => ChassisType::Unknown,
            3 => ChassisType::Desktop,
            4 => ChassisType::LowProfileDesktop,
            5 => ChassisType::PizzaBox,
            6 => ChassisType::MiniTower,
            7 => ChassisType::Tower,
            8 => ChassisType::Portable,
            9 => ChassisType::Laptop,
            10 => ChassisType::Notebook,
            11 => ChassisType::HandHeld,
            12 => ChassisType::DockingStation,
            13 => ChassisType::AllInOne,
            14 => ChassisType::SubNotebook,
            15 => ChassisType::SpaceSaving,
            16 => ChassisType::LunchBox,
            17 => ChassisType::MainServerChassis,
            18 => ChassisType::ExpansionChassis,
            19 => ChassisType::SubChassis,
            20 => ChassisType::BusExpansionChassis,
            21 => ChassisType::PeripheralChassis,
            22 => ChassisType::RAIDChassis,
            23 => ChassisType::RackMountChassis,
            24 => ChassisType::SealedcasePC,
            25 => ChassisType::MultisystemChassis,
            26 => ChassisType::CompactPCI,
            27 => ChassisType::AdvancedTCA,
            28 => ChassisType::Blade,
            29 => ChassisType::BladeEncolsure,
            30 => ChassisType::Tablet,
            31 => ChassisType::Convertible,
            32 => ChassisType::Detachable,
            33 => ChassisType::IoTGateway,
            34 => ChassisType::EmbeddedPC,
            35 => ChassisType::MiniPC,
            36 => ChassisType::StickPC,
            _ => ChassisType::Undefined(value),
        }
    }

    /// The name under which the chassis type is shown.
    pub open spec fn label(self) -> Seq<char> {
        match self {
            ChassisType::Other => "Other"@,
            ChassisType::Unknown => "Unknown"@,
            ChassisType::Desktop => "Desktop"@,
            ChassisType::LowProfileDesktop => "Low Profile Desktop"@,
            ChassisType::PizzaBox => "Pizza Box "@,
            ChassisType::MiniTower => "Mini Tower"@,
            ChassisType::Tower => "Tower"@,
            ChassisType::Portable => "Portable"@,
            ChassisType::Laptop => "Laptop"@,
            ChassisType::Notebook => "Notebook"@,
            ChassisType::HandHeld => "Hand Held"@,
            ChassisType::DockingStation => "Docking Station"@,
            ChassisType::AllInOne => "All in One"@,
            ChassisType::SubNotebook => "Sub Notebook"@,
            ChassisType::SpaceSaving => "Space-saving"@,
            ChassisType::LunchBox => "Lunch Box"@,
            ChassisType::MainServerChassis => "Main Server Chassis"@,
            ChassisType::ExpansionChassis => "Expansion Chassis"@,
            ChassisType::SubChassis => "SubChassis"@,
            ChassisType::BusExpansionChassis => "Bus Expansion Chassis"@,
            ChassisType::PeripheralChassis => "Peripheral Chassis"@,
            ChassisType::RAIDChassis => "RAID Chassis"@,
            ChassisType::RackMountChassis => "Rack Mount Chassis"@,
            ChassisType::SealedcasePC => "Sealed-case PC"@,
            ChassisType::MultisystemChassis => "Multi-system chassis"@,
            ChassisType::CompactPCI => "Compact PCI"@,
            ChassisType::AdvancedTCA => "Advanced TCA"@,
            ChassisType::Blade => "Blade"@,
            ChassisType::BladeEncolsure => "Blade Enclosure"@,
            ChassisType::Tablet => "Tablet"@,
            ChassisType::Convertible => "Convertible"@,
            ChassisType::Detachable => "Detachable"@,
            ChassisType::IoTGateway => "IoT Gateway"@,
            ChassisType::EmbeddedPC => "Embedded PC"@,
            ChassisType::MiniPC => "Mini PC"@,
            ChassisType::StickPC => "Stick PC"@,
            ChassisType::Undefined(_) => "Undefined"@,
        }
    }

    pub fn to_string(&self) -> (s: String)
        ensures
            s@ == self.label(),
    {
        String::from_str(
            match self {
                ChassisType::Other => "Other",
                ChassisType::Unknown => "Unknown",
                ChassisType::Desktop => "Desktop",
                ChassisType::LowProfileDesktop => "Low Profile Desktop",
                ChassisType::PizzaBox => "Pizza Box ",
                ChassisType::MiniTower => "Mini Tower",
                ChassisType::Tower => "Tower",
                ChassisType::Portable => "Portable",
                ChassisType::Laptop => "Laptop",
                ChassisType::Notebook => "Notebook",
                ChassisType::HandHeld => "Hand Held",
                ChassisType::DockingStation => "Docking Station",
                ChassisType::AllInOne => "All in One",
                ChassisType::SubNotebook => "Sub Notebook",
                ChassisType::SpaceSaving => "Space-saving",
                ChassisType::LunchBox => "Lunch Box",
                ChassisType::MainServerChassis => "Main Server Chassis",
                ChassisType::ExpansionChassis => "Expansion Chassis",
                ChassisType::SubChassis => "SubChassis",
                ChassisType::BusExpansionChassis => "Bus Expansion Chassis",
                ChassisType::PeripheralChassis => "Peripheral Chassis",
                ChassisType::RAIDChassis => "RAID Chassis",
                ChassisType::RackMountChassis => "Rack Mount Chassis",
                ChassisType::SealedcasePC => "Sealed-case PC",
                ChassisType::MultisystemChassis => "Multi-system chassis",
                ChassisType::CompactPCI => "Compact PCI",
                ChassisType::AdvancedTCA => "Advanced TCA",
                ChassisType::Blade => "Blade",
                ChassisType::BladeEncolsure => "Blade Enclosure",
                ChassisType::Tablet => "Tablet",
                ChassisType::Convertible => "Convertible",
                ChassisType::Detachable => "Detachable",
                ChassisType::IoTGateway => "IoT Gateway",
                ChassisType::EmbeddedPC => "Embedded PC",
                ChassisType::MiniPC => "Mini PC",
                ChassisType::StickPC => "Stick PC",
                ChassisType::Undefined(_) => "Undefined",
            },
        )
    }
}

impl From<u8> for ChassisType {
    fn from(value: u8) -> (r: Self) {
        match value {
            1 => ChassisType::Other,
            2 => ChassisType::Unknown,
            3 => ChassisType::Desktop,
            4 => ChassisType::LowProfileDesktop,
            5 => ChassisType::PizzaBox,
            6 => ChassisType::MiniTower,
            7 => ChassisType::Tower,
            8 => ChassisType::Portable,
            9 => ChassisType::Laptop,
            10 => ChassisType::Notebook,
            11 => ChassisType::HandHeld,
            12 => ChassisType::DockingStation,
            13 => ChassisType::AllInOne,
            14 => ChassisType::SubNotebook,
            15 => ChassisType::SpaceSaving,
            16 => ChassisType::LunchBox,
            17 => ChassisType::MainServerChassis,
            18 => ChassisType::ExpansionChassis,
            19 => ChassisType::SubChassis,
            20 => ChassisType::BusExpansionChassis,
            21 => ChassisType::PeripheralChassis,
            22 => ChassisType::RAIDChassis,
            23 => ChassisType::RackMountChassis,
            24 => ChassisType::SealedcasePC,
            25 => ChassisType::MultisystemChassis,
            26 => ChassisType::CompactPCI,
            27 => ChassisType::AdvancedTCA,
            28 => ChassisType::Blade,
            29 => ChassisType::BladeEncolsure,
            30 => ChassisType::Tablet,
            31 => ChassisType::Convertible,
            32 => ChassisType::Detachable,
            33 => ChassisType::IoTGateway,
            34 => ChassisType::EmbeddedPC,
            35 => ChassisType::MiniPC,
            36 => ChassisType::StickPC,
            _ => ChassisType::Undefined(value),
        }
    }
}

impl vstd::std_specs::convert::FromSpecImpl<u8> for ChassisType {
    open spec fn obeys_from_spec() -> bool {
        true
    }

    open spec fn from_spec(value: u8) -> Self {
        ChassisType::of(value)
    }
}
/// How the enclosure, its power supply or its cooling fares.
#[derive(Clone, Copy, Debug, PartialEq, Eq, Structural)]
pub enum State {
    Other,
    Unknown,
    Safe,
    Warning,
    Critical,
    NonRecoverable,
    /// A code that the table format does not define.
    Undefined(u8),
}

impl State {
    /// The state that a code stands for.
    pub open spec fn of(value: u8) -> State {
        match value {
            1 => State::Other,
            2 => State::Unknown,
            3 => State::Safe,
            4 => State::Warning,
            5 => State::Critical,
            6 => State::NonRecoverable,
            _ => State::Undefined(value),
        }
    }

    /// The name under which the state is shown.
    pub open spec fn label(self) -> Seq<char> {
        match self {
            State::Other => "Other"@,
            State::Unknown => "Unknown"@,
            State::Safe => "Safe"@,
            State::Warning => "Warning"@,
            State::Critical => "Critical"@,
            State::NonRecoverable => "Non Recoverable"@,
            State::Undefined(_) => "Undefined"@,
        }
    }

    pub fn to_string(&self) -> (s: String)
        ensures
            s@ == self.label(),
    {
        String::from_str(
            match self {
                State::Other => "Other",
                State::Unknown => "Unknown",
                State::Safe => "Safe",
                State::Warning => "Warning",
                State::Critical => "Critical",
                State::NonRecoverable => "Non Recoverable",
                State::Undefined(_) => "Undefined",
            },
        )
    }
}

impl From<u8> for State {
    fn from(value: u8) -> (r: Self) {
        match value {
            1 => State::Other,
            2 => State::Unknown,
            3 => State::Safe,
            4 => State::Warning,
            5 => State::Critical,
            6 => State::NonRecoverable,
            _ => State::Undefined(value),
        }
    }
}

impl vstd::std_specs::convert::FromSpecImpl<u8> for State {
    open spec fn obeys_from_spec() -> bool {
        true
    }

    open spec fn from_spec(value: u8) -> Self {
        State::of(value)
    }
}
/// How the enclosure is secured.
#[derive(Clone, Copy, Debug, PartialEq, Eq, Structural)]
pub enum SecurityStatus {
    Other,
    Unknown,
    NoSecurity,
    ExternalInterfaceLockedout,
    ExternalInterfaceEnabled,
    /// A code that the table format does not define.
    Undefined(u8),
}

impl SecurityStatus {
    /// The security status that a code stands for.
    pub open spec fn of(value: u8) -> SecurityStatus {
        match value {
            1 => SecurityStatus::Other,
            2 => SecurityStatus::Unknown,
            3 => SecurityStatus::NoSecurity,
            4 => SecurityStatus::ExternalInterfaceLockedout,
            5 => SecurityStatus::ExternalInterfaceEnabled,
            _ => SecurityStatus::Undefined(value),
        }
    }

    /// The name under which the security status is shown.
    pub open spec fn label(self) -> Seq<char> {
        match self {
            SecurityStatus::Other => "Other"@,
            SecurityStatus::Unknown => "Unknown"@,
            SecurityStatus::NoSecurity => "None"@,
            SecurityStatus::ExternalInterfaceLockedout => "External interface locked out"@,
            SecurityStatus::ExternalInterfaceEnabled => "External interface enabled"@,
            SecurityStatus::Undefined(_) => "Undefined"@,
        }
    }

    pub fn to_string(&self) -> (s: String)
        ensures
            s@ == self.label(),
    {
        String::from_str(
            match self {
                SecurityStatus::Other => "Other",
                SecurityStatus::Unknown => "Unknown",
                SecurityStatus::NoSecurity => "None",
                SecurityStatus::ExternalInterfaceLockedout => "External interface locked out",
                SecurityStatus::ExternalInterfaceEnabled => "External interface enabled",
                SecurityStatus::Undefined(_) => "Undefined",
            },
        )
    }
}

impl From<u8> for SecurityStatus {
    fn from(value: u8) -> (r: Self) {
        match value {
            1 => SecurityStatus::Other,
            2 => SecurityStatus::Unknown,
            3 => SecurityStatus::NoSecurity,
            4 => SecurityStatus::ExternalInterfaceLockedout,
            5 => SecurityStatus::ExternalInterfaceEnabled,
            _ => SecurityStatus::Undefined(value),
        }
    }
}

impl vstd::std_specs::convert::FromSpecImpl<u8> for SecurityStatus {
    open spec fn obeys_from_spec() -> bool {
        true
    }

    open spec fn from_spec(value: u8) -> Self {
        SecurityStatus::of(value)
    }
}
/// A byte in which 0 stands for "not given".
pub open spec fn nonzero(value: u8) -> Option<u8> {
    if value == 0 {
        None
    } else {
        Some(value)
    }
}

/// The enclosure of the system.
#[derive(Debug)]
pub struct Chassis {
    pub manufacturer: String,
    pub chassis_type: ChassisType,
    pub lock: bool,
    pub version: String,
    pub serial_number: String,
    pub asset_tag_number: String,
    pub bootup_state: State,
    pub power_supply_state: State,
    pub thermal_state: State,
    pub security_status: SecurityStatus,
    pub oem_defined: u32,
    pub height: Option<u8>,
    pub number_power_cords: Option<u8>,
    pub contained_element_count: u8,
    pub contained_element_record_length: u8,
    pub sku_number: String,
}

/// A [`Chassis`] as plain values.
pub struct ChassisView {
    pub manufacturer: Seq<char>,
    pub chassis_type: ChassisType,
    pub lock: bool,
    pub version: Seq<char>,
    pub serial_number: Seq<char>,
    pub asset_tag_number: Seq<char>,
    pub bootup_state: State,
    pub power_supply_state: State,
    pub thermal_state: State,
    pub security_status: SecurityStatus,
    pub oem_defined: u32,
    pub height: Option<u8>,
    pub number_power_cords: Option<u8>,
    pub contained_element_count: u8,
    pub contained_element_record_length: u8,
    pub sku_number: Seq<char>,
}

impl View for Chassis {
    type V = ChassisView;

    open spec fn view(&self) -> ChassisView {
        ChassisView {
            manufacturer: self.manufacturer@,
            chassis_type: self.chassis_type,
            lock: self.lock,
            version: self.version@,
            serial_number: self.serial_number@,
            asset_tag_number: self.asset_tag_number@,
            bootup_state: self.bootup_state,
            power_supply_state: self.power_supply_state,
            thermal_state: self.thermal_state,
            security_status: self.security_status,
            oem_defined: self.oem_defined,
            height: self.height,
            number_power_cords: self.number_power_cords,
            contained_element_count: self.contained_element_count,
            contained_element_record_length: self.contained_element_record_length,
            sku_number: self.sku_number@,
        }
    }
}

impl Chassis {
    /// Where the fixed part of the body ends and the contained elements
    /// begin.
    pub open spec fn elements_offset() -> int {
        17
    }

    /// Where the reference to the SKU number stands: behind the contained
    /// elements, whose extent the body itself announces.
    pub open spec fn sku_offset(data: Seq<u8>) -> int {
        Chassis::elements_offset() + data[15] * data[16]
    }

    /// Whether a record body is long enough to hold the structure,
    /// contained elements included.
    pub open spec fn accepts(data: Seq<u8>) -> bool {
        data.len() >= 17 && data.len() > Chassis::sku_offset(data)
    }

    /// The structure that a record body and its string table describe.
    pub open spec fn decoded(data: Seq<u8>, table: Seq<Seq<char>>) -> ChassisView {
        ChassisView {
            manufacturer: string_at(table, data[0]),
            chassis_type: ChassisType::of((data[1] % 128) as u8),
            lock: bit(data[1] as u64, 7),
            version: string_at(table, data[2]),
            serial_number: string_at(table, data[3]),
            asset_tag_number: string_at(table, data[4]),
            bootup_state: State::of(data[5]),
            power_supply_state: State::of(data[6]),
            thermal_state: State::of(data[7]),
            security_status: SecurityStatus::of(data[8]),
            oem_defined: le32(data, 9) as u32,
            height: nonzero(data[13]),
            number_power_cords: nonzero(data[14]),
            contained_element_count: data[15],
            contained_element_record_length: data[16],
            sku_number: string_at(table, data[Chassis::sku_offset(data)]),
        }
    }

    /// Whether a record body is long enough to hold the structure.
    pub fn fits(data: &[u8]) -> (r: bool)
        ensures
            r == Chassis::accepts(data@),
    {
        if data.len() < 17 {
            return false;
        }
        let count = data[15] as usize;
        let length = data[16] as usize;
        assert(count * length <= 255 * 255) by (nonlinear_arith)
            requires
                count <= 255,
                length <= 255,
        ;
        data.len() > 17 + count * length
    }

    /// Decodes a record body that is long enough.
    pub fn from_body(data: &[u8], table: &[String]) -> (r: Chassis)
        requires
            Chassis::accepts(data@),
        ensures
            r@ == Chassis::decoded(data@, texts(table@)),
    {
        let count = data[15] as usize;
        let length = data[16] as usize;
        assert(count * length <= 255 * 255) by (nonlinear_arith)
            requires
                count <= 255,
                length <= 255,
        ;
        let sku_at = 17 + count * length;
        Chassis {
            manufacturer: get_string(table, data[0]),
            chassis_type: ChassisType::from(data[1] % 128),
            lock: bit_set(data[1] as u64, 7),
            version: get_string(table, data[2]),
            serial_number: get_string(table, data[3]),
            asset_tag_number: get_string(table, data[4]),
            bootup_state: State::from(data[5]),
            power_supply_state: State::from(data[6]),
            thermal_state: State::from(data[7]),
            security_status: SecurityStatus::from(data[8]),
            oem_defined: read_le32(data, 9),
            height: if data[13] == 0 {
                None
            } else {
                Some(data[13])
            },
            number_power_cords: if data[14] == 0 {
                None
            } else {
                Some(data[14])
            },
            contained_element_count: data[15],
            contained_element_record_length: data[16],
            sku_number: get_string(table, data[sku_at]),
        }
    }

    /// Decodes a record body, or says that it is too short.
    pub fn decode(data: &[u8], table: &[String]) -> (r: Option<Chassis>)
        ensures
            r is Some <==> Chassis::accepts(data@),
            r matches Some(c) ==> c@ == Chassis::decoded(data@, texts(table@)),
    {
        if Chassis::fits(data) {
            Some(Chassis::from_body(data, table))
        } else {
            None
        }
    }

    /// How an optional count is shown, with the unit that follows it.
    pub open spec fn count_text(value: Option<u8>, unit: Seq<char>) -> Seq<char> {
        match value {
            Some(n) => decimal(n as nat) + unit,
            None => "Unspecified"@,
        }
    }

    /// The lines under which the structure is shown.
    pub open spec fn rows_of(v: ChassisView) -> Seq<(Seq<char>, Seq<char>)> {
        seq![
            ("Manufacturer"@, v.manufacturer),
            ("Type"@, v.chassis_type.label()),
            ("Lock"@, if v.lock { "Present"@ } else { "Not present"@ }),
            ("Version"@, v.version),
            ("Serial number"@, v.serial_number),
            ("Asset Tag Number"@, v.asset_tag_number),
            ("Bootup State"@, v.bootup_state.label()),
            ("Power Supply State"@, v.power_supply_state.label()),
            ("Thermal State"@, v.thermal_state.label()),
            ("Security Status"@, v.security_status.label()),
            ("OEM defined"@, "0x"@ + hex_upper(v.oem_defined as nat)),
            ("Height"@, Chassis::count_text(v.height, "U"@)),
            ("Number of Power Cords"@, Chassis::count_text(v.number_power_cords, ""@)),
            ("contained elements"@, decimal(v.contained_element_count as nat)),
            ("SKU"@, v.sku_number),
        ]
    }

    fn count_string(value: Option<u8>, unit: &str) -> (r: String)
        ensures
            r@ == Chassis::count_text(value, unit@),
    {
        match value {
            Some(n) => {
                let mut s = decimal_string(n as u64);
                s.append(unit);
                s
            },
            None => String::from_str("Unspecified"),
        }
    }

    pub fn rows(&self) -> (r: Vec<Row>)
        ensures
            rows_view(r@) == Chassis::rows_of(self@),
    {
        let mut oem = String::from_str("0x");
        let digits = hex_upper_string(self.oem_defined as u64);
        oem.append(digits.as_str());
        let mut r: Vec<Row> = Vec::new();
        r.push(Row::new("Manufacturer", self.manufacturer.clone()));
        r.push(Row::new("Type", self.chassis_type.to_string()));
        r.push(
            Row::new(
                "Lock",
                if self.lock {
                    String::from_str("Present")
                } else {
                    String::from_str("Not present")
                },
            ),
        );
        r.push(Row::new("Version", self.version.clone()));
        r.push(Row::new("Serial number", self.serial_number.clone()));
        r.push(Row::new("Asset Tag Number", self.asset_tag_number.clone()));
        r.push(Row::new("Bootup State", self.bootup_state.to_string()));
        r.push(Row::new("Power Supply State", self.power_supply_state.to_string()));
        r.push(Row::new("Thermal State", self.thermal_state.to_string()));
        r.push(Row::new("Security Status", self.security_status.to_string()));
        r.push(Row::new("OEM defined", oem));
        r.push(Row::new("Height", Chassis::count_string(self.height, "U")));
        r.push(Row::new("Number of Power Cords", Chassis::count_string(self.number_power_cords, "")));
        r.push(Row::new("contained elements", decimal_string(self.contained_element_count as u64)));
        r.push(Row::new("SKU", self.sku_number.clone()));
        assert(rows_view(r@) =~= Chassis::rows_of(self@));
        r
    }
}

} // verus!
