//! The Physical Memory Array structure.

use crate::bytes::{le16, le32, le64, read_le16, read_le32, read_le64};
use crate::text::{decimal, decimal_string, rows_view, Row};
use vstd::prelude::*;
use vstd::string::*;

verus! {

/// Where the memory array sits.
#[derive(Clone, Copy, Debug, PartialEq, Eq, Structural)]
pub enum Location {
    Other,
    Unknown,
    SystemBoard,
    Isa,
    Eisa,
    Pci,
    Mca,
    Pcmcia,
    Proprietary,
    NuBus,
    Pc98C20,
    Pc98C24,
    Pc98E,
    Pc98Local,
    Cxl,
    /// A code that the table format does not define.
    Undefined(u8),
}

impl Location {
    /// The location that a code stands for.
    pub open spec fn of(value: u8) -> Location {
        match value {
            1 => Location::Other,
            2 => Location::Unknown,
            3 => Location::SystemBoard,
            4 => Location::Isa,
            5 => Location::Eisa,
            6 => Location::Pci,
            7 => Location::Mca,
            8 => Location::Pcmcia,
            9 => Location::Proprietary,
            10 => Location::NuBus,
            11 => Location::Pc98C20,
            12 => Location::Pc98C24,
            13 => Location::Pc98E,
            14 => Location::Pc98Local,
            15 => Location::Cxl,
            _ => Location::Undefined(value),
        }
    }

    /// The name under which the location is shown.
    pub open spec fn label(self) -> Seq<char> {
        match self {
            Location::Other => "Other"@,
            Location::Unknown => "Unknown"@,
            Location::SystemBoard => "System board or motherboard"@,
            Location::Isa => "ISA addon-on card"@,
            Location::Eisa => "EISA addon-on card"@,
            Location::Pci => "PCI addon-on card"@,
            Location::Mca => "MCA addon-on card"@,
            Location::Pcmcia => "PCMCIA addon-on card"@,
            Location::Proprietary => "Proprietary addon-on card"@,
            Location::NuBus => "NuBus"@,
            Location::Pc98C20 => "PC-98/C20 add-on card"@,
            Location::Pc98C24 => "PC-98/C24 add-on card"@,
            Location::Pc98E => "PC-98/E add-on card"@,
            Location::Pc98Local => "PC-98/Local bus add-on card"@,
            Location::Cxl => "CXL add-on card"@,
            Location::Undefined(_) => "Undefined"@,
        }
    }

    pub fn to_string(&self) -> (s: String)
        ensures
            s@ == self.label(),
    {
        String::from_str(
            match self {
                Location::Other => "Other",
                Location::Unknown => "Unknown",
                Location::SystemBoard => "System board or motherboard",
                Location::Isa => "ISA addon-on card",
                Location::Eisa => "EISA addon-on card",
                Location::Pci => "PCI addon-on card",
                Location::Mca => "MCA addon-on card",
                Location::Pcmcia => "PCMCIA addon-on card",
                Location::Proprietary => "Proprietary addon-on card",
                Location::NuBus => "NuBus",
                Location::Pc98C20 => "PC-98/C20 add-on card",
                Location::Pc98C24 => "PC-98/C24 add-on card",
                Location::Pc98E => "PC-98/E add-on card",
                Location::Pc98Local => "PC-98/Local bus add-on card",
                Location::Cxl => "CXL add-on card",
                Location::Undefined(_) => "Undefined",
            },
        )
    }
}

impl From<u8> for Location {
    fn from(value: u8) -> (r: Self) {
        match value {
            1 => Location::Other,
            2 => Location::Unknown,
            3 => Location::SystemBoard,
            4 => Location::Isa,
            5 => Location::Eisa,
            6 => Location::Pci,
            7 => Location::Mca,
            8 => Location::Pcmcia,
            9 => Location::Proprietary,
            10 => Location::NuBus,
            11 => Location::Pc98C20,
            12 => Location::Pc98C24,
            13 => Location::Pc98E,
            14 => Location::Pc98Local,
            15 => Location::Cxl,
            _ => Location::Undefined(value),
        }
    }
}

impl vstd::std_specs::convert::FromSpecImpl<u8> for Location {
    open spec fn obeys_from_spec() -> bool {
        true
    }

    open spec fn from_spec(value: u8) -> Self {
        Location::of(value)
    }
}
/// What the memory array is used for.
#[derive(Clone, Copy, Debug, PartialEq, Eq, Structural)]
pub enum Function {
    Other,
    Unknown,
    SystemMemory,
    VideoMemory,
    FlashMemory,
    NonVolatileRAM,
    CacheMemory,
    /// A code that the table format does not define.
    Undefined(u8),
}

impl Function {
    /// The use that a code stands for.
    pub open spec fn of(value: u8) -> Function {
        match value {
            1 => Function::Other,
            2 => Function::Unknown,
            3 => Function::SystemMemory,
            4 => Function::VideoMemory,
            5 => Function::FlashMemory,
            6 => Function::NonVolatileRAM,
            7 => Function::CacheMemory,
            _ => Function::Undefined(value),
        }
    }

    /// The name under which the use is shown.
    pub open spec fn label(self) -> Seq<char> {
        match self {
            Function::Other => "Other"@,
            Function::Unknown => "Unknown"@,
            Function::SystemMemory => "System Memory"@,
            Function::VideoMemory => "Video Memory"@,
            Function::FlashMemory => "Flash Memory"@,
            Function::NonVolatileRAM => "Non-volatile RAM"@,
            Function::CacheMemory => "Cache Memory"@,
            Function::Undefined(_) => "Undefined"@,
        }
    }

    pub fn to_string(&self) -> (s: String)
        ensures
            s@ == self.label(),
    {
        String::from_str(
            match self {
                Function::Other => "Other",
                Function::Unknown => "Unknown",
                Function::SystemMemory => "System Memory",
                Function::VideoMemory => "Video Memory",
                Function::FlashMemory => "Flash Memory",
                Function::NonVolatileRAM => "Non-volatile RAM",
                Function::CacheMemory => "Cache Memory",
                Function::Undefined(_) => "Undefined",
            },
        )
    }
}

impl From<u8> for Function {
    fn from(value: u8) -> (r: Self) {
        match value {
            1 => Function::Other,
            2 => Function::Unknown,
            3 => Function::SystemMemory,
            4 => Function::VideoMemory,
            5 => Function::FlashMemory,
            6 => Function::NonVolatileRAM,
            7 => Function::CacheMemory,
            _ => Function::Undefined(value),
        }
    }
}

impl vstd::std_specs::convert::FromSpecImpl<u8> for Function {
    open spec fn obeys_from_spec() -> bool {
        true
    }

    open spec fn from_spec(value: u8) -> Self {
        Function::of(value)
    }
}
/// How the memory array detects or corrects errors.
#[derive(Clone, Copy, Debug, PartialEq, Eq, Structural)]
pub enum ErrorCorrection {
    Other,
    Unknown,
    NoCorrection,
    Parity,
    SingleBitECC,
    MultiBitECC,
    Crc,
    /// A code that the table format does not define.
    Undefined(u8),
}

impl ErrorCorrection {
    /// The error correction that a code stands for.
    pub open spec fn of(value: u8) -> ErrorCorrection {
        match value {
            1 => ErrorCorrection::Other,
            2 => ErrorCorrection::Unknown,
            3 => ErrorCorrection::NoCorrection,
            4 => ErrorCorrection::Parity,
            5 => ErrorCorrection::SingleBitECC,
            6 => ErrorCorrection::MultiBitECC,
            7 => ErrorCorrection::Crc,
            _ => ErrorCorrection::Undefined(value),
        }
    }

    /// The name under which the error correction is shown.
    pub open spec fn label(self) -> Seq<char> {
        match self {
            ErrorCorrection::Other => "Other"@,
            ErrorCorrection::Unknown => "Unknown"@,
            ErrorCorrection::NoCorrection => "None"@,
            ErrorCorrection::Parity => "Parity"@,
            ErrorCorrection::SingleBitECC => "Single-bit ECC"@,
            ErrorCorrection::MultiBitECC => "Multi-bit ECC"@,
            ErrorCorrection::Crc => "CRC"@,
            ErrorCorrection::Undefined(_) => "Undefined"@,
        }
    }

    pub fn to_string(&self) -> (s: String)
        ensures
            s@ == self.label(),
    {
        String::from_str(
            match self {
                ErrorCorrection::Other => "Other",
                ErrorCorrection::Unknown => "Unknown",
                ErrorCorrection::NoCorrection => "None",
                ErrorCorrection::Parity => "Parity",
                ErrorCorrection::SingleBitECC => "Single-bit ECC",
                ErrorCorrection::MultiBitECC => "Multi-bit ECC",
                ErrorCorrection::Crc => "CRC",
                ErrorCorrection::Undefined(_) => "Undefined",
            },
        )
    }
}

impl From<u8> for ErrorCorrection {
    fn from(value: u8) -> (r: Self) {
        match value {
            1 => ErrorCorrection::Other,
            2 => ErrorCorrection::Unknown,
            3 => ErrorCorrection::NoCorrection,
            4 => ErrorCorrection::Parity,
            5 => ErrorCorrection::SingleBitECC,
            6 => ErrorCorrection::MultiBitECC,
            7 => ErrorCorrection::Crc,
            _ => ErrorCorrection::Undefined(value),
        }
    }
}

impl vstd::std_specs::convert::FromSpecImpl<u8> for ErrorCorrection {
    open spec fn obeys_from_spec() -> bool {
        true
    }

    open spec fn from_spec(value: u8) -> Self {
        ErrorCorrection::of(value)
    }
}
/// The value of the capacity field that says "look at the extended field".
pub const EXTENDED_CAPACITY: u32 = 0x8000_8000;

/// The value of the error handle field that says "no error information".
pub const NO_ERROR_INFORMATION: u16 = 0xFFFE;

/// A capacity in KiB, scaled down to the largest unit among K, M and G that
/// it exceeds, with the remainder dropped.
pub open spec fn capacity_text(kib: nat) -> Seq<char> {
    if kib <= 1024 {
        decimal(kib) + "K"@
    } else if kib <= 1024 * 1024 {
        decimal(kib / 1024) + "M"@
    } else {
        decimal(kib / 1024 / 1024) + "G"@
    }
}

/// Formats a capacity given in KiB.
pub fn capacity_string(kib: u32) -> (r: String)
    ensures
        r@ == capacity_text(kib as nat),
{
    if kib <= 1024 {
        let mut s = decimal_string(kib as u64);
        s.append("K");
        s
    } else if kib <= 1024 * 1024 {
        let mut s = decimal_string((kib / 1024) as u64);
        s.append("M");
        s
    } else {
        let mut s = decimal_string((kib / 1024 / 1024) as u64);
        s.append("G");
        s
    }
}

/// A set of memory devices that are addressed together.
#[derive(Debug)]
pub struct PhysicalMemoryArray {
    pub location: Location,
    pub function: Function,
    pub error_correction: ErrorCorrection,
    pub max_capacity: String,
    pub error_information_handle: Option<u16>,
    pub number_memory_devices: u16,
}

/// A [`PhysicalMemoryArray`] as plain values.
pub struct PhysicalMemoryArrayView {
    pub location: Location,
    pub function: Function,
    pub error_correction: ErrorCorrection,
    pub max_capacity: Seq<char>,
    pub error_information_handle: Option<u16>,
    pub number_memory_devices: u16,
}

impl View for PhysicalMemoryArray {
    type V = PhysicalMemoryArrayView;

    open spec fn view(&self) -> PhysicalMemoryArrayView {
        PhysicalMemoryArrayView {
            location: self.location,
            function: self.function,
            error_correction: self.error_correction,
            max_capacity: self.max_capacity@,
            error_information_handle: self.error_information_handle,
            number_memory_devices: self.number_memory_devices,
        }
    }
}

impl PhysicalMemoryArray {
    /// Whether the capacity stands in the extended field.
    pub open spec fn extended(data: Seq<u8>) -> bool {
        le32(data, 3) == EXTENDED_CAPACITY
    }

    /// Whether a record body is long enough to hold the structure, the
    /// extended capacity included where the body refers to it.
    pub open spec fn accepts(data: Seq<u8>) -> bool {
        data.len() >= 11 && (PhysicalMemoryArray::extended(data) ==> data.len() >= 19)
    }

    /// The capacity that a record body announces.
    pub open spec fn max_capacity_of(data: Seq<u8>) -> Seq<char> {
        if PhysicalMemoryArray::extended(data) {
            decimal(le64(data, 11) as nat) + "T"@
        } else {
            capacity_text(le32(data, 3) as nat)
        }
    }

    /// The structure that a record body describes.
    pub open spec fn decoded(data: Seq<u8>) -> PhysicalMemoryArrayView {
        PhysicalMemoryArrayView {
            location: Location::of(data[0]),
            function: Function::of(data[1]),
            error_correction: ErrorCorrection::of(data[2]),
            max_capacity: PhysicalMemoryArray::max_capacity_of(data),
            error_information_handle: if le16(data, 7) == NO_ERROR_INFORMATION {
                None
            } else {
                Some(le16(data, 7) as u16)
            },
            number_memory_devices: le16(data, 9) as u16,
        }
    }

    /// Whether a record body is long enough to hold the structure.
    pub fn fits(data: &[u8]) -> (r: bool)
        ensures
            r == PhysicalMemoryArray::accepts(data@),
    {
        data.len() >= 11 && (read_le32(data, 3) != EXTENDED_CAPACITY || data.len() >= 19)
    }

    /// Decodes a record body that is long enough.
    pub fn from_body(data: &[u8]) -> (r: PhysicalMemoryArray)
        requires
            PhysicalMemoryArray::accepts(data@),
        ensures
            r@ == PhysicalMemoryArray::decoded(data@),
    {
        let value = read_le32(data, 3);
        let max_capacity = if value == EXTENDED_CAPACITY {
            let mut s = decimal_string(read_le64(data, 11));
            s.append("T");
            s
        } else {
            capacity_string(value)
        };
        let handle = read_le16(data, 7);
        PhysicalMemoryArray {
            location: Location::from(data[0]),
            function: Function::from(data[1]),
            error_correction: ErrorCorrection::from(data[2]),
            max_capacity,
            error_information_handle: if handle == NO_ERROR_INFORMATION {
                None
            } else {
                Some(handle)
            },
            number_memory_devices: read_le16(data, 9),
        }
    }

    /// Decodes a record body, or says that it is too short.
    pub fn decode(data: &[u8]) -> (r: Option<PhysicalMemoryArray>)
        ensures
            r is Some <==> PhysicalMemoryArray::accepts(data@),
            r matches Some(m) ==> m@ == PhysicalMemoryArray::decoded(data@),
    {
        if PhysicalMemoryArray::fits(data) {
            Some(PhysicalMemoryArray::from_body(data))
        } else {
            None
        }
    }

    /// The lines under which the structure is shown.
    pub open spec fn rows_of(v: PhysicalMemoryArrayView) -> Seq<(Seq<char>, Seq<char>)> {
        seq![
            ("Location"@, v.location.label()),
            ("Use"@, v.function.label()),
            ("Error Correction"@, v.error_correction.label()),
            ("Maximum Capacity"@, v.max_capacity),
            (
                "Error Information Handle "@,
                match v.error_information_handle {
                    Some(h) => decimal(h as nat),
                    None => "Not Provided"@,
                },
            ),
            ("Number Of Devices"@, decimal(v.number_memory_devices as nat)),
        ]
    }

    pub fn rows(&self) -> (r: Vec<Row>)
        ensures
            rows_view(r@) == PhysicalMemoryArray::rows_of(self@),
    {
        let handle = match self.error_information_handle {
            Some(h) => decimal_string(h as u64),
            None => String::from_str("Not Provided"),
        };
        let mut r: Vec<Row> = Vec::new();
        r.push(Row::new("Location", self.location.to_string()));
        r.push(Row::new("Use", self.function.to_string()));
        r.push(Row::new("Error Correction", self.error_correction.to_string()));
        r.push(Row::new("Maximum Capacity", self.max_capacity.clone()));
        r.push(Row::new("Error Information Handle ", handle));
        r.push(Row::new("Number Of Devices", decimal_string(self.number_memory_devices as u64)));
        assert(rows_view(r@) =~= PhysicalMemoryArray::rows_of(self@));
        r
    }
}

/// What the table says of the system's memory.
#[derive(Debug)]
pub struct Memory {
    pub physical_memory_array: PhysicalMemoryArray,
}

impl View for Memory {
    type V = PhysicalMemoryArrayView;

    open spec fn view(&self) -> PhysicalMemoryArrayView {
        self.physical_memory_array@
    }
}

impl Memory {
    pub fn rows(&self) -> (r: Vec<Row>)
        ensures
            rows_view(r@) == PhysicalMemoryArray::rows_of(self@),
    {
        self.physical_memory_array.rows()
    }
}

} // verus!
