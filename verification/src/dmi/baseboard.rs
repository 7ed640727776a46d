//! The Baseboard (module) Information structure.

use crate::bytes::{bit, bit_set};
use crate::text::{get_string, rows_view, string_at, texts, Row};
use vstd::prelude::*;
use vstd::string::*;

verus! {

/// A property that a board can have, one per bit of the feature flags.
#[derive(Clone, Copy, Debug, PartialEq, Eq, Structural)]
pub enum Feature {
    HotSwappable,
    Replaceable,
    Removable,
    RequiresOneDaughterBoard,
    HostingBoard,
}

impl Feature {
    /// The bit of the feature flags that announces the feature.
    pub open spec fn flag(self) -> u64 {
        match self {
            Feature::HostingBoard => 0,
            Feature::RequiresOneDaughterBoard => 1,
            Feature::Removable => 2,
            Feature::Replaceable => 3,
            Feature::HotSwappable => 4,
        }
    }

    /// The sentence under which the feature is shown.
    pub open spec fn label(self) -> Seq<char> {
        match self {
            Feature::HotSwappable => "The board is hot swappable"@,
            Feature::Replaceable => "The board is replaceable"@,
            Feature::Removable => "The board is removable"@,
            Feature::RequiresOneDaughterBoard => "The board requires at least one daughter board or auxiliary card to function properly"@,
            Feature::HostingBoard => "The board is a hosting board (for example, a motherboard)."@,
        }
    }

    pub fn to_string(&self) -> (s: String)
        ensures
            s@ == self.label(),
    {
        String::from_str(
            match self {
                Feature::HotSwappable => "The board is hot swappable",
                Feature::Replaceable => "The board is replaceable",
                Feature::Removable => "The board is removable",
                Feature::RequiresOneDaughterBoard => "The board requires at least one daughter board or auxiliary card to function properly",
                Feature::HostingBoard => "The board is a hosting board (for example, a motherboard).",
            },
        )
    }
}

/// The features that a flag byte announces, lowest bit first.
pub open spec fn features_of(flags: u8) -> Seq<Feature> {
    only_if(flags, Feature::HostingBoard) + only_if(flags, Feature::RequiresOneDaughterBoard)
        + only_if(flags, Feature::Removable) + only_if(flags, Feature::Replaceable) + only_if(
        flags,
        Feature::HotSwappable,
    )
}

/// The feature alone where its bit is set, nothing where it is not.
pub open spec fn only_if(flags: u8, feature: Feature) -> Seq<Feature> {
    if bit(flags as u64, feature.flag()) {
        seq![feature]
    } else {
        Seq::empty()
    }
}

/// What kind of board this is.
#[derive(Clone, Copy, Debug, PartialEq, Eq, Structural)]
pub enum BoardType {
    Unknown,
    Other,
    ServerBlade,
    ConnectivitySwitch,
    SystemManagementModule,
    ProcessorModule,
    IOModule,
    MemoryModule,
    DaughterBoard,
    MotherBoard,
    ProcessorMemoryModule,
    ProcessorIOModule,
    InterconnectedModule,
    /// A code that the table format does not define.
    Undefined(u8),
}

impl BoardType {
    /// The board type that a code stands for.
    pub open spec fn of(value: u8) -> BoardType {
        match value {
            1 => BoardType::Unknown,
            2 => BoardType::Other,
            3 => BoardType::ServerBlade,
            4 => BoardType::ConnectivitySwitch,
            5 => BoardType::SystemManagementModule,
            6 => BoardType::ProcessorModule,
            7 => BoardType::IOModule,
            8 => BoardType::MemoryModule,
            9 => BoardType::DaughterBoard,
            10 => BoardType::MotherBoard,
            11 => BoardType::ProcessorMemoryModule,
            12 => BoardType::ProcessorIOModule,
            13 => BoardType::InterconnectedModule,
            _ => BoardType::Undefined(value),
        }
    }

    /// The name under which the board type is shown.
    pub open spec fn label(self) -> Seq<char> {
        match self {
            BoardType::Unknown => "Unknown"@,
            BoardType::Other => "Other"@,
            BoardType::ServerBlade => "Server Blade"@,
            BoardType::ConnectivitySwitch => "Connectivity Switch"@,
            BoardType::SystemManagementModule => "System Management Module"@,
            BoardType::ProcessorModule => "Processor Module"@,
            BoardType::IOModule => "I/O Module"@,
            BoardType::MemoryModule => "Memory Module"@,
            BoardType::DaughterBoard => "Daughter board"@,
            BoardType::MotherBoard => "Motherboard (includes processor, memory, and I/O)"@,
            BoardType::ProcessorMemoryModule => "Processor/Memory Module"@,
            BoardType::ProcessorIOModule => "Processor/IO Module"@,
            BoardType::InterconnectedModule => "Interconnect board"@,
            BoardType::Undefined(_) => "Undefined"@,
        }
    }

    pub fn to_string(&self) -> (s: String)
        ensures
            s@ == self.label(),
    {
        String::from_str(
            match self {
                BoardType::Unknown => "Unknown",
                BoardType::Other => "Other",
                BoardType::ServerBlade => "Server Blade",
                BoardType::ConnectivitySwitch => "Connectivity Switch",
                BoardType::SystemManagementModule => "System Management Module",
                BoardType::ProcessorModule => "Processor Module",
                BoardType::IOModule => "I/O Module",
                BoardType::MemoryModule => "Memory Module",
                BoardType::DaughterBoard => "Daughter board",
                BoardType::MotherBoard => "Motherboard (includes processor, memory, and I/O)",
                BoardType::ProcessorMemoryModule => "Processor/Memory Module",
                BoardType::ProcessorIOModule => "Processor/IO Module",
                BoardType::InterconnectedModule => "Interconnect board",
                BoardType::Undefined(_) => "Undefined",
            },
        )
    }
}

impl From<u8> for BoardType {
    fn from(value: u8) -> (r: Self) {
        match value {
            1 => BoardType::Unknown,
            2 => BoardType::Other,
            3 => BoardType::ServerBlade,
            4 => BoardType::ConnectivitySwitch,
            5 => BoardType::SystemManagementModule,
            6 => BoardType::ProcessorModule,
            7 => BoardType::IOModule,
            8 => BoardType::MemoryModule,
            9 => BoardType::DaughterBoard,
            10 => BoardType::MotherBoard,
            11 => BoardType::ProcessorMemoryModule,
            12 => BoardType::ProcessorIOModule,
            13 => BoardType::InterconnectedModule,
            _ => BoardType::Undefined(value),
        }
    }
}

impl vstd::std_specs::convert::FromSpecImpl<u8> for BoardType {
    open spec fn obeys_from_spec() -> bool {
        true
    }

    open spec fn from_spec(value: u8) -> Self {
        BoardType::of(value)
    }
}
/// The board that carries the system, or one of its modules.
#[derive(Debug)]
pub struct Baseboard {
    pub manufacturer: String,
    pub product: String,
    pub version: String,
    pub serial_number: String,
    pub asset_tag: String,
    pub features: Vec<Feature>,
    pub location_in_chassis: String,
    pub board_type: BoardType,
}

/// A [`Baseboard`] as plain values.
pub struct BaseboardView {
    pub manufacturer: Seq<char>,
    pub product: Seq<char>,
    pub version: Seq<char>,
    pub serial_number: Seq<char>,
    pub asset_tag: Seq<char>,
    pub features: Seq<Feature>,
    pub location_in_chassis: Seq<char>,
    pub board_type: BoardType,
}

impl View for Baseboard {
    type V = BaseboardView;

    open spec fn view(&self) -> BaseboardView {
        BaseboardView {
            manufacturer: self.manufacturer@,
            product: self.product@,
            version: self.version@,
            serial_number: self.serial_number@,
            asset_tag: self.asset_tag@,
            features: self.features@,
            location_in_chassis: self.location_in_chassis@,
            board_type: self.board_type,
        }
    }
}

fn push_feature(features: &mut Vec<Feature>, flags: u8, feature: Feature, flag: u64)
    requires
        flag == feature.flag(),
    ensures
        final(features)@ == old(features)@ + only_if(flags, feature),
{
    if bit_set(flags as u64, flag) {
        features.push(feature);
    }
    assert(features@ =~= old(features)@ + only_if(flags, feature));
}

impl Baseboard {
    /// Whether a record body is long enough to hold the structure.
    pub open spec fn accepts(data: Seq<u8>) -> bool {
        data.len() >= 10
    }

    /// The structure that a record body and its string table describe.
    pub open spec fn decoded(data: Seq<u8>, table: Seq<Seq<char>>) -> BaseboardView {
        BaseboardView {
            manufacturer: string_at(table, data[0]),
            product: string_at(table, data[1]),
            version: string_at(table, data[2]),
            serial_number: string_at(table, data[3]),
            asset_tag: string_at(table, data[4]),
            features: features_of(data[5]),
            location_in_chassis: string_at(table, data[8]),
            board_type: BoardType::of(data[9]),
        }
    }

    /// Decodes a record body that is long enough.
    pub fn from_body(data: &[u8], table: &[String]) -> (r: Baseboard)
        requires
            Baseboard::accepts(data@),
        ensures
            r@ == Baseboard::decoded(data@, texts(table@)),
    {
        let flags = data[5];
        let mut features: Vec<Feature> = Vec::new();
        push_feature(&mut features, flags, Feature::HostingBoard, 0);
        push_feature(&mut features, flags, Feature::RequiresOneDaughterBoard, 1);
        push_feature(&mut features, flags, Feature::Removable, 2);
        push_feature(&mut features, flags, Feature::Replaceable, 3);
        push_feature(&mut features, flags, Feature::HotSwappable, 4);
        assert(features@ =~= features_of(flags));
        Baseboard {
            manufacturer: get_string(table, data[0]),
            product: get_string(table, data[1]),
            version: get_string(table, data[2]),
            serial_number: get_string(table, data[3]),
            asset_tag: get_string(table, data[4]),
            features,
            location_in_chassis: get_string(table, data[8]),
            board_type: BoardType::from(data[9]),
        }
    }

    /// Decodes a record body, or says that it is too short.
    pub fn decode(data: &[u8], table: &[String]) -> (r: Option<Baseboard>)
        ensures
            r is Some <==> Baseboard::accepts(data@),
            r matches Some(b) ==> b@ == Baseboard::decoded(data@, texts(table@)),
    {
        if data.len() >= 10 {
            Some(Baseboard::from_body(data, table))
        } else {
            None
        }
    }

    /// The lines under which the structure is shown.
    pub open spec fn rows_of(v: BaseboardView) -> Seq<(Seq<char>, Seq<char>)> {
        seq![
            ("Manufacturer"@, v.manufacturer),
            ("Product"@, v.product),
            ("Version"@, v.version),
            ("Serial Number"@, v.serial_number),
            ("Asset Tag"@, v.asset_tag),
            ("Location in Chassis"@, v.location_in_chassis),
            ("Board Type"@, v.board_type.label()),
        ]
    }

    pub fn rows(&self) -> (r: Vec<Row>)
        ensures
            rows_view(r@) == Baseboard::rows_of(self@),
    {
        let mut r: Vec<Row> = Vec::new();
        r.push(Row::new("Manufacturer", self.manufacturer.clone()));
        r.push(Row::new("Product", self.product.clone()));
        r.push(Row::new("Version", self.version.clone()));
        r.push(Row::new("Serial Number", self.serial_number.clone()));
        r.push(Row::new("Asset Tag", self.asset_tag.clone()));
        r.push(Row::new("Location in Chassis", self.location_in_chassis.clone()));
        r.push(Row::new("Board Type", self.board_type.to_string()));
        assert(rows_view(r@) =~= Baseboard::rows_of(self@));
        r
    }

    /// The list under which the features are shown: one bullet per feature.
    pub open spec fn feature_lines_of(v: BaseboardView) -> Seq<Seq<char>> {
        v.features.map_values(|f: Feature| "* "@ + f.label())
    }

    pub fn feature_lines(&self) -> (r: Vec<String>)
        ensures
            texts(r@) == Baseboard::feature_lines_of(self@),
    {
        let mut r: Vec<String> = Vec::new();
        let mut i: usize = 0;
        while i < self.features.len()
            invariant
                i <= self.features@.len(),
                r@.len() == i,
                forall|k: int| 0 <= k < i ==> (#[trigger] r@[k])@ == "* "@ + self.features@[k].label(),
            decreases self.features@.len() - i,
        {
            let mut line = String::from_str("* ");
            let name = self.features[i].to_string();
            line.append(name.as_str());
            r.push(line);
            i = i + 1;
        }
        assert(texts(r@) =~= Baseboard::feature_lines_of(self@));
        r
    }
}

} // verus!
