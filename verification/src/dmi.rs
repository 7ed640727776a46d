//! The table as a whole: its records, how they are framed, and the model
//! that decoding builds.

pub mod baseboard;
pub mod battery;
pub mod chassis;
pub mod firmware;
pub mod frame;
pub mod memory;
pub mod stream;
pub mod system;

pub use frame::{DecodeError, Header, StructureType};

use crate::key::{KeyCode, KeyEvent};
use baseboard::{Baseboard, BaseboardView};
use battery::{Battery, BatteryView};
use chassis::{Chassis, ChassisView};
use firmware::{Firmware, FirmwareView, LanguageInfos};
use frame::{frame_at, lemma_strings_from, next_frame};
use memory::{Memory, PhysicalMemoryArray, PhysicalMemoryArrayView};
use system::{System, SystemView};
use vstd::prelude::*;
use vstd::string::*;

verus! {

/// The section of the model that a front end shows.
#[non_exhaustive]
#[derive(Clone, Copy, Debug, PartialEq, Eq, Structural)]
pub enum FocusedSection {
    Firmware,
    System,
    Baseboard,
    Chassis,
    Memory,
    Battery,
}

impl FocusedSection {
    /// The section behind this one; behind the last comes the first.
    pub open spec fn following(self) -> FocusedSection {
        match self {
            FocusedSection::Firmware => FocusedSection::System,
            FocusedSection::System => FocusedSection::Baseboard,
            FocusedSection::Baseboard => FocusedSection::Chassis,
            FocusedSection::Chassis => FocusedSection::Memory,
            FocusedSection::Memory => FocusedSection::Battery,
            FocusedSection::Battery => FocusedSection::Firmware,
        }
    }

    /// The section before this one; before the first comes the last.
    pub open spec fn preceding(self) -> FocusedSection {
        match self {
            FocusedSection::Firmware => FocusedSection::Battery,
            FocusedSection::System => FocusedSection::Firmware,
            FocusedSection::Baseboard => FocusedSection::System,
            FocusedSection::Chassis => FocusedSection::Baseboard,
            FocusedSection::Memory => FocusedSection::Chassis,
            FocusedSection::Battery => FocusedSection::Memory,
        }
    }

    /// The section that a key press leads to: Tab goes on, BackTab goes
    /// back, every other key stays.
    pub open spec fn after(self, code: KeyCode) -> FocusedSection {
        match code {
            KeyCode::Tab => self.following(),
            KeyCode::BackTab => self.preceding(),
            _ => self,
        }
    }

    /// The heading of the section, padded as it stands in the title line.
    pub open spec fn title_text(self) -> Seq<char> {
        match self {
            FocusedSection::Firmware => "  Firmware  "@,
            FocusedSection::System => "  System  "@,
            FocusedSection::Baseboard => "  Baseboard  "@,
            FocusedSection::Chassis => "  Chassis  "@,
            FocusedSection::Memory => "  Memory  "@,
            FocusedSection::Battery => "  Battery  "@,
        }
    }

    pub fn title(&self) -> (r: String)
        ensures
            r@ == self.title_text(),
    {
        String::from_str(
            match self {
                FocusedSection::Firmware => "  Firmware  ",
                FocusedSection::System => "  System  ",
                FocusedSection::Baseboard => "  Baseboard  ",
                FocusedSection::Chassis => "  Chassis  ",
                FocusedSection::Memory => "  Memory  ",
                FocusedSection::Battery => "  Battery  ",
            },
        )
    }

    /// Going on and then back, or back and then on, leads nowhere; going on
    /// six times leads round.
    pub proof fn lemma_cycle(self)
        ensures
            self.following().preceding() == self,
            self.preceding().following() == self,
            self.following().following().following().following().following().following()
                == self,
    {
    }
}

/// The records seen so far while a table is decoded, one slot per kind.
#[derive(Debug)]
pub struct Slots {
    pub firmware: Option<Firmware>,
    pub system: Option<System>,
    pub baseboard: Option<Baseboard>,
    pub chassis: Option<Chassis>,
    pub memory: Option<Memory>,
    pub battery: Option<Battery>,
}

/// [`Slots`] as plain values.
pub struct SlotsView {
    pub firmware: Option<FirmwareView>,
    pub system: Option<SystemView>,
    pub baseboard: Option<BaseboardView>,
    pub chassis: Option<ChassisView>,
    pub memory: Option<PhysicalMemoryArrayView>,
    pub battery: Option<BatteryView>,
}

impl View for Slots {
    type V = SlotsView;

    open spec fn view(&self) -> SlotsView {
        SlotsView {
            firmware: match self.firmware {
                Some(r) => Some(r@),
                None => None,
            },
            system: match self.system {
                Some(r) => Some(r@),
                None => None,
            },
            baseboard: match self.baseboard {
                Some(r) => Some(r@),
                None => None,
            },
            chassis: match self.chassis {
                Some(r) => Some(r@),
                None => None,
            },
            memory: match self.memory {
                Some(r) => Some(r@),
                None => None,
            },
            battery: match self.battery {
                Some(r) => Some(r@),
                None => None,
            },
        }
    }
}

/// The decoded table as plain values: one record of each mandatory kind,
/// and the section in focus.
pub struct DMIView {
    pub firmware: FirmwareView,
    pub system: SystemView,
    pub baseboard: BaseboardView,
    pub chassis: ChassisView,
    pub memory: PhysicalMemoryArrayView,
    pub battery: BatteryView,
    pub focused_section: FocusedSection,
}

impl SlotsView {
    /// No record seen yet.
    pub open spec fn empty() -> SlotsView {
        SlotsView {
            firmware: None,
            system: None,
            baseboard: None,
            chassis: None,
            memory: None,
            battery: None,
        }
    }

    /// Whether a body of the given kind can be decoded. Kinds that are not
    /// decoded accept every body.
    pub open spec fn accepts(kind: StructureType, body: Seq<u8>) -> bool {
        match kind {
            StructureType::Firmware => Firmware::accepts(body),
            StructureType::System => System::accepts(body),
            StructureType::Baseboard => Baseboard::accepts(body),
            StructureType::Chassis => Chassis::accepts(body),
            StructureType::FirmwareLanguage => LanguageInfos::accepts(body),
            StructureType::PhysicalMemoryArray => PhysicalMemoryArray::accepts(body),
            StructureType::Battery => Battery::accepts(body),
            _ => true,
        }
    }

    /// The slots once a record that can be decoded has been put in. A record
    /// of a mandatory kind takes the slot of its kind, whatever was there. A
    /// language record is merged into the firmware record if one is there,
    /// and dropped if none is. Every other record leaves the slots as they
    /// are.
    #[verifier::opaque]
    pub open spec fn with(self, kind: StructureType, body: Seq<u8>, table: Seq<Seq<char>>)
        -> SlotsView {
        match kind {
            StructureType::Firmware => SlotsView {
                firmware: Some(Firmware::decoded(body, table)),
                ..self
            },
            StructureType::System => SlotsView {
                system: Some(System::decoded(body, table)),
                ..self
            },
            StructureType::Baseboard => SlotsView {
                baseboard: Some(Baseboard::decoded(body, table)),
                ..self
            },
            StructureType::Chassis => SlotsView {
                chassis: Some(Chassis::decoded(body, table)),
                ..self
            },
            StructureType::FirmwareLanguage => match self.firmware {
                Some(firmware) => SlotsView {
                    firmware: Some(firmware.with_languages(LanguageInfos::decoded(body, table))),
                    ..self
                },
                None => self,
            },
            StructureType::PhysicalMemoryArray => SlotsView {
                memory: Some(PhysicalMemoryArray::decoded(body)),
                ..self
            },
            StructureType::Battery => SlotsView {
                battery: Some(Battery::decoded(body, table)),
                ..self
            },
            _ => self,
        }
    }

    /// The slots once a record has been put in, or the reason why the record
    /// cannot be decoded.
    pub open spec fn stored(self, kind: StructureType, body: Seq<u8>, table: Seq<Seq<char>>)
        -> Result<SlotsView, DecodeError> {
        if SlotsView::accepts(kind, body) {
            Ok(self.with(kind, body, table))
        } else {
            Err(DecodeError::MalformedRecord(kind))
        }
    }

    /// The first mandatory kind that has no record, in the order firmware,
    /// system, baseboard, chassis, memory, battery.
    pub open spec fn missing(self) -> Option<StructureType> {
        if self.firmware is None {
            Some(StructureType::Firmware)
        } else if self.system is None {
            Some(StructureType::System)
        } else if self.baseboard is None {
            Some(StructureType::Baseboard)
        } else if self.chassis is None {
            Some(StructureType::Chassis)
        } else if self.memory is None {
            Some(StructureType::PhysicalMemoryArray)
        } else if self.battery is None {
            Some(StructureType::Battery)
        } else {
            None
        }
    }

    /// The model that the slots make once the table has ended: all six
    /// records, or the kind that is missing.
    pub open spec fn finished(self) -> Result<DMIView, DecodeError> {
        match self.missing() {
            Some(kind) => Err(DecodeError::MissingMandatoryRecord(kind)),
            None => Ok(
                DMIView {
                    firmware: self.firmware->0,
                    system: self.system->0,
                    baseboard: self.baseboard->0,
                    chassis: self.chassis->0,
                    memory: self.memory->0,
                    battery: self.battery->0,
                    focused_section: FocusedSection::Firmware,
                },
            ),
        }
    }
}

impl Slots {
    pub fn new() -> (r: Slots)
        ensures
            r@ == SlotsView::empty(),
    {
        Slots {
            firmware: None,
            system: None,
            baseboard: None,
            chassis: None,
            memory: None,
            battery: None,
        }
    }

    /// Decodes a framed record and puts it into its slot.
    pub fn store(self, kind: StructureType, body: &[u8], table: &[String]) -> (r: Result<
        Slots,
        DecodeError,
    >)
        ensures
            match r {
                Ok(slots) => self@.stored(kind, body@, crate::text::texts(table@)) == Ok::<
                    SlotsView,
                    DecodeError,
                >(slots@),
                Err(e) => self@.stored(kind, body@, crate::text::texts(table@)) == Err::<
                    SlotsView,
                    DecodeError,
                >(e),
            },
    {
        reveal(SlotsView::with);
        let mut slots = self;
        match kind {
            StructureType::Firmware => match Firmware::decode(body, table) {
                Some(record) => {
                    slots.firmware = Some(record);
                },
                None => {
                    return Err(DecodeError::MalformedRecord(kind));
                },
            },
            StructureType::System => match System::decode(body, table) {
                Some(record) => {
                    slots.system = Some(record);
                },
                None => {
                    return Err(DecodeError::MalformedRecord(kind));
                },
            },
            StructureType::Baseboard => match Baseboard::decode(body, table) {
                Some(record) => {
                    slots.baseboard = Some(record);
                },
                None => {
                    return Err(DecodeError::MalformedRecord(kind));
                },
            },
            StructureType::Chassis => match Chassis::decode(body, table) {
                Some(record) => {
                    slots.chassis = Some(record);
                },
                None => {
                    return Err(DecodeError::MalformedRecord(kind));
                },
            },
            StructureType::FirmwareLanguage => match LanguageInfos::decode(body, table) {
                Some(language_infos) => {
                    slots.firmware = match slots.firmware {
                        Some(mut firmware) => {
                            firmware.language_infos = Some(language_infos);
                            Some(firmware)
                        },
                        None => None,
                    };
                },
                None => {
                    return Err(DecodeError::MalformedRecord(kind));
                },
            },
            StructureType::PhysicalMemoryArray => match PhysicalMemoryArray::decode(body) {
                Some(record) => {
                    slots.memory = Some(Memory { physical_memory_array: record });
                },
                None => {
                    return Err(DecodeError::MalformedRecord(kind));
                },
            },
            StructureType::Battery => match Battery::decode(body, table) {
                Some(record) => {
                    slots.battery = Some(record);
                },
                None => {
                    return Err(DecodeError::MalformedRecord(kind));
                },
            },
            _ => {},
        }
        Ok(slots)
    }

    /// Makes the model of the slots, if none is empty.
    pub fn finish(self) -> (r: Result<DMI, DecodeError>)
        ensures
            match r {
                Ok(dmi) => self@.finished() == Ok::<DMIView, DecodeError>(dmi@),
                Err(e) => self@.finished() == Err::<DMIView, DecodeError>(e),
            },
            r matches Err(e) ==> e matches DecodeError::MissingMandatoryRecord(_),
    {
        let firmware = match self.firmware {
            Some(record) => record,
            None => {
                return Err(DecodeError::MissingMandatoryRecord(StructureType::Firmware));
            },
        };
        let system = match self.system {
            Some(record) => record,
            None => {
                return Err(DecodeError::MissingMandatoryRecord(StructureType::System));
            },
        };
        let baseboard = match self.baseboard {
            Some(record) => record,
            None => {
                return Err(DecodeError::MissingMandatoryRecord(StructureType::Baseboard));
            },
        };
        let chassis = match self.chassis {
            Some(record) => record,
            None => {
                return Err(DecodeError::MissingMandatoryRecord(StructureType::Chassis));
            },
        };
        let memory = match self.memory {
            Some(record) => record,
            None => {
                return Err(
                    DecodeError::MissingMandatoryRecord(StructureType::PhysicalMemoryArray),
                );
            },
        };
        let battery = match self.battery {
            Some(record) => record,
            None => {
                return Err(DecodeError::MissingMandatoryRecord(StructureType::Battery));
            },
        };
        Ok(
            DMI {
                firmware,
                system,
                baseboard,
                chassis,
                memory,
                battery,
                focused_section: FocusedSection::Firmware,
            },
        )
    }
}

/// The decoded table: one record of each mandatory kind. The records are
/// read through the accessors and never change; only the focus moves.
#[derive(Debug)]
pub struct DMI {
    firmware: Firmware,
    system: System,
    baseboard: Baseboard,
    chassis: Chassis,
    memory: Memory,
    battery: Battery,
    pub focused_section: FocusedSection,
}

impl View for DMI {
    type V = DMIView;

    closed spec fn view(&self) -> DMIView {
        DMIView {
            firmware: self.firmware@,
            system: self.system@,
            baseboard: self.baseboard@,
            chassis: self.chassis@,
            memory: self.memory@,
            battery: self.battery@,
            focused_section: self.focused_section,
        }
    }
}

impl DMI {
    /// What decoding makes of the bytes from `at` on, with `slots` filled by
    /// the records before: the records are framed and stored one after
    /// another until the end marker, where the model is made. The first
    /// failure on the way is the result.
    pub open spec fn decoded_from(bytes: Seq<u8>, at: int, slots: SlotsView) -> Result<
        DMIView,
        DecodeError,
    >
        decreases bytes.len() - at,
    {
        if at < 0 {
            Err(DecodeError::UnexpectedEof)
        } else {
            match frame_at(bytes, at) {
                Err(e) => Err(e),
                Ok(None) => slots.finished(),
                Ok(Some(frame)) => match slots.stored(
                    frame.header.structure_type,
                    frame.body,
                    frame.table,
                ) {
                    Err(e) => Err(e),
                    Ok(filled) => {
                        proof {
                            lemma_strings_from(bytes, at + frame.header.length, false, false);
                        }
                        DMI::decoded_from(bytes, frame.next, filled)
                    },
                },
            }
        }
    }

    /// What decoding makes of a table.
    pub open spec fn decoded(bytes: Seq<u8>) -> Result<DMIView, DecodeError> {
        DMI::decoded_from(bytes, 0, SlotsView::empty())
    }

    /// Whether `result` is what decoding `bytes` gives.
    pub open spec fn decodes_to(bytes: Seq<u8>, result: Result<DMI, DecodeError>) -> bool {
        match result {
            Ok(dmi) => DMI::decoded(bytes) == Ok::<DMIView, DecodeError>(dmi@),
            Err(e) => DMI::decoded(bytes) == Err::<DMIView, DecodeError>(e),
        }
    }

    /// Decoding is a function of the bytes alone: whatever decoding the same
    /// table gives twice, it is twice the same failure, or two models that
    /// show the same.
    pub proof fn lemma_decoding_repeats(
        bytes: Seq<u8>,
        first: Result<DMI, DecodeError>,
        second: Result<DMI, DecodeError>,
    )
        requires
            DMI::decodes_to(bytes, first),
            DMI::decodes_to(bytes, second),
        ensures
            match (first, second) {
                (Ok(a), Ok(b)) => a@ == b@,
                (Err(e), Err(f)) => e == f,
                _ => false,
            },
    {
    }

    /// Decodes a table: a sequence of records, closed by an end marker. The
    /// result is the model with the firmware section in focus, or the first
    /// failure met.
    pub fn new(source: &[u8]) -> (r: Result<DMI, DecodeError>)
        ensures
            DMI::decodes_to(source@, r),
    {
        let mut slots = Slots::new();
        let mut at: usize = 0;
        loop
            invariant
                at <= source.len(),
                DMI::decoded_from(source@, at as int, slots@) == DMI::decoded(source@),
            decreases source.len() - at,
        {
            match next_frame(source, at) {
                Err(e) => {
                    return Err(e);
                },
                Ok(None) => {
                    return slots.finish();
                },
                Ok(Some(frame)) => {
                    match slots.store(frame.header.structure_type, frame.body, frame.text.as_slice()) {
                        Err(e) => {
                            return Err(e);
                        },
                        Ok(filled) => {
                            slots = filled;
                            at = frame.next;
                        },
                    }
                },
            }
        }
    }

    /// The section in focus.
    pub fn focused_section(&self) -> (r: FocusedSection)
        ensures
            r == self@.focused_section,
    {
        self.focused_section
    }

    pub fn firmware(&self) -> (r: &Firmware)
        ensures
            r@ == self@.firmware,
    {
        &self.firmware
    }

    pub fn system(&self) -> (r: &System)
        ensures
            r@ == self@.system,
    {
        &self.system
    }

    pub fn baseboard(&self) -> (r: &Baseboard)
        ensures
            r@ == self@.baseboard,
    {
        &self.baseboard
    }

    pub fn chassis(&self) -> (r: &Chassis)
        ensures
            r@ == self@.chassis,
    {
        &self.chassis
    }

    pub fn memory(&self) -> (r: &Memory)
        ensures
            r@ == self@.memory,
    {
        &self.memory
    }

    pub fn battery(&self) -> (r: &Battery)
        ensures
            r@ == self@.battery,
    {
        &self.battery
    }

    /// Moves the focus as the key asks. The records stay as they are.
    pub fn handle_key_events(&mut self, key_event: KeyEvent)
        ensures
            final(self)@ == (DMIView {
                focused_section: old(self)@.focused_section.after(key_event.code),
                ..old(self)@
            }),
    {
        match key_event.code {
            KeyCode::Tab => match self.focused_section {
                FocusedSection::Firmware => self.focused_section = FocusedSection::System,
                FocusedSection::System => self.focused_section = FocusedSection::Baseboard,
                FocusedSection::Baseboard => self.focused_section = FocusedSection::Chassis,
                FocusedSection::Chassis => self.focused_section = FocusedSection::Memory,
                FocusedSection::Memory => self.focused_section = FocusedSection::Battery,
                FocusedSection::Battery => self.focused_section = FocusedSection::Firmware,
            },
            KeyCode::BackTab => match self.focused_section {
                FocusedSection::Firmware => self.focused_section = FocusedSection::Battery,
                FocusedSection::System => self.focused_section = FocusedSection::Firmware,
                FocusedSection::Baseboard => self.focused_section = FocusedSection::System,
                FocusedSection::Chassis => self.focused_section = FocusedSection::Baseboard,
                FocusedSection::Memory => self.focused_section = FocusedSection::Chassis,
                FocusedSection::Battery => self.focused_section = FocusedSection::Memory,
            },
            _ => {},
        }
    }

    /// The heading of a section as it stands in the title line, and whether
    /// the section is the one in focus.
    pub fn title_span(&self, header_section: FocusedSection) -> (r: (String, bool))
        ensures
            r.0@ == header_section.title_text(),
            r.1 == (self@.focused_section == header_section),
    {
        let is_focused = self.focused_section == header_section;
        (header_section.title(), is_focused)
    }
}

} // verus!
