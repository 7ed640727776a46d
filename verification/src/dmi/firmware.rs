//! The Firmware (BIOS) Information structure, and the language record that
//! extends it.

use crate::bytes::{bit, bit_set, le16, le64, read_le16, read_le64};
use crate::text::{
    decimal, decimal_string, get_string, hex_upper, hex_upper_string, rows_view, string_at, texts,
    Row,
};
use vstd::prelude::*;
use vstd::string::*;

verus! {

/// A version as a pair of numbers.
#[derive(Clone, Copy, Debug, PartialEq, Eq, Structural)]
pub struct Release {
    pub major: u8,
    pub minor: u8,
}

impl Release {
    pub fn new(major: u8, minor: u8) -> (r: Release)
        ensures
            r == (Release { major, minor }),
    {
        Release { major, minor }
    }

    /// The release as text: both numbers in decimal, with a dot between.
    pub open spec fn text(self) -> Seq<char> {
        decimal(self.major as nat) + "."@ + decimal(self.minor as nat)
    }

    pub fn to_string(&self) -> (s: String)
        ensures
            s@ == self.text(),
    {
        let mut s = decimal_string(self.major as u64);
        s.append(".");
        let minor = decimal_string(self.minor as u64);
        s.append(minor.as_str());
        s
    }
}

/// What the firmware supports, one flag per bit of the characteristics
/// field. Where `supported` is false the field as a whole is unsupported and
/// no flag means anything.
#[derive(Clone, Copy, Debug, PartialEq, Eq, Structural)]
pub struct FirmwareCharacteristics {
    pub supported: bool,
    pub isa: bool,
    pub mca: bool,
    pub eisa: bool,
    pub pci: bool,
    pub pcmcia: bool,
    pub plug_and_play: bool,
    pub apm: bool,
    pub firmware_is_upgradeable: bool,
    pub firmware_shadowing: bool,
    pub vl_vesa: bool,
    pub escd: bool,
    pub boot_from_cd: bool,
    pub selectable_boot: bool,
    pub firmware_rom_is_socketed: bool,
    pub boot_from_pcmcia: bool,
    pub edd_specification: bool,
    pub int_13h_japanese_floppy_for_nec: bool,
    pub int_13h_japanese_floppy_for_toshiba: bool,
    pub int_13h_360: bool,
    pub int_13h_1_2: bool,
    pub int_13h_720: bool,
    pub int_13h_2_88: bool,
    pub int_5h_print_screen: bool,
    pub int_9h_8042: bool,
    pub int_14h_serial_service: bool,
    pub int_17h_printer_service: bool,
    pub int_10h_cga: bool,
    pub nec_pc_98: bool,
}

impl FirmwareCharacteristics {
    /// The characteristics that the 64-bit field holds.
    pub open spec fn of(bits: u64) -> FirmwareCharacteristics {
        FirmwareCharacteristics {
            supported: !bit(bits, 3),
            isa: bit(bits, 4),
            mca: bit(bits, 5),
            eisa: bit(bits, 6),
            pci: bit(bits, 7),
            pcmcia: bit(bits, 8),
            plug_and_play: bit(bits, 9),
            apm: bit(bits, 10),
            firmware_is_upgradeable: bit(bits, 11),
            firmware_shadowing: bit(bits, 12),
            vl_vesa: bit(bits, 13),
            escd: bit(bits, 14),
            boot_from_cd: bit(bits, 15),
            selectable_boot: bit(bits, 16),
            firmware_rom_is_socketed: bit(bits, 17),
            boot_from_pcmcia: bit(bits, 18),
            edd_specification: bit(bits, 19),
            int_13h_japanese_floppy_for_nec: bit(bits, 20),
            int_13h_japanese_floppy_for_toshiba: bit(bits, 21),
            int_13h_360: bit(bits, 22),
            int_13h_1_2: bit(bits, 23),
            int_13h_720: bit(bits, 24),
            int_13h_2_88: bit(bits, 25),
            int_5h_print_screen: bit(bits, 26),
            int_9h_8042: bit(bits, 27),
            int_14h_serial_service: bit(bits, 28),
            int_17h_printer_service: bit(bits, 29),
            int_10h_cga: bit(bits, 30),
            nec_pc_98: bit(bits, 31),
        }
    }

    /// Reads the characteristics from the 64-bit field.
    pub fn from_bits(bits: u64) -> (r: FirmwareCharacteristics)
        ensures
            r == FirmwareCharacteristics::of(bits),
    {
        FirmwareCharacteristics {
            supported: !bit_set(bits, 3),
            isa: bit_set(bits, 4),
            mca: bit_set(bits, 5),
            eisa: bit_set(bits, 6),
            pci: bit_set(bits, 7),
            pcmcia: bit_set(bits, 8),
            plug_and_play: bit_set(bits, 9),
            apm: bit_set(bits, 10),
            firmware_is_upgradeable: bit_set(bits, 11),
            firmware_shadowing: bit_set(bits, 12),
            vl_vesa: bit_set(bits, 13),
            escd: bit_set(bits, 14),
            boot_from_cd: bit_set(bits, 15),
            selectable_boot: bit_set(bits, 16),
            firmware_rom_is_socketed: bit_set(bits, 17),
            boot_from_pcmcia: bit_set(bits, 18),
            edd_specification: bit_set(bits, 19),
            int_13h_japanese_floppy_for_nec: bit_set(bits, 20),
            int_13h_japanese_floppy_for_toshiba: bit_set(bits, 21),
            int_13h_360: bit_set(bits, 22),
            int_13h_1_2: bit_set(bits, 23),
            int_13h_720: bit_set(bits, 24),
            int_13h_2_88: bit_set(bits, 25),
            int_5h_print_screen: bit_set(bits, 26),
            int_9h_8042: bit_set(bits, 27),
            int_14h_serial_service: bit_set(bits, 28),
            int_17h_printer_service: bit_set(bits, 29),
            int_10h_cga: bit_set(bits, 30),
            nec_pc_98: bit_set(bits, 31),
        }
    }

    /// Reads the characteristics from the eight bytes that hold the field,
    /// least significant byte first.
    pub fn from_bytes(value: &[u8]) -> (r: FirmwareCharacteristics)
        requires
            value@.len() == 8,
        ensures
            r == FirmwareCharacteristics::of(le64(value@, 0) as u64),
    {
        FirmwareCharacteristics::from_bits(read_le64(value, 0))
    }
}

/// What the firmware supports beyond the characteristics field, one flag per
/// bit of the two extension bytes.
#[derive(Clone, Copy, Debug, PartialEq, Eq, Structural)]
pub struct FirmwareCharacteristicsExtension {
    pub acpi: bool,
    pub usb_legacy: bool,
    pub agp: bool,
    pub i2o_boot: bool,
    pub ls_120_superdisk_boot: bool,
    pub atapi_zip_drive_boot: bool,
    pub _1394_boot: bool,
    pub smart_battery: bool,
    pub bios_boot_spec: bool,
    pub function_key_initiated_network_service: bool,
    pub enable_targeted_content_distribution: bool,
    pub uefi_spec: bool,
    pub virtual_machine: bool,
    pub manufacturing_mode_is_supported: bool,
    pub manufacturing_mode_is_enabled: bool,
}

impl FirmwareCharacteristicsExtension {
    /// The flags that the two extension bytes hold.
    pub open spec fn of(first: u8, second: u8) -> FirmwareCharacteristicsExtension {
        FirmwareCharacteristicsExtension {
            acpi: bit(first as u64, 0),
            usb_legacy: bit(first as u64, 1),
            agp: bit(first as u64, 2),
            i2o_boot: bit(first as u64, 3),
            ls_120_superdisk_boot: bit(first as u64, 4),
            atapi_zip_drive_boot: bit(first as u64, 5),
            _1394_boot: bit(first as u64, 6),
            smart_battery: bit(first as u64, 7),
            bios_boot_spec: bit(second as u64, 0),
            function_key_initiated_network_service: bit(second as u64, 1),
            enable_targeted_content_distribution: bit(second as u64, 2),
            uefi_spec: bit(second as u64, 3),
            virtual_machine: bit(second as u64, 4),
            manufacturing_mode_is_supported: bit(second as u64, 5),
            manufacturing_mode_is_enabled: bit(second as u64, 6),
        }
    }
}

impl From<[u8; 2]> for FirmwareCharacteristicsExtension {
    fn from(value: [u8; 2]) -> (r: Self) {
        let first = value[0] as u64;
        let second = value[1] as u64;
        FirmwareCharacteristicsExtension {
            acpi: bit_set(first, 0),
            usb_legacy: bit_set(first, 1),
            agp: bit_set(first, 2),
            i2o_boot: bit_set(first, 3),
            ls_120_superdisk_boot: bit_set(first, 4),
            atapi_zip_drive_boot: bit_set(first, 5),
            _1394_boot: bit_set(first, 6),
            smart_battery: bit_set(first, 7),
            bios_boot_spec: bit_set(second, 0),
            function_key_initiated_network_service: bit_set(second, 1),
            enable_targeted_content_distribution: bit_set(second, 2),
            uefi_spec: bit_set(second, 3),
            virtual_machine: bit_set(second, 4),
            manufacturing_mode_is_supported: bit_set(second, 5),
            manufacturing_mode_is_enabled: bit_set(second, 6),
        }
    }
}

impl vstd::std_specs::convert::FromSpecImpl<[u8; 2]> for FirmwareCharacteristicsExtension {
    open spec fn obeys_from_spec() -> bool {
        true
    }

    open spec fn from_spec(value: [u8; 2]) -> Self {
        FirmwareCharacteristicsExtension::of(value@[0], value@[1])
    }
}

/// The languages in which the firmware can address its user.
#[derive(Debug)]
pub struct LanguageInfos {
    pub installable_languages: Vec<String>,
    pub abbreviated_format: bool,
    pub current_language: String,
}

/// A [`LanguageInfos`] as plain values.
pub struct LanguageInfosView {
    pub installable_languages: Seq<Seq<char>>,
    pub abbreviated_format: bool,
    pub current_language: Seq<char>,
}

impl View for LanguageInfos {
    type V = LanguageInfosView;

    open spec fn view(&self) -> LanguageInfosView {
        LanguageInfosView {
            installable_languages: texts(self.installable_languages@),
            abbreviated_format: self.abbreviated_format,
            current_language: self.current_language@,
        }
    }
}

impl LanguageInfos {
    /// Whether a record body is long enough to hold the structure.
    pub open spec fn accepts(data: Seq<u8>) -> bool {
        data.len() >= 18
    }

    /// How many of the table's strings name a language: as many as the body
    /// announces, as far as the table has them.
    pub open spec fn installable(data: Seq<u8>, table: Seq<Seq<char>>) -> int {
        if data[0] <= table.len() {
            data[0] as int
        } else {
            table.len() as int
        }
    }

    /// The structure that a record body and its string table describe.
    pub open spec fn decoded(data: Seq<u8>, table: Seq<Seq<char>>) -> LanguageInfosView {
        LanguageInfosView {
            installable_languages: table.take(LanguageInfos::installable(data, table)),
            abbreviated_format: bit(data[1] as u64, 0),
            current_language: string_at(table, data[17]),
        }
    }

    /// Decodes a record body that is long enough.
    pub fn from_body(data: &[u8], table: &[String]) -> (r: LanguageInfos)
        requires
            LanguageInfos::accepts(data@),
        ensures
            r@ == LanguageInfos::decoded(data@, texts(table@)),
    {
        let announced = data[0] as usize;
        let count = if announced <= table.len() {
            announced
        } else {
            table.len()
        };
        let mut installable_languages: Vec<String> = Vec::new();
        let mut i: usize = 0;
        while i < count
            invariant
                i <= count <= table@.len(),
                installable_languages@.len() == i,
                forall|k: int| 0 <= k < i ==> (#[trigger] installable_languages@[k])@ == table@[k]@,
            decreases count - i,
        {
            installable_languages.push(table[i].clone());
            i = i + 1;
        }
        assert(texts(installable_languages@) =~= texts(table@).take(count as int));
        LanguageInfos {
            installable_languages,
            abbreviated_format: bit_set(data[1] as u64, 0),
            current_language: get_string(table, data[17]),
        }
    }

    /// Decodes a record body, or says that it is too short.
    pub fn decode(data: &[u8], table: &[String]) -> (r: Option<LanguageInfos>)
        ensures
            r is Some <==> LanguageInfos::accepts(data@),
            r matches Some(l) ==> l@ == LanguageInfos::decoded(data@, texts(table@)),
    {
        if data.len() >= 18 {
            Some(LanguageInfos::from_body(data, table))
        } else {
            None
        }
    }
}

/// The size of the firmware's ROM in KiB as the one-byte field gives it.
pub open spec fn rom_kib(field: u8) -> int {
    (field + 1) * 64
}

/// From this size on, in KiB, the size stands in the extended field.
pub const EXTENDED_ROM_SIZE: u16 = 16384;

/// The ROM size that the extended field gives: the low 14 bits hold the
/// magnitude, the top two bits the unit.
pub open spec fn extended_rom_text(field: u16) -> Seq<char> {
    decimal((field % 16384) as nat) + (if field / 16384 == 0 {
        "M"@
    } else {
        "G"@
    })
}

/// The firmware of the system.
#[derive(Debug)]
pub struct Firmware {
    pub vendor: String,
    pub firmware_version: String,
    pub bios_starting_addr_segment: u16,
    pub firmware_release_date: String,
    pub firmware_rom_size: String,
    pub firmware_characteristics: FirmwareCharacteristics,
    pub firmware_characteristics_exentions: FirmwareCharacteristicsExtension,
    pub platform_firmware_release: Release,
    pub embedded_controller_firmware_release: Release,
    pub language_infos: Option<LanguageInfos>,
}

/// A [`Firmware`] as plain values.
pub struct FirmwareView {
    pub vendor: Seq<char>,
    pub firmware_version: Seq<char>,
    pub bios_starting_addr_segment: u16,
    pub firmware_release_date: Seq<char>,
    pub firmware_rom_size: Seq<char>,
    pub firmware_characteristics: FirmwareCharacteristics,
    pub firmware_characteristics_exentions: FirmwareCharacteristicsExtension,
    pub platform_firmware_release: Release,
    pub embedded_controller_firmware_release: Release,
    pub language_infos: Option<LanguageInfosView>,
}

impl FirmwareView {
    /// The same firmware with the given language record merged in.
    pub open spec fn with_languages(self, languages: LanguageInfosView) -> FirmwareView {
        FirmwareView { language_infos: Some(languages), ..self }
    }
}

impl View for Firmware {
    type V = FirmwareView;

    open spec fn view(&self) -> FirmwareView {
        FirmwareView {
            vendor: self.vendor@,
            firmware_version: self.firmware_version@,
            bios_starting_addr_segment: self.bios_starting_addr_segment,
            firmware_release_date: self.firmware_release_date@,
            firmware_rom_size: self.firmware_rom_size@,
            firmware_characteristics: self.firmware_characteristics,
            firmware_characteristics_exentions: self.firmware_characteristics_exentions,
            platform_firmware_release: self.platform_firmware_release,
            embedded_controller_firmware_release: self.embedded_controller_firmware_release,
            language_infos: match self.language_infos {
                Some(l) => Some(l@),
                None => None,
            },
        }
    }
}

/// The line of a flag: present where the flag is set, absent where not.
#[verifier::opaque]
pub open spec fn reported(flag: bool, label: Seq<char>, value: Seq<char>) -> Seq<
    (Seq<char>, Seq<char>),
> {
    if flag {
        seq![(label, value)]
    } else {
        Seq::empty()
    }
}

#[verifier::opaque]
spec fn shown(rows: Seq<Row>) -> Seq<(Seq<char>, Seq<char>)> {
    rows_view(rows)
}

fn report(rows: &mut Vec<Row>, flag: bool, label: &str, value: &str)
    ensures
        shown(final(rows)@) == shown(old(rows)@) + reported(flag, label@, value@),
{
    reveal(reported);
    reveal(shown);
    if flag {
        rows.push(Row::new(label, String::from_str(value)));
    }
    assert(rows_view(rows@) =~= rows_view(old(rows)@) + reported(flag, label@, value@));
}

impl Firmware {
    /// Whether the ROM size stands in the extended field.
    pub open spec fn extended(data: Seq<u8>) -> bool {
        rom_kib(data[5]) >= EXTENDED_ROM_SIZE
    }

    /// Whether a record body is long enough to hold the structure, and the
    /// extended ROM size, where the body refers to it, has a unit that is
    /// defined.
    pub open spec fn accepts(data: Seq<u8>) -> bool {
        data.len() >= 20 && (Firmware::extended(data) ==> data.len() >= 22 && le16(data, 20)
            / 16384 < 2)
    }

    /// The ROM size that a record body announces.
    pub open spec fn rom_size_of(data: Seq<u8>) -> Seq<char> {
        if Firmware::extended(data) {
            extended_rom_text(le16(data, 20) as u16)
        } else {
            decimal(rom_kib(data[5]) as nat) + "K"@
        }
    }

    /// The structure that a record body and its string table describe.
    pub open spec fn decoded(data: Seq<u8>, table: Seq<Seq<char>>) -> FirmwareView {
        FirmwareView {
            vendor: string_at(table, data[0]),
            firmware_version: string_at(table, data[1]),
            bios_starting_addr_segment: le16(data, 2) as u16,
            firmware_release_date: string_at(table, data[4]),
            firmware_rom_size: Firmware::rom_size_of(data),
            firmware_characteristics: FirmwareCharacteristics::of(le64(data, 6) as u64),
            firmware_characteristics_exentions: FirmwareCharacteristicsExtension::of(
                data[14],
                data[15],
            ),
            platform_firmware_release: Release { major: data[16], minor: data[17] },
            embedded_controller_firmware_release: Release { major: data[18], minor: data[19] },
            language_infos: None,
        }
    }

    /// Whether a record body can be decoded.
    pub fn fits(data: &[u8]) -> (r: bool)
        ensures
            r == Firmware::accepts(data@),
    {
        if data.len() < 20 {
            return false;
        }
        if (data[5] as u16 + 1) * 64 < EXTENDED_ROM_SIZE {
            return true;
        }
        data.len() >= 22 && read_le16(data, 20) / 16384 < 2
    }

    /// Decodes a record body that can be decoded.
    pub fn from_body(data: &[u8], table: &[String]) -> (r: Firmware)
        requires
            Firmware::accepts(data@),
        ensures
            r@ == Firmware::decoded(data@, texts(table@)),
    {
        let size = (data[5] as u16 + 1) * 64;
        let firmware_rom_size = if size < EXTENDED_ROM_SIZE {
            let mut s = decimal_string(size as u64);
            s.append("K");
            s
        } else {
            let field = read_le16(data, 20);
            let mut s = decimal_string((field % 16384) as u64);
            if field / 16384 == 0 {
                s.append("M");
            } else {
                s.append("G");
            }
            s
        };
        Firmware {
            vendor: get_string(table, data[0]),
            firmware_version: get_string(table, data[1]),
            bios_starting_addr_segment: read_le16(data, 2),
            firmware_release_date: get_string(table, data[4]),
            firmware_rom_size,
            firmware_characteristics: FirmwareCharacteristics::from_bits(read_le64(data, 6)),
            firmware_characteristics_exentions: FirmwareCharacteristicsExtension::from(
                [data[14], data[15]],
            ),
            platform_firmware_release: Release::new(data[16], data[17]),
            embedded_controller_firmware_release: Release::new(data[18], data[19]),
            language_infos: None,
        }
    }

    /// Decodes a record body, or says that it cannot be decoded.
    pub fn decode(data: &[u8], table: &[String]) -> (r: Option<Firmware>)
        ensures
            r is Some <==> Firmware::accepts(data@),
            r matches Some(f) ==> f@ == Firmware::decoded(data@, texts(table@)),
    {
        if Firmware::fits(data) {
            Some(Firmware::from_body(data, table))
        } else {
            None
        }
    }

    /// The lines under which the structure is shown.
    pub open spec fn rows_of(v: FirmwareView) -> Seq<(Seq<char>, Seq<char>)> {
        seq![
            ("Vendor"@, v.vendor),
            ("Firmware Version"@, v.firmware_version),
            ("Firmware Release Date"@, v.firmware_release_date),
            ("Platform Firmware Release"@, v.platform_firmware_release.text()),
            (
                "Embedded Controller Firmware Release"@,
                v.embedded_controller_firmware_release.text(),
            ),
            ("Bios Starting Addr Segment"@, "0x"@ + hex_upper(v.bios_starting_addr_segment as nat)),
            ("Firmware ROM size"@, v.firmware_rom_size),
        ]
    }

    pub fn rows(&self) -> (r: Vec<Row>)
        ensures
            rows_view(r@) == Firmware::rows_of(self@),
    {
        let mut segment = String::from_str("0x");
        let digits = hex_upper_string(self.bios_starting_addr_segment as u64);
        segment.append(digits.as_str());
        let mut r: Vec<Row> = Vec::new();
        r.push(Row::new("Vendor", self.vendor.clone()));
        r.push(Row::new("Firmware Version", self.firmware_version.clone()));
        r.push(Row::new("Firmware Release Date", self.firmware_release_date.clone()));
        r.push(Row::new("Platform Firmware Release", self.platform_firmware_release.to_string()));
        r.push(
            Row::new(
                "Embedded Controller Firmware Release",
                self.embedded_controller_firmware_release.to_string(),
            ),
        );
        r.push(Row::new("Bios Starting Addr Segment", segment));
        r.push(Row::new("Firmware ROM size", self.firmware_rom_size.clone()));
        assert(rows_view(r@) =~= Firmware::rows_of(self@));
        r
    }

    /// The lines of the buses and power interfaces that the firmware supports.
    pub open spec fn bus_lines(c: FirmwareCharacteristics) -> Seq<(Seq<char>, Seq<char>)> {
        Seq::<(Seq<char>, Seq<char>)>::empty()
            + reported(c.isa, "ISA"@, "Supported"@)
            + reported(c.mca, "MCA"@, "Supported"@)
            + reported(c.eisa, "EISA"@, "Supported"@)
            + reported(c.pci, "PCI"@, "Supported"@)
            + reported(c.pcmcia, "PCMCIA"@, "Supported"@)
            + reported(c.plug_and_play, "Plug and Play"@, "Supported"@)
            + reported(c.apm, "APM"@, "Supported"@)
    }

    /// The lines of what the firmware offers for its own upkeep and for booting.
    pub open spec fn boot_lines(c: FirmwareCharacteristics) -> Seq<(Seq<char>, Seq<char>)> {
        Seq::<(Seq<char>, Seq<char>)>::empty()
            + reported(c.firmware_is_upgradeable, "Firmware is upgradeable"@, "Yes"@)
            + reported(c.firmware_shadowing, "Firmware Shadowing"@, "Allowed"@)
            + reported(c.vl_vesa, "VL-VESA"@, "Supported"@)
            + reported(c.escd, "ESCD"@, "Supported"@)
            + reported(c.boot_from_cd, "Boot from CD"@, "Supported"@)
            + reported(c.selectable_boot, "Selectable boot"@, "Supported"@)
            + reported(c.firmware_rom_is_socketed, "Firmware ROM is socketed"@, "Yes"@)
            + reported(c.boot_from_pcmcia, "Boot from PCMCIA"@, "Supported"@)
            + reported(c.edd_specification, "EDD Specification"@, "Supported"@)
    }

    /// The lines of the interrupt services that the firmware provides.
    pub open spec fn service_lines(c: FirmwareCharacteristics) -> Seq<(Seq<char>, Seq<char>)> {
        Seq::<(Seq<char>, Seq<char>)>::empty()
            + reported(c.int_13h_japanese_floppy_for_nec, "Japanese floppy for NEC 9800 1.2 MB (3.5”, 1K bytes/sector, 360 RPM)"@, "Supported"@)
            + reported(c.int_13h_japanese_floppy_for_toshiba, "Japanese floppy for Toshiba 1.2 MB (3.5”, 360 RPM)"@, "Supported"@)
            + reported(c.int_13h_360, "5.25” / 360 KB floppy services"@, "Supported"@)
            + reported(c.int_13h_1_2, "5.25” /1.2 MB floppy services"@, "Supported"@)
            + reported(c.int_13h_720, "3.5” / 720 KB floppy services"@, "Supported"@)
            + reported(c.int_13h_2_88, "3.5” / 2.88 MB floppy services"@, "Supported"@)
            + reported(c.int_5h_print_screen, "Print screen service"@, "Supported"@)
            + reported(c.int_9h_8042, "8042 keyboard services"@, "Supported"@)
            + reported(c.int_14h_serial_service, "Serial services"@, "Supported"@)
            + reported(c.int_17h_printer_service, "Printer services"@, "Supported"@)
            + reported(c.int_10h_cga, "CGA/Mono video services"@, "Supported"@)
            + reported(c.nec_pc_98, "NEC PC-98"@, "Supported"@)
    }

    /// The lines of the characteristics field, one per flag that is set, in
    /// the order of the bits.
    pub open spec fn characteristic_lines(c: FirmwareCharacteristics) -> Seq<
        (Seq<char>, Seq<char>),
    > {
        Firmware::bus_lines(c) + Firmware::boot_lines(c) + Firmware::service_lines(c)
    }

    /// The lines of the extension bytes, one per flag that is set, in the
    /// order of the bits.
    pub open spec fn extension_lines(e: FirmwareCharacteristicsExtension) -> Seq<
        (Seq<char>, Seq<char>),
    > {
        Seq::<(Seq<char>, Seq<char>)>::empty()
            + reported(e.acpi, "ACPI"@, "Supported"@)
            + reported(e.usb_legacy, "Usb legacy"@, "Supported"@)
            + reported(e.agp, "AGP"@, "Supported"@)
            + reported(e.i2o_boot, "I2O"@, "Supported"@)
            + reported(e.ls_120_superdisk_boot, "LS-120 SuperDisk boot"@, "Supported"@)
            + reported(e.atapi_zip_drive_boot, "ATAPI ZIP drive boot"@, "Supported"@)
            + reported(e._1394_boot, "1394 boot"@, "Supported"@)
            + reported(e.smart_battery, "Smart Battery"@, "Supported"@)
            + reported(e.bios_boot_spec, "BIOS Boot Specification"@, "Supported"@)
            + reported(e.function_key_initiated_network_service, "Function key-initiated network service boot"@, "Supported"@)
            + reported(e.enable_targeted_content_distribution, "Targeted content distribution."@, "Supported"@)
            + reported(e.uefi_spec, "UEFI Specification"@, "Supported"@)
            + reported(e.virtual_machine, "SMBIOS table describes a virtual machine"@, "Yes"@)
            + reported(e.manufacturing_mode_is_supported, "Manufacturing mode boot"@, "Supported"@)
            + reported(e.manufacturing_mode_is_enabled, "Manufacturing mode enabled"@, "Yes"@)
    }

    /// The lines under which the characteristics are shown. Where the
    /// characteristics field is unsupported, nothing is reported: neither
    /// its own flags nor those of the extension bytes.
    pub open spec fn characteristic_rows_of(v: FirmwareView) -> Seq<(Seq<char>, Seq<char>)> {
        if v.firmware_characteristics.supported {
            Firmware::characteristic_lines(v.firmware_characteristics) + Firmware::extension_lines(
                v.firmware_characteristics_exentions,
            )
        } else {
            Seq::empty()
        }
    }

    fn bus_lines_rows(c: &FirmwareCharacteristics) -> (r: Vec<Row>)
        ensures
            rows_view(r@) == Firmware::bus_lines(*c),
    {
        let mut r: Vec<Row> = Vec::new();
        assert(shown(r@) == Seq::<(Seq<char>, Seq<char>)>::empty()) by {
            reveal(shown);
            assert(rows_view(r@) =~= Seq::<(Seq<char>, Seq<char>)>::empty());
        }
        report(&mut r, c.isa, "ISA", "Supported");
        report(&mut r, c.mca, "MCA", "Supported");
        report(&mut r, c.eisa, "EISA", "Supported");
        report(&mut r, c.pci, "PCI", "Supported");
        report(&mut r, c.pcmcia, "PCMCIA", "Supported");
        report(&mut r, c.plug_and_play, "Plug and Play", "Supported");
        report(&mut r, c.apm, "APM", "Supported");
        assert(rows_view(r@) == shown(r@)) by {
            reveal(shown);
        }
        r
    }

    fn boot_lines_rows(c: &FirmwareCharacteristics) -> (r: Vec<Row>)
        ensures
            rows_view(r@) == Firmware::boot_lines(*c),
    {
        let mut r: Vec<Row> = Vec::new();
        assert(shown(r@) == Seq::<(Seq<char>, Seq<char>)>::empty()) by {
            reveal(shown);
            assert(rows_view(r@) =~= Seq::<(Seq<char>, Seq<char>)>::empty());
        }
        report(&mut r, c.firmware_is_upgradeable, "Firmware is upgradeable", "Yes");
        report(&mut r, c.firmware_shadowing, "Firmware Shadowing", "Allowed");
        report(&mut r, c.vl_vesa, "VL-VESA", "Supported");
        report(&mut r, c.escd, "ESCD", "Supported");
        report(&mut r, c.boot_from_cd, "Boot from CD", "Supported");
        report(&mut r, c.selectable_boot, "Selectable boot", "Supported");
        report(&mut r, c.firmware_rom_is_socketed, "Firmware ROM is socketed", "Yes");
        report(&mut r, c.boot_from_pcmcia, "Boot from PCMCIA", "Supported");
        report(&mut r, c.edd_specification, "EDD Specification", "Supported");
        assert(rows_view(r@) == shown(r@)) by {
            reveal(shown);
        }
        r
    }

    fn service_lines_rows(c: &FirmwareCharacteristics) -> (r: Vec<Row>)
        ensures
            rows_view(r@) == Firmware::service_lines(*c),
    {
        let mut r: Vec<Row> = Vec::new();
        assert(shown(r@) == Seq::<(Seq<char>, Seq<char>)>::empty()) by {
            reveal(shown);
            assert(rows_view(r@) =~= Seq::<(Seq<char>, Seq<char>)>::empty());
        }
        report(&mut r, c.int_13h_japanese_floppy_for_nec, "Japanese floppy for NEC 9800 1.2 MB (3.5”, 1K bytes/sector, 360 RPM)", "Supported");
        report(&mut r, c.int_13h_japanese_floppy_for_toshiba, "Japanese floppy for Toshiba 1.2 MB (3.5”, 360 RPM)", "Supported");
        report(&mut r, c.int_13h_360, "5.25” / 360 KB floppy services", "Supported");
        report(&mut r, c.int_13h_1_2, "5.25” /1.2 MB floppy services", "Supported");
        report(&mut r, c.int_13h_720, "3.5” / 720 KB floppy services", "Supported");
        report(&mut r, c.int_13h_2_88, "3.5” / 2.88 MB floppy services", "Supported");
        report(&mut r, c.int_5h_print_screen, "Print screen service", "Supported");
        report(&mut r, c.int_9h_8042, "8042 keyboard services", "Supported");
        report(&mut r, c.int_14h_serial_service, "Serial services", "Supported");
        report(&mut r, c.int_17h_printer_service, "Printer services", "Supported");
        report(&mut r, c.int_10h_cga, "CGA/Mono video services", "Supported");
        report(&mut r, c.nec_pc_98, "NEC PC-98", "Supported");
        assert(rows_view(r@) == shown(r@)) by {
            reveal(shown);
        }
        r
    }

    fn characteristic_line_rows(c: &FirmwareCharacteristics) -> (r: Vec<Row>)
        ensures
            rows_view(r@) == Firmware::characteristic_lines(*c),
    {
        let mut r = Firmware::bus_lines_rows(c);
        let mut boot = Firmware::boot_lines_rows(c);
        let mut service = Firmware::service_lines_rows(c);
        let ghost first = r@;
        let ghost second = boot@;
        let ghost third = service@;
        r.append(&mut boot);
        r.append(&mut service);
        assert(rows_view(r@) =~= rows_view(first) + rows_view(second) + rows_view(third));
        r
    }

    fn extension_line_rows(e: &FirmwareCharacteristicsExtension) -> (r: Vec<Row>)
        ensures
            rows_view(r@) == Firmware::extension_lines(*e),
    {
        let mut r: Vec<Row> = Vec::new();
        assert(shown(r@) == Seq::<(Seq<char>, Seq<char>)>::empty()) by {
            reveal(shown);
            assert(rows_view(r@) =~= Seq::<(Seq<char>, Seq<char>)>::empty());
        }
        report(&mut r, e.acpi, "ACPI", "Supported");
        report(&mut r, e.usb_legacy, "Usb legacy", "Supported");
        report(&mut r, e.agp, "AGP", "Supported");
        report(&mut r, e.i2o_boot, "I2O", "Supported");
        report(&mut r, e.ls_120_superdisk_boot, "LS-120 SuperDisk boot", "Supported");
        report(&mut r, e.atapi_zip_drive_boot, "ATAPI ZIP drive boot", "Supported");
        report(&mut r, e._1394_boot, "1394 boot", "Supported");
        report(&mut r, e.smart_battery, "Smart Battery", "Supported");
        report(&mut r, e.bios_boot_spec, "BIOS Boot Specification", "Supported");
        report(&mut r, e.function_key_initiated_network_service, "Function key-initiated network service boot", "Supported");
        report(&mut r, e.enable_targeted_content_distribution, "Targeted content distribution.", "Supported");
        report(&mut r, e.uefi_spec, "UEFI Specification", "Supported");
        report(&mut r, e.virtual_machine, "SMBIOS table describes a virtual machine", "Yes");
        report(&mut r, e.manufacturing_mode_is_supported, "Manufacturing mode boot", "Supported");
        report(&mut r, e.manufacturing_mode_is_enabled, "Manufacturing mode enabled", "Yes");
        assert(rows_view(r@) == shown(r@)) by {
            reveal(shown);
        }
        r
    }

    pub fn characteristic_rows(&self) -> (r: Vec<Row>)
        ensures
            rows_view(r@) == Firmware::characteristic_rows_of(self@),
            !self@.firmware_characteristics.supported ==> r@.len() == 0,
    {
        if self.firmware_characteristics.supported {
            let mut r = Firmware::characteristic_line_rows(&self.firmware_characteristics);
            let mut more = Firmware::extension_line_rows(&self.firmware_characteristics_exentions);
            let ghost first = r@;
            let ghost second = more@;
            r.append(&mut more);
            assert(rows_view(r@) =~= rows_view(first) + rows_view(second));
            r
        } else {
            let r: Vec<Row> = Vec::new();
            assert(rows_view(r@) =~= Seq::<(Seq<char>, Seq<char>)>::empty());
            r
        }
    }
}

} // verus!
