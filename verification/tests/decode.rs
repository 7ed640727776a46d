use dmitui::dmi::frame::{next_frame, read_strings};
use dmitui::dmi::{DecodeError, FocusedSection, Header, StructureType, DMI};

fn record(kind: u8, handle: u16, body: &[u8], strings: &[&[u8]]) -> Vec<u8> {
    let mut out = vec![kind, (body.len() + 4) as u8, (handle >> 8) as u8, handle as u8];
    out.extend_from_slice(body);
    if strings.is_empty() {
        out.extend_from_slice(&[0, 0]);
    } else {
        for s in strings {
            out.extend_from_slice(s);
            out.push(0);
        }
        out.push(0);
    }
    out
}

fn end_marker() -> Vec<u8> {
    vec![127, 4, 0, 0]
}

fn firmware_body() -> Vec<u8> {
    let mut body = vec![0u8; 20];
    body[0] = 1;
    body[1] = 2;
    body[2] = 0x00;
    body[3] = 0xE0;
    body[4] = 3;
    body[5] = 0x7F;
    body[6] = 0x80;
    body[16] = 1;
    body[17] = 22;
    body[18] = 1;
    body[19] = 7;
    body
}

fn system_body() -> Vec<u8> {
    let mut body = vec![0u8; 23];
    body[0] = 1;
    body[1] = 2;
    for i in 0..16 {
        body[4 + i] = 0xA0 + i as u8;
    }
    body[20] = 6;
    body
}

fn baseboard_body() -> Vec<u8> {
    let mut body = vec![0u8; 10];
    body[0] = 1;
    body[5] = 0b0000_1001;
    body[9] = 10;
    body
}

fn chassis_body() -> Vec<u8> {
    let mut body = vec![0u8; 18];
    body[0] = 1;
    body[1] = 10;
    for i in 5..9 {
        body[i] = 3;
    }
    body
}

fn memory_body() -> Vec<u8> {
    let mut body = vec![0u8; 11];
    body[0] = 3;
    body[1] = 3;
    body[2] = 3;
    body[3..7].copy_from_slice(&2097152u32.to_le_bytes());
    body[7..9].copy_from_slice(&0xFFFEu16.to_le_bytes());
    body[9..11].copy_from_slice(&2u16.to_le_bytes());
    body
}

fn battery_body() -> Vec<u8> {
    let mut body = vec![0u8; 22];
    body[0] = 1;
    body[5] = 6;
    body[6..8].copy_from_slice(&10u16.to_le_bytes());
    body[11] = 0xFF;
    body[17] = 2;
    body
}

fn complete_stream() -> Vec<u8> {
    let mut s = Vec::new();
    s.extend(record(0, 0, &firmware_body(), &[b"Acme", b"1.2.3", b"01/02/2024"]));
    s.extend(record(1, 1, &system_body(), &[b"Acme", b"Box"]));
    s.extend(record(2, 2, &baseboard_body(), &[b"Acme"]));
    s.extend(record(3, 3, &chassis_body(), &[b"Acme"]));
    s.extend(record(16, 4, &memory_body(), &[]));
    s.extend(record(22, 5, &battery_body(), &[b"Rear"]));
    s.extend(end_marker());
    s
}

#[test]
fn complete_stream_decodes_to_one_record_of_each_kind() {
    let dmi = DMI::new(&complete_stream()).unwrap();
    assert_eq!(dmi.firmware().vendor, "Acme");
    assert_eq!(dmi.firmware().firmware_version, "1.2.3");
    assert_eq!(dmi.firmware().firmware_release_date, "01/02/2024");
    assert_eq!(dmi.system().product_name, "Box");
    assert_eq!(dmi.baseboard().manufacturer, "Acme");
    assert_eq!(dmi.chassis().manufacturer, "Acme");
    assert_eq!(dmi.memory().physical_memory_array.max_capacity, "2G");
    assert_eq!(dmi.battery().location, "Rear");
    assert_eq!(dmi.focused_section, FocusedSection::Firmware);
}

#[test]
fn records_may_come_in_any_order() {
    let mut s = Vec::new();
    s.extend(record(22, 5, &battery_body(), &[b"Rear"]));
    s.extend(record(16, 4, &memory_body(), &[]));
    s.extend(record(3, 3, &chassis_body(), &[b"Case"]));
    s.extend(record(2, 2, &baseboard_body(), &[b"Board"]));
    s.extend(record(1, 1, &system_body(), &[b"Acme", b"Box"]));
    s.extend(record(0, 0, &firmware_body(), &[b"Acme", b"1.2.3", b"01/02/2024"]));
    s.extend(end_marker());
    let dmi = DMI::new(&s).unwrap();
    assert_eq!(dmi.chassis().manufacturer, "Case");
    assert_eq!(dmi.baseboard().manufacturer, "Board");
}

#[test]
fn decoding_twice_gives_the_same_model() {
    let s = complete_stream();
    let first = DMI::new(&s).unwrap();
    let second = DMI::new(&s).unwrap();
    assert_eq!(format!("{:?}", first), format!("{:?}", second));
}

#[test]
fn missing_system_record_is_reported() {
    let mut s = Vec::new();
    s.extend(record(0, 0, &firmware_body(), &[b"Acme", b"1.2.3", b"01/02/2024"]));
    s.extend(record(2, 2, &baseboard_body(), &[b"Acme"]));
    s.extend(record(3, 3, &chassis_body(), &[b"Acme"]));
    s.extend(record(16, 4, &memory_body(), &[]));
    s.extend(record(22, 5, &battery_body(), &[b"Rear"]));
    s.extend(end_marker());
    assert_eq!(
        DMI::new(&s).err(),
        Some(DecodeError::MissingMandatoryRecord(StructureType::System))
    );
}

#[test]
fn first_missing_kind_is_named() {
    assert_eq!(
        DMI::new(&end_marker()).err(),
        Some(DecodeError::MissingMandatoryRecord(StructureType::Firmware))
    );
    let mut s = record(0, 0, &firmware_body(), &[b"Acme"]);
    s.extend(record(1, 1, &system_body(), &[]));
    s.extend(record(2, 2, &baseboard_body(), &[]));
    s.extend(record(3, 3, &chassis_body(), &[]));
    s.extend(record(22, 5, &battery_body(), &[]));
    s.extend(end_marker());
    assert_eq!(
        DMI::new(&s).err(),
        Some(DecodeError::MissingMandatoryRecord(StructureType::PhysicalMemoryArray))
    );
}

#[test]
fn invalid_text_is_replaced_not_fatal() {
    let mut s = Vec::new();
    s.extend(record(0, 0, &firmware_body(), &[b"Ac\xFFme", b"1.2.3", b"01/02/2024"]));
    s.extend(record(1, 1, &system_body(), &[b"Acme", b"Box"]));
    s.extend(record(2, 2, &baseboard_body(), &[b"Acme"]));
    s.extend(record(3, 3, &chassis_body(), &[b"Acme"]));
    s.extend(record(16, 4, &memory_body(), &[]));
    s.extend(record(22, 5, &battery_body(), &[b"Rear"]));
    s.extend(end_marker());
    let dmi = DMI::new(&s).unwrap();
    assert_eq!(dmi.firmware().vendor, "Ac\u{FFFD}me");
}

#[test]
fn valid_multibyte_text_is_kept() {
    let (text, _) = read_strings("Grüße\0\0".as_bytes(), 0).unwrap();
    assert_eq!(text, vec!["Grüße".to_string()]);
}

#[test]
fn empty_source_is_exhausted() {
    assert_eq!(DMI::new(&[]).err(), Some(DecodeError::UnexpectedEof));
}

#[test]
fn truncated_header_is_exhausted() {
    assert_eq!(DMI::new(&[127, 4, 0]).err(), Some(DecodeError::UnexpectedEof));
    assert_eq!(DMI::new(&[1, 27]).err(), Some(DecodeError::UnexpectedEof));
}

#[test]
fn truncated_body_is_exhausted() {
    let s = vec![1, 27, 0, 0, 1, 2, 3];
    assert_eq!(DMI::new(&s).err(), Some(DecodeError::UnexpectedEof));
}

#[test]
fn unterminated_string_table_is_exhausted() {
    let mut s = record(1, 1, &system_body(), &[b"Acme"]);
    s.pop();
    assert_eq!(DMI::new(&s).err(), Some(DecodeError::UnexpectedEof));
    let mut t = vec![1, 27, 0, 0];
    t.extend(system_body());
    t.extend_from_slice(b"Acme");
    assert_eq!(DMI::new(&t).err(), Some(DecodeError::UnexpectedEof));
}

#[test]
fn stream_without_end_marker_is_exhausted() {
    let mut s = complete_stream();
    s.truncate(s.len() - 4);
    assert_eq!(DMI::new(&s).err(), Some(DecodeError::UnexpectedEof));
}

#[test]
fn length_under_four_is_a_format_error() {
    for length in 0..4u8 {
        let s = vec![1, length, 0, 0, 0, 0];
        assert_eq!(DMI::new(&s).err(), Some(DecodeError::InvalidLength));
    }
}

#[test]
fn end_marker_is_read_as_header_only() {
    let mut s = complete_stream();
    let n = s.len();
    s[n - 3] = 0;
    assert!(DMI::new(&s).is_ok());
    s[n - 3] = 200;
    assert!(DMI::new(&s).is_ok());
    s.extend_from_slice(&[1, 2, 3]);
    assert!(DMI::new(&s).is_ok());
}

#[test]
fn short_body_of_a_known_kind_is_malformed() {
    let s = record(1, 1, &[0u8; 22], &[]);
    assert_eq!(
        DMI::new(&s).err(),
        Some(DecodeError::MalformedRecord(StructureType::System))
    );
    let t = record(13, 1, &[0u8; 3], &[]);
    assert_eq!(
        DMI::new(&t).err(),
        Some(DecodeError::MalformedRecord(StructureType::FirmwareLanguage))
    );
}

#[test]
fn framing_comes_before_decoding() {
    let mut s = vec![1, 8, 0, 0, 1, 2, 3, 4];
    s.extend_from_slice(b"no end");
    assert_eq!(DMI::new(&s).err(), Some(DecodeError::UnexpectedEof));
}

#[test]
fn unknown_records_are_skipped() {
    let mut s = Vec::new();
    s.extend(record(4, 9, &[1, 2, 3], &[b"CPU"]));
    s.extend(complete_stream());
    let with_unknown = DMI::new(&s).unwrap();
    let without = DMI::new(&complete_stream()).unwrap();
    assert_eq!(format!("{:?}", with_unknown), format!("{:?}", without));
    let mut t = record(200, 9, &[], &[]);
    t.extend(record(126, 9, &[0; 251], &[b"x", b"y"]));
    t.extend(complete_stream());
    assert!(DMI::new(&t).is_ok());
}

#[test]
fn last_record_of_a_kind_wins() {
    let mut s = record(3, 3, &chassis_body(), &[b"First"]);
    s.extend(complete_stream());
    assert_eq!(DMI::new(&s).unwrap().chassis().manufacturer, "Acme");
    let mut t = complete_stream();
    t.truncate(t.len() - 4);
    t.extend(record(3, 3, &chassis_body(), &[b"Last"]));
    t.extend(end_marker());
    assert_eq!(DMI::new(&t).unwrap().chassis().manufacturer, "Last");
}

fn language_body() -> Vec<u8> {
    let mut body = vec![0u8; 18];
    body[0] = 2;
    body[1] = 1;
    body[17] = 2;
    body
}

#[test]
fn language_record_behind_firmware_is_merged() {
    let mut s = complete_stream();
    s.truncate(s.len() - 4);
    s.extend(record(13, 7, &language_body(), &[b"en", b"fr", b"extra"]));
    s.extend(end_marker());
    let dmi = DMI::new(&s).unwrap();
    let languages = dmi.firmware().language_infos.as_ref().unwrap();
    assert_eq!(languages.installable_languages, vec!["en".to_string(), "fr".to_string()]);
    assert!(languages.abbreviated_format);
    assert_eq!(languages.current_language, "fr");
    assert_eq!(dmi.firmware().vendor, "Acme");
}

#[test]
fn language_record_before_firmware_is_dropped() {
    let mut s = record(13, 7, &language_body(), &[b"en", b"fr"]);
    s.extend(complete_stream());
    let dmi = DMI::new(&s).unwrap();
    assert!(dmi.firmware().language_infos.is_none());
}

#[test]
fn later_firmware_record_replaces_merged_languages() {
    let mut s = record(0, 0, &firmware_body(), &[b"Old"]);
    s.extend(record(13, 7, &language_body(), &[b"en", b"fr"]));
    s.extend(complete_stream());
    let dmi = DMI::new(&s).unwrap();
    assert_eq!(dmi.firmware().vendor, "Acme");
    assert!(dmi.firmware().language_infos.is_none());
}

#[test]
fn language_count_past_the_table_takes_what_is_there() {
    let mut body = language_body();
    body[0] = 9;
    body[17] = 5;
    let mut s = complete_stream();
    s.truncate(s.len() - 4);
    s.extend(record(13, 7, &body, &[b"en"]));
    s.extend(end_marker());
    let dmi = DMI::new(&s).unwrap();
    let languages = dmi.firmware().language_infos.as_ref().unwrap();
    assert_eq!(languages.installable_languages, vec!["en".to_string()]);
    assert_eq!(languages.current_language, "");
}

#[test]
fn header_handle_is_big_endian() {
    let header = Header::from([1, 27, 0x12, 0x34]);
    assert_eq!(header.structure_type, StructureType::System);
    assert_eq!(header.length, 27);
    assert_eq!(header.handle, 0x1234);
}

#[test]
fn header_types() {
    let expected = [
        (0, StructureType::Firmware),
        (1, StructureType::System),
        (2, StructureType::Baseboard),
        (3, StructureType::Chassis),
        (13, StructureType::FirmwareLanguage),
        (16, StructureType::PhysicalMemoryArray),
        (22, StructureType::Battery),
        (127, StructureType::End),
        (4, StructureType::Other),
        (255, StructureType::Other),
    ];
    for (code, kind) in expected {
        assert_eq!(StructureType::from_code(code), kind);
        assert_eq!(Header::from([code, 4, 0, 0]).structure_type, kind);
    }
}

#[test]
fn table_without_strings_is_two_nuls() {
    let (text, end) = read_strings(&[9, 0, 0, 7], 1).unwrap();
    assert!(text.is_empty());
    assert_eq!(end, 3);
}

#[test]
fn table_ends_at_first_nul_behind_a_string() {
    let source = b"ab\0cd\0\0\0rest";
    let (text, end) = read_strings(source, 0).unwrap();
    assert_eq!(text, vec!["ab".to_string(), "cd".to_string()]);
    assert_eq!(end, 7);
}

#[test]
fn leading_nul_before_strings_is_passed() {
    let source = b"\0ab\0\0\0";
    let (text, end) = read_strings(source, 0).unwrap();
    assert_eq!(text, vec!["ab".to_string()]);
    assert_eq!(end, 5);
}

#[test]
fn table_that_runs_out_is_none() {
    assert!(read_strings(b"", 0).is_none());
    assert!(read_strings(b"\0", 0).is_none());
    assert!(read_strings(b"ab", 0).is_none());
    assert!(read_strings(b"ab\0", 0).is_none());
    assert!(read_strings(b"\0ab\0", 0).is_none());
    assert!(read_strings(b"ab\0\0", 4).is_none());
    assert!(read_strings(b"ab\0\0", 5).is_none());
}

#[test]
fn frame_gives_body_text_and_next_position() {
    let mut s = record(1, 0x0102, &[5, 6, 7], &[b"one", b"two"]);
    let first_len = s.len();
    s.extend(end_marker());
    let frame = next_frame(&s, 0).unwrap().unwrap();
    assert_eq!(frame.header.structure_type, StructureType::System);
    assert_eq!(frame.header.length, 7);
    assert_eq!(frame.header.handle, 0x0102);
    assert_eq!(frame.body, &[5, 6, 7]);
    assert_eq!(frame.text, vec!["one".to_string(), "two".to_string()]);
    assert_eq!(frame.next, first_len);
    assert!(next_frame(&s, frame.next).unwrap().is_none());
    assert_eq!(next_frame(&s, s.len()).err(), Some(DecodeError::UnexpectedEof));
    assert_eq!(next_frame(&s, s.len() + 1).err(), Some(DecodeError::UnexpectedEof));
}

#[test]
fn frame_of_header_only_record() {
    let s = [5, 4, 0, 0, 0, 0];
    let frame = next_frame(&s, 0).unwrap().unwrap();
    assert!(frame.body.is_empty());
    assert!(frame.text.is_empty());
    assert_eq!(frame.next, 6);
}
