use dmitui::dmi::baseboard::{Baseboard, BoardType, Feature};
use dmitui::dmi::battery::{packed_date_string, Battery, Chemistry, DeviceChemistry};
use dmitui::dmi::chassis::{Chassis, ChassisType, SecurityStatus, State};
use dmitui::dmi::firmware::{
    Firmware, FirmwareCharacteristics, FirmwareCharacteristicsExtension, LanguageInfos, Release,
};
use dmitui::dmi::memory::{capacity_string, ErrorCorrection, Function, Location, PhysicalMemoryArray};
use dmitui::dmi::system::{System, WakeupType};
use dmitui::text::Row;

fn table(strings: &[&str]) -> Vec<String> {
    strings.iter().map(|s| s.to_string()).collect()
}

fn pairs(rows: &[Row]) -> Vec<(String, String)> {
    rows.iter().map(|r| (r.label.clone(), r.value.clone())).collect()
}

fn pair(label: &str, value: &str) -> (String, String) {
    (label.to_string(), value.to_string())
}

#[test]
fn battery_design_capacity_is_magnitude_times_multiplier() {
    let mut body = vec![0u8; 22];
    body[6] = 10;
    body[17] = 2;
    let battery = Battery::decode(&body, &[]).unwrap();
    assert_eq!(battery.design_capacity, Some(20));
}

#[test]
fn battery_design_capacity_does_not_wrap() {
    let mut body = vec![0u8; 22];
    body[6] = 0xFF;
    body[7] = 0xFF;
    body[17] = 0xFF;
    let battery = Battery::decode(&body, &[]).unwrap();
    assert_eq!(battery.design_capacity, Some(65535 * 255));
}

#[test]
fn battery_zero_magnitude_is_unknown_capacity() {
    let mut body = vec![0u8; 22];
    body[17] = 9;
    let battery = Battery::decode(&body, &[]).unwrap();
    assert_eq!(battery.design_capacity, None);
}

#[test]
fn packed_date_decodes_to_iso_form() {
    let packed: u16 = (44 << 9) | (3 << 5) | 15;
    assert_eq!(packed_date_string(packed), "2024-03-15");
    assert_eq!(packed_date_string(0), "1980-00-00");
    assert_eq!(packed_date_string(0xFFFF), "2107-15-31");
}

#[test]
fn battery_date_from_packed_field_or_string() {
    let packed: u16 = (44 << 9) | (3 << 5) | 15;
    let mut body = vec![0u8; 22];
    body[14..16].copy_from_slice(&packed.to_le_bytes());
    let strings = table(&["Rear", "03/15/2024"]);
    assert_eq!(Battery::decode(&body, &strings).unwrap().manufacture_date, "2024-03-15");
    body[2] = 2;
    assert_eq!(Battery::decode(&body, &strings).unwrap().manufacture_date, "03/15/2024");
    body[2] = 3;
    assert_eq!(Battery::decode(&body, &strings).unwrap().manufacture_date, "");
}

#[test]
fn battery_serial_from_raw_field_or_string() {
    let mut body = vec![0u8; 22];
    body[12] = 0xEF;
    body[13] = 0xBE;
    let strings = table(&["S123"]);
    assert_eq!(Battery::decode(&body, &strings).unwrap().serial_number, "0xBEEF");
    body[3] = 1;
    assert_eq!(Battery::decode(&body, &strings).unwrap().serial_number, "S123");
    body[3] = 0;
    body[12] = 0;
    body[13] = 0;
    assert_eq!(Battery::decode(&body, &strings).unwrap().serial_number, "0x0");
}

#[test]
fn battery_chemistry_by_code_or_by_name() {
    let mut body = vec![0u8; 22];
    let strings = table(&["LiFePO4"]);
    body[5] = 6;
    let chemistry = Battery::decode(&body, &strings).unwrap().device_chemistry;
    assert_eq!(chemistry, DeviceChemistry::Coded(Chemistry::LithiumIon));
    assert_eq!(chemistry.to_string(), "Lithium-ion");
    body[5] = 2;
    body[16] = 1;
    let chemistry = Battery::decode(&body, &strings).unwrap().device_chemistry;
    assert_eq!(chemistry, DeviceChemistry::Named("LiFePO4".to_string()));
    assert_eq!(chemistry.to_string(), "LiFePO4");
    body[16] = 0;
    let chemistry = Battery::decode(&body, &strings).unwrap().device_chemistry;
    assert_eq!(chemistry, DeviceChemistry::Named(String::new()));
}

#[test]
fn battery_chemistry_keeps_an_undefined_code() {
    let mut body = vec![0u8; 22];
    for code in [0u8, 9, 99, 255] {
        body[5] = code;
        let chemistry = Battery::decode(&body, &[]).unwrap().device_chemistry;
        assert_eq!(chemistry, DeviceChemistry::Coded(Chemistry::Undefined(code)));
        assert_eq!(chemistry.to_string(), "Undefined");
    }
    body[5] = 9;
    let nine = Battery::decode(&body, &[]).unwrap().device_chemistry;
    body[5] = 10;
    let ten = Battery::decode(&body, &[]).unwrap().device_chemistry;
    assert_ne!(nine, ten);
}

#[test]
fn battery_sentinels_and_plain_fields() {
    let mut body = vec![0u8; 22];
    body[0] = 1;
    body[1] = 2;
    body[4] = 3;
    body[8..10].copy_from_slice(&11400u16.to_le_bytes());
    body[10] = 4;
    body[11] = 0xFF;
    body[18..22].copy_from_slice(&0x1234ABCDu32.to_le_bytes());
    let strings = table(&["Rear", "Acme", "BAT0", "1.1"]);
    let battery = Battery::decode(&body, &strings).unwrap();
    assert_eq!(battery.location, "Rear");
    assert_eq!(battery.manufacturer, "Acme");
    assert_eq!(battery.device_name, "BAT0");
    assert_eq!(battery.sbds_version, "1.1");
    assert_eq!(battery.design_voltage, Some(11400));
    assert_eq!(battery.max_error_in_battery, None);
    assert_eq!(battery.oem_specific, 0x1234ABCD);
    body[8] = 0;
    body[9] = 0;
    body[11] = 5;
    let battery = Battery::decode(&body, &strings).unwrap();
    assert_eq!(battery.design_voltage, None);
    assert_eq!(battery.max_error_in_battery, Some(5));
}

#[test]
fn battery_rows() {
    let mut body = vec![0u8; 22];
    body[0] = 1;
    body[5] = 3;
    body[6] = 10;
    body[17] = 2;
    body[11] = 0xFF;
    let battery = Battery::decode(&body, &table(&["Rear"])).unwrap();
    let rows = pairs(&battery.rows());
    assert_eq!(rows.len(), 11);
    assert_eq!(rows[0], pair("location", "Rear"));
    assert_eq!(rows[2], pair("Manufacture Date", "1980-00-00"));
    assert_eq!(rows[5], pair("Chemistry", "Lead Acid"));
    assert_eq!(rows[6], pair("Design Voltage", "Unknown"));
    assert_eq!(rows[7], pair("Design Capacity", "20 mWh"));
    assert_eq!(rows[9], pair("Maximum Error", "Unknown"));
    assert_eq!(rows[10], pair("OEM specific", "0x0"));
}

#[test]
fn battery_body_must_hold_all_fields() {
    assert!(Battery::decode(&[0u8; 21], &[]).is_none());
    assert!(Battery::decode(&[0u8; 22], &[]).is_some());
}

#[test]
fn chemistry_codes() {
    assert_eq!(Chemistry::from(1), Chemistry::Other);
    assert_eq!(Chemistry::from(2), Chemistry::Unknown);
    assert_eq!(Chemistry::from(8), Chemistry::LithiumPolymer);
    assert_eq!(Chemistry::from(0), Chemistry::Undefined(0));
    assert_eq!(Chemistry::from(9), Chemistry::Undefined(9));
    assert_eq!(Chemistry::from(5).to_string(), "Nickel metal hydride");
}

#[test]
fn memory_capacity_in_kib_scales_to_gigabytes() {
    let mut body = vec![0u8; 11];
    body[3..7].copy_from_slice(&2097152u32.to_le_bytes());
    let memory = PhysicalMemoryArray::decode(&body).unwrap();
    assert_eq!(memory.max_capacity, "2G");
}

#[test]
fn memory_capacity_thresholds() {
    assert_eq!(capacity_string(0), "0K");
    assert_eq!(capacity_string(1024), "1024K");
    assert_eq!(capacity_string(1025), "1M");
    assert_eq!(capacity_string(2047), "1M");
    assert_eq!(capacity_string(1024 * 1024), "1024M");
    assert_eq!(capacity_string(1024 * 1024 + 1), "1G");
    assert_eq!(capacity_string(u32::MAX), "4095G");
}

#[test]
fn memory_extended_capacity_is_read_from_its_own_field() {
    let mut body = vec![0u8; 19];
    body[3..7].copy_from_slice(&0x8000_8000u32.to_le_bytes());
    body[11..19].copy_from_slice(&3u64.to_le_bytes());
    assert_eq!(PhysicalMemoryArray::decode(&body).unwrap().max_capacity, "3T");
    body[11..19].copy_from_slice(&u64::MAX.to_le_bytes());
    assert_eq!(
        PhysicalMemoryArray::decode(&body).unwrap().max_capacity,
        "18446744073709551615T"
    );
    assert!(PhysicalMemoryArray::decode(&body[..18]).is_none());
}

#[test]
fn memory_fields() {
    let mut body = vec![0u8; 11];
    body[0] = 3;
    body[1] = 3;
    body[2] = 6;
    body[7..9].copy_from_slice(&0xFFFEu16.to_le_bytes());
    body[9..11].copy_from_slice(&0x0102u16.to_le_bytes());
    let memory = PhysicalMemoryArray::decode(&body).unwrap();
    assert_eq!(memory.location, Location::SystemBoard);
    assert_eq!(memory.function, Function::SystemMemory);
    assert_eq!(memory.error_correction, ErrorCorrection::MultiBitECC);
    assert_eq!(memory.error_information_handle, None);
    assert_eq!(memory.number_memory_devices, 0x0102);
    body[7..9].copy_from_slice(&0x0021u16.to_le_bytes());
    let memory = PhysicalMemoryArray::decode(&body).unwrap();
    assert_eq!(memory.error_information_handle, Some(0x21));
    let rows = pairs(&memory.rows());
    assert_eq!(rows.len(), 6);
    assert_eq!(rows[0], pair("Location", "System board or motherboard"));
    assert_eq!(rows[2], pair("Error Correction", "Multi-bit ECC"));
    assert_eq!(rows[3], pair("Maximum Capacity", "0K"));
    assert_eq!(rows[4], pair("Error Information Handle ", "33"));
    assert_eq!(rows[5], pair("Number Of Devices", "258"));
    assert!(PhysicalMemoryArray::decode(&body[..10]).is_none());
}

#[test]
fn memory_codes() {
    assert_eq!(Location::from(15), Location::Cxl);
    assert_eq!(Location::from(16), Location::Undefined(16));
    assert_eq!(Function::from(7), Function::CacheMemory);
    assert_eq!(Function::from(0), Function::Undefined(0));
    assert_eq!(ErrorCorrection::from(3), ErrorCorrection::NoCorrection);
    assert_eq!(ErrorCorrection::from(3).to_string(), "None");
    assert_eq!(ErrorCorrection::from(8), ErrorCorrection::Undefined(8));
}

#[test]
fn chassis_sku_is_read_behind_the_contained_elements() {
    let mut body = vec![0u8; 24];
    body[15] = 2;
    body[16] = 3;
    body[17] = 1;
    body[23] = 2;
    let strings = table(&["wrong", "SKU-1"]);
    let chassis = Chassis::decode(&body, &strings).unwrap();
    assert_eq!(chassis.sku_number, "SKU-1");
    assert_eq!(chassis.contained_element_count, 2);
    assert_eq!(chassis.contained_element_record_length, 3);
    assert!(Chassis::decode(&body[..23], &strings).is_none());
}

#[test]
fn chassis_elements_extent_does_not_wrap() {
    let mut body = vec![0u8; 18];
    body[15] = 16;
    body[16] = 16;
    assert!(Chassis::decode(&body, &[]).is_none());
    body[15] = 0;
    assert!(Chassis::decode(&body, &[]).is_some());
    assert!(Chassis::decode(&body[..17], &[]).is_none());
}

#[test]
fn chassis_type_shares_its_byte_with_the_lock_bit() {
    let mut body = vec![0u8; 18];
    body[1] = 0x80 | 9;
    let chassis = Chassis::decode(&body, &[]).unwrap();
    assert_eq!(chassis.chassis_type, ChassisType::Laptop);
    assert!(chassis.lock);
    body[1] = 9;
    let chassis = Chassis::decode(&body, &[]).unwrap();
    assert_eq!(chassis.chassis_type, ChassisType::Laptop);
    assert!(!chassis.lock);
}

#[test]
fn chassis_fields_and_rows() {
    let mut body = vec![0u8; 18];
    body[0] = 1;
    body[1] = 3;
    body[2] = 2;
    body[3] = 3;
    body[4] = 4;
    body[5] = 3;
    body[6] = 4;
    body[7] = 6;
    body[8] = 3;
    body[9..13].copy_from_slice(&0xCAFEu32.to_le_bytes());
    body[13] = 2;
    let strings = table(&["Acme", "v1", "SN", "TAG"]);
    let chassis = Chassis::decode(&body, &strings).unwrap();
    assert_eq!(chassis.bootup_state, State::Safe);
    assert_eq!(chassis.power_supply_state, State::Warning);
    assert_eq!(chassis.thermal_state, State::NonRecoverable);
    assert_eq!(chassis.security_status, SecurityStatus::NoSecurity);
    assert_eq!(chassis.oem_defined, 0xCAFE);
    assert_eq!(chassis.height, Some(2));
    assert_eq!(chassis.number_power_cords, None);
    let rows = pairs(&chassis.rows());
    assert_eq!(rows.len(), 15);
    assert_eq!(rows[0], pair("Manufacturer", "Acme"));
    assert_eq!(rows[1], pair("Type", "Desktop"));
    assert_eq!(rows[2], pair("Lock", "Not present"));
    assert_eq!(rows[8], pair("Thermal State", "Non Recoverable"));
    assert_eq!(rows[9], pair("Security Status", "None"));
    assert_eq!(rows[10], pair("OEM defined", "0xCAFE"));
    assert_eq!(rows[11], pair("Height", "2U"));
    assert_eq!(rows[12], pair("Number of Power Cords", "Unspecified"));
    assert_eq!(rows[13], pair("contained elements", "0"));
    assert_eq!(rows[14], pair("SKU", ""));
}

#[test]
fn chassis_codes() {
    assert_eq!(ChassisType::from(1), ChassisType::Other);
    assert_eq!(ChassisType::from(36), ChassisType::StickPC);
    assert_eq!(ChassisType::from(5).to_string(), "Pizza Box ");
    assert_eq!(ChassisType::from(0), ChassisType::Undefined(0));
    assert_eq!(ChassisType::from(37), ChassisType::Undefined(37));
    assert_eq!(State::from(6), State::NonRecoverable);
    assert_eq!(State::from(7), State::Undefined(7));
    assert_eq!(SecurityStatus::from(5), SecurityStatus::ExternalInterfaceEnabled);
    assert_eq!(SecurityStatus::from(0), SecurityStatus::Undefined(0));
    assert_eq!(SecurityStatus::from(0).to_string(), "Undefined");
}

#[test]
fn system_uuid_is_read_in_mixed_endian_order() {
    let mut body = vec![0u8; 23];
    let bytes = [
        0xa1, 0xa2, 0xa3, 0xa4, 0xb1, 0xb2, 0xc1, 0xc2, 0xd1, 0xd2, 0xd3, 0xd4, 0xd5, 0xd6, 0xd7,
        0xd8,
    ];
    body[4..20].copy_from_slice(&bytes);
    let system = System::decode(&body, &[]).unwrap();
    assert_eq!(system.uuid, "a4a3a2a1-b2b1-c2c1-d1d2-d3d4d5d6d7d8");
    body[4..20].copy_from_slice(&[0x0F; 16]);
    assert_eq!(
        System::decode(&body, &[]).unwrap().uuid,
        "0f0f0f0f-0f0f-0f0f-0f0f-0f0f0f0f0f0f"
    );
}

#[test]
fn system_fields_and_rows() {
    let mut body = vec![0u8; 23];
    body[0] = 1;
    body[1] = 2;
    body[2] = 3;
    body[3] = 4;
    body[20] = 6;
    body[21] = 5;
    body[22] = 6;
    let strings = table(&["Acme", "Box", "v2", "SN1", "SKU9", "Boxes"]);
    let system = System::decode(&body, &strings).unwrap();
    assert_eq!(system.manufacturer, "Acme");
    assert_eq!(system.product_name, "Box");
    assert_eq!(system.version, "v2");
    assert_eq!(system.serial_number, "SN1");
    assert_eq!(system.wakeup_type, WakeupType::PowerSwitch);
    assert_eq!(system.sku, "SKU9");
    assert_eq!(system.family, "Boxes");
    let rows = pairs(&system.rows());
    assert_eq!(rows.len(), 8);
    assert_eq!(rows[4], pair("Uuid", "00000000-0000-0000-0000-000000000000"));
    assert_eq!(rows[5], pair("Wakeup Type", "Power Switch"));
    assert_eq!(rows[7], pair("Familly", "Boxes"));
    assert!(System::decode(&body[..22], &strings).is_none());
}

#[test]
fn wakeup_codes() {
    assert_eq!(WakeupType::from(0), WakeupType::Reserved);
    assert_eq!(WakeupType::from(1), WakeupType::Other);
    assert_eq!(WakeupType::from(2), WakeupType::Unknown);
    assert_eq!(WakeupType::from(8), WakeupType::AcPowerRestored);
    assert_eq!(WakeupType::from(9), WakeupType::Undefined(9));
    assert_eq!(WakeupType::from(3).to_string(), "APM Timer");
}

#[test]
fn baseboard_features_come_lowest_bit_first() {
    let mut body = vec![0u8; 10];
    body[5] = 0b0001_1111;
    let board = Baseboard::decode(&body, &[]).unwrap();
    assert_eq!(
        board.features,
        vec![
            Feature::HostingBoard,
            Feature::RequiresOneDaughterBoard,
            Feature::Removable,
            Feature::Replaceable,
            Feature::HotSwappable
        ]
    );
    body[5] = 0b1110_1010;
    let board = Baseboard::decode(&body, &[]).unwrap();
    assert_eq!(board.features, vec![Feature::RequiresOneDaughterBoard, Feature::Replaceable]);
    assert_eq!(
        board.feature_lines(),
        vec![
            "* The board requires at least one daughter board or auxiliary card to function properly"
                .to_string(),
            "* The board is replaceable".to_string()
        ]
    );
    body[5] = 0;
    assert!(Baseboard::decode(&body, &[]).unwrap().features.is_empty());
}

#[test]
fn baseboard_fields_and_rows() {
    let mut body = vec![0u8; 10];
    body[0] = 1;
    body[1] = 2;
    body[2] = 3;
    body[3] = 4;
    body[4] = 5;
    body[8] = 6;
    body[9] = 10;
    let strings = table(&["Acme", "MB", "v3", "SN", "TAG", "Slot 1"]);
    let board = Baseboard::decode(&body, &strings).unwrap();
    assert_eq!(board.board_type, BoardType::MotherBoard);
    assert_eq!(board.location_in_chassis, "Slot 1");
    let rows = pairs(&board.rows());
    assert_eq!(rows.len(), 7);
    assert_eq!(rows[1], pair("Product", "MB"));
    assert_eq!(rows[4], pair("Asset Tag", "TAG"));
    assert_eq!(rows[5], pair("Location in Chassis", "Slot 1"));
    assert_eq!(rows[6], pair("Board Type", "Motherboard (includes processor, memory, and I/O)"));
    assert!(Baseboard::decode(&body[..9], &strings).is_none());
}

#[test]
fn board_codes() {
    assert_eq!(BoardType::from(1), BoardType::Unknown);
    assert_eq!(BoardType::from(2), BoardType::Other);
    assert_eq!(BoardType::from(13), BoardType::InterconnectedModule);
    assert_eq!(BoardType::from(14), BoardType::Undefined(14));
    assert_eq!(BoardType::from(7).to_string(), "I/O Module");
    assert_eq!(Feature::HotSwappable.to_string(), "The board is hot swappable");
}

fn firmware_body() -> Vec<u8> {
    let mut body = vec![0u8; 22];
    body[0] = 1;
    body[1] = 2;
    body[2] = 0x00;
    body[3] = 0xE0;
    body[4] = 3;
    body[16] = 1;
    body[17] = 22;
    body[18] = 255;
    body[19] = 0;
    body
}

#[test]
fn firmware_rom_size_formula() {
    let mut body = firmware_body();
    let strings = table(&["Acme", "1.0", "01/01/2024"]);
    body[5] = 0;
    assert_eq!(Firmware::decode(&body, &strings).unwrap().firmware_rom_size, "64K");
    body[5] = 0x7F;
    assert_eq!(Firmware::decode(&body, &strings).unwrap().firmware_rom_size, "8192K");
    body[5] = 0xFE;
    assert_eq!(Firmware::decode(&body, &strings).unwrap().firmware_rom_size, "16320K");
}

#[test]
fn firmware_extended_rom_size_has_unit_in_top_bits() {
    let mut body = firmware_body();
    body[5] = 0xFF;
    body[20..22].copy_from_slice(&32u16.to_le_bytes());
    assert_eq!(Firmware::decode(&body, &[]).unwrap().firmware_rom_size, "32M");
    body[20..22].copy_from_slice(&(0x4000u16 | 3).to_le_bytes());
    assert_eq!(Firmware::decode(&body, &[]).unwrap().firmware_rom_size, "3G");
    body[20..22].copy_from_slice(&0x3FFFu16.to_le_bytes());
    assert_eq!(Firmware::decode(&body, &[]).unwrap().firmware_rom_size, "16383M");
}

#[test]
fn firmware_body_that_cannot_be_decoded() {
    let mut body = firmware_body();
    assert!(Firmware::decode(&body[..19], &[]).is_none());
    assert!(Firmware::decode(&body[..20], &[]).is_some());
    body[5] = 0xFF;
    assert!(Firmware::decode(&body[..21], &[]).is_none());
    body[20..22].copy_from_slice(&0x8000u16.to_le_bytes());
    assert!(Firmware::decode(&body, &[]).is_none());
    body[20..22].copy_from_slice(&0xC001u16.to_le_bytes());
    assert!(Firmware::decode(&body, &[]).is_none());
}

#[test]
fn firmware_fields_and_rows() {
    let mut body = firmware_body();
    body[5] = 0x7F;
    let strings = table(&["Acme", "1.0", "01/01/2024"]);
    let firmware = Firmware::decode(&body, &strings).unwrap();
    assert_eq!(firmware.vendor, "Acme");
    assert_eq!(firmware.firmware_version, "1.0");
    assert_eq!(firmware.firmware_release_date, "01/01/2024");
    assert_eq!(firmware.bios_starting_addr_segment, 0xE000);
    assert_eq!(firmware.platform_firmware_release, Release::new(1, 22));
    assert_eq!(firmware.embedded_controller_firmware_release, Release::new(255, 0));
    assert!(firmware.language_infos.is_none());
    let rows = pairs(&firmware.rows());
    assert_eq!(rows.len(), 7);
    assert_eq!(rows[0], pair("Vendor", "Acme"));
    assert_eq!(rows[3], pair("Platform Firmware Release", "1.22"));
    assert_eq!(rows[4], pair("Embedded Controller Firmware Release", "255.0"));
    assert_eq!(rows[5], pair("Bios Starting Addr Segment", "0xE000"));
    assert_eq!(rows[6], pair("Firmware ROM size", "8192K"));
}

#[test]
fn firmware_characteristics_bits() {
    let c = FirmwareCharacteristics::from_bits(1 << 4);
    assert!(c.supported && c.isa && !c.mca && !c.nec_pc_98);
    let c = FirmwareCharacteristics::from_bits(1 << 31);
    assert!(c.nec_pc_98 && !c.int_10h_cga);
    let c = FirmwareCharacteristics::from_bits((1 << 3) | (1 << 7));
    assert!(!c.supported && c.pci);
    let c = FirmwareCharacteristics::from_bytes(&[0x80, 0x08, 0x01, 0, 0, 0, 0, 0]);
    assert!(c.pci && c.firmware_is_upgradeable && c.selectable_boot && !c.isa);
    let c = FirmwareCharacteristics::from_bits(u64::MAX & !(1 << 3));
    assert!(c.supported && c.isa && c.apm && c.edd_specification && c.int_13h_720 && c.nec_pc_98);
    let c = FirmwareCharacteristics::from_bits(0xFFFF_FFFF_0000_0000);
    assert!(c.supported && !c.isa && !c.nec_pc_98);
}

#[test]
fn firmware_extension_bits() {
    let e = FirmwareCharacteristicsExtension::from([0b0000_0001, 0b0000_1000]);
    assert!(e.acpi && e.uefi_spec && !e.usb_legacy && !e.virtual_machine);
    let e = FirmwareCharacteristicsExtension::from([0b1000_0000, 0b0100_0000]);
    assert!(e.smart_battery && e.manufacturing_mode_is_enabled && !e._1394_boot);
    let e = FirmwareCharacteristicsExtension::from([0, 0b1000_0000]);
    assert_eq!(e, FirmwareCharacteristicsExtension::from([0, 0]));
}

#[test]
fn unsupported_characteristics_report_nothing() {
    let mut body = firmware_body();
    body[6] = 0b1001_1000;
    body[14] = 0xFF;
    let firmware = Firmware::decode(&body, &[]).unwrap();
    assert!(!firmware.firmware_characteristics.supported);
    assert!(firmware.characteristic_rows().is_empty());
}

#[test]
fn supported_characteristics_report_set_flags_in_bit_order() {
    let mut body = firmware_body();
    body[6] = 0b1001_0000;
    body[7] = 0b0000_1000;
    body[9] = 0b1000_0000;
    body[14] = 0b0000_0001;
    body[15] = 0b0001_1000;
    let firmware = Firmware::decode(&body, &[]).unwrap();
    assert_eq!(
        pairs(&firmware.characteristic_rows()),
        vec![
            pair("ISA", "Supported"),
            pair("PCI", "Supported"),
            pair("Firmware is upgradeable", "Yes"),
            pair("NEC PC-98", "Supported"),
            pair("ACPI", "Supported"),
            pair("UEFI Specification", "Supported"),
            pair("SMBIOS table describes a virtual machine", "Yes"),
        ]
    );
    body[6] = 0;
    body[7] = 0;
    body[9] = 0;
    body[14] = 0;
    body[15] = 0;
    assert!(Firmware::decode(&body, &[]).unwrap().characteristic_rows().is_empty());
}

#[test]
fn all_characteristics_reported() {
    let mut body = firmware_body();
    for i in 6..14 {
        body[i] = 0xFF;
    }
    body[6] = 0xF7;
    body[14] = 0xFF;
    body[15] = 0xFF;
    let rows = pairs(&Firmware::decode(&body, &[]).unwrap().characteristic_rows());
    assert_eq!(rows.len(), 28 + 15);
    assert_eq!(rows[8], pair("Firmware Shadowing", "Allowed"));
    assert_eq!(rows[18], pair("5.25” / 360 KB floppy services", "Supported"));
    assert_eq!(rows[27], pair("NEC PC-98", "Supported"));
    assert_eq!(rows[28], pair("ACPI", "Supported"));
    assert_eq!(rows[42], pair("Manufacturing mode enabled", "Yes"));
}

#[test]
fn release_text() {
    assert_eq!(Release::new(0, 0).to_string(), "0.0");
    assert_eq!(Release::new(12, 5).to_string(), "12.5");
    let r = Release::new(3, 4);
    assert_eq!(r.major, 3);
    assert_eq!(r.minor, 4);
}

#[test]
fn language_record() {
    let mut body = vec![0u8; 18];
    body[0] = 2;
    body[17] = 1;
    let strings = table(&["en|US|iso8859-1", "fr|FR|iso8859-1"]);
    let languages = LanguageInfos::decode(&body, &strings).unwrap();
    assert_eq!(languages.installable_languages, strings);
    assert!(!languages.abbreviated_format);
    assert_eq!(languages.current_language, "en|US|iso8859-1");
    body[0] = 0;
    assert!(LanguageInfos::decode(&body, &strings).unwrap().installable_languages.is_empty());
    assert!(LanguageInfos::decode(&body[..17], &strings).is_none());
}
