use bms_monitor::bms_parser::{
    apply_frame, build_query_frame, interpret_alarms, parse_accumulated_power,
    parse_accumulated_times, parse_alarm_status, parse_can_frame, parse_cell_voltage,
    parse_charge_discharge_limits, parse_operation_status, parse_soc_soh, parse_software_version,
    parse_temperature, parse_voltage_current,
};
use bms_monitor::bms_types::{
    get_alarm_severity, AlarmBit, BmsCommand, BmsData, CanFrame, OperationStatusCode,
    ParsedFrameId, ShutdownReason, SystemStatus, WorkStatus,
};

fn frame_for(command: u8, data: Vec<u8>) -> CanFrame {
    let id = ParsedFrameId {
        ptp: true,
        command,
        destination_address: 0x80,
        source_address: 0x01,
        cnt: false,
    }
    .to_id();
    CanFrame { id, data, timestamp: 0 }
}

#[test]
fn test_parse_charge_discharge_limits() {
    // Example from the protocol: 859.2 V, 100 A, 672 V, 100 A.
    let data = [0x90, 0x21, 0xE8, 0x03, 0x40, 0x1A, 0xE8, 0x03];
    let result = parse_charge_discharge_limits(&data).unwrap();

    assert!((result.charge_voltage_limit as f32 * 0.1 - 859.2).abs() < 0.1);
    assert!((result.charge_current_limit as f32 * 0.1 - 100.0).abs() < 0.1);
    assert!((result.discharge_voltage_limit as f32 * 0.1 - 672.0).abs() < 0.1);
    assert!((result.discharge_current_limit as f32 * 0.1 - 100.0).abs() < 0.1);
}

#[test]
fn test_parse_soc_soh() {
    // SOC 34 %, SOH 100 %, backup time 30 minutes.
    let data = [0x22, 0x00, 0x64, 0x00, 0x1E, 0x00, 0x00, 0x00];
    let result = parse_soc_soh(&data).unwrap();

    assert_eq!(result.soc, 34);
    assert_eq!(result.soh, 100);
    assert_eq!(result.backup_time_minutes, 30);
}

#[test]
fn test_parse_voltage_current() {
    // 812.1 V, -120 A (charging).
    let data = [0xB9, 0x1F, 0x50, 0xFB, 0x00, 0x00, 0x00, 0x00];
    let result = parse_voltage_current(&data).unwrap();

    assert!((result.voltage as f32 * 0.1 - 812.1).abs() < 0.1);
    assert!((result.current as f32 * 0.1 - (-120.0)).abs() < 0.1);
}

#[test]
fn test_parse_cell_voltage() {
    // Max 3.394 V (pack 8, cell 5), min 3.372 V (pack 11, cell 2).
    let data = [0x42, 0x0D, 0x08, 0x05, 0x2C, 0x0D, 0x0B, 0x02];
    let result = parse_cell_voltage(&data).unwrap();

    assert!((result.max_voltage as f32 * 0.001 - 3.394).abs() < 0.001);
    assert_eq!(result.max_voltage_pack_no, 8);
    assert_eq!(result.max_voltage_cell_no, 5);
    assert!((result.min_voltage as f32 * 0.001 - 3.372).abs() < 0.001);
    assert_eq!(result.min_voltage_pack_no, 11);
    assert_eq!(result.min_voltage_cell_no, 2);
}

#[test]
fn test_parse_frame_id() {
    // Frame header 18080010.
    let id = 0x18080010u32;
    let parsed = ParsedFrameId::from_id(id);

    assert!(parsed.ptp);
    assert_eq!(parsed.command, 0x80);
    assert_eq!(parsed.destination_address, 0x80);
    assert_eq!(parsed.source_address, 0x01);
    assert!(!parsed.cnt);
}

#[test]
fn limits_exact_steps() {
    let data = [0x90, 0x21, 0xE8, 0x03, 0x40, 0x1A, 0xE8, 0x03];
    let r = parse_charge_discharge_limits(&data).unwrap();
    assert_eq!(r.charge_voltage_limit, 8592);
    assert_eq!(r.charge_current_limit, 1000);
    assert_eq!(r.discharge_voltage_limit, 6720);
    assert_eq!(r.discharge_current_limit, 1000);
}

#[test]
fn voltage_current_exact_and_power() {
    let data = [0xB9, 0x1F, 0x50, 0xFB, 0x00, 0x00, 0x00, 0x00];
    let r = parse_voltage_current(&data).unwrap();
    assert_eq!(r.voltage, 8121);
    assert_eq!(r.current, -1200);
    // 812.1 V * 120.0 A = 97.452 kW = 9_745_200 steps of 0.01 W.
    assert_eq!(r.power, 9_745_200);
    assert!((r.power as f64 / 100_000.0 - 97.452).abs() < 1e-9);
}

#[test]
fn voltage_current_extremes() {
    let r = parse_voltage_current(&[0xFF, 0xFF, 0x00, 0x80]).unwrap();
    assert_eq!(r.voltage, 65535);
    assert_eq!(r.current, -32768);
    assert_eq!(r.power, 65535u32 * 32768);
}

#[test]
fn cell_voltage_exact_and_delta() {
    let data = [0x42, 0x0D, 0x08, 0x05, 0x2C, 0x0D, 0x0B, 0x02];
    let r = parse_cell_voltage(&data).unwrap();
    assert_eq!(r.max_voltage, 3394);
    assert_eq!(r.min_voltage, 3372);
    assert_eq!(r.voltage_delta, 22);
    let swapped = parse_cell_voltage(&[0x2C, 0x0D, 0, 0, 0x42, 0x0D, 0, 0]).unwrap();
    assert_eq!(swapped.voltage_delta, -22);
}

#[test]
fn temperature_signed_values() {
    // Max 27.0 degC (pack 1, sensor 3), min -2.0 degC (pack 2, sensor 5).
    let data = [0x0E, 0x01, 0x01, 0x03, 0xEC, 0xFF, 0x02, 0x05];
    let r = parse_temperature(&data).unwrap();
    assert_eq!(r.max_temperature, 270);
    assert_eq!(r.max_temp_pack_no, 1);
    assert_eq!(r.max_temp_sensor_no, 3);
    assert_eq!(r.min_temperature, -20);
    assert_eq!(r.min_temp_pack_no, 2);
    assert_eq!(r.min_temp_sensor_no, 5);
    assert_eq!(r.temp_delta, 290);
}

#[test]
fn operation_status_fields_and_flags() {
    let r = parse_operation_status(&[0x04, 0x01, 0x01, 0x05]).unwrap();
    assert_eq!(r.system_status, SystemStatus::Discharge);
    assert_eq!(r.work_status, WorkStatus::Boot);
    assert_eq!(r.operation_status, OperationStatusCode::Normal);
    assert!(r.discharge_prohibited);
    assert!(!r.charge_prohibited);
    assert!(r.discharge_prohibited_hard);
    let unknown = parse_operation_status(&[0x09, 0x07, 0x04, 0x02]).unwrap();
    assert_eq!(unknown.system_status, SystemStatus::PowerOn);
    assert_eq!(unknown.work_status, WorkStatus::Empty);
    assert_eq!(unknown.operation_status, OperationStatusCode::Empty);
    assert!(!unknown.discharge_prohibited);
    assert!(unknown.charge_prohibited);
    assert!(!unknown.discharge_prohibited_hard);
}

#[test]
fn status_codes_from_bytes() {
    assert_eq!(SystemStatus::from(7), SystemStatus::Lock);
    assert_eq!(SystemStatus::from(200), SystemStatus::PowerOn);
    assert_eq!(WorkStatus::from(2), WorkStatus::ShutDown);
    assert_eq!(OperationStatusCode::from(3), OperationStatusCode::Fault);
    assert_eq!(ShutdownReason::from(6), ShutdownReason::CommError);
    assert_eq!(ShutdownReason::from(0), ShutdownReason::Invalid);
    assert_eq!(ShutdownReason::from(9), ShutdownReason::Invalid);
}

#[test]
fn command_codes_convert_both_ways() {
    assert_eq!(BmsCommand::try_from(0x8F), Ok(BmsCommand::SoftwareVersion));
    assert_eq!(BmsCommand::try_from(0xD0), Ok(BmsCommand::DebugStatus));
    assert_eq!(BmsCommand::try_from(0x99), Err(()));
    assert_eq!(BmsCommand::AlarmStatus.code(), 0xC0);
    assert_eq!(BmsCommand::Shutdown.code(), 0x00);
}

#[test]
fn counters_and_energy() {
    let t = parse_accumulated_times(&[0x64, 0x00, 0x62, 0x00]).unwrap();
    assert_eq!(t.charge_times, 100);
    assert_eq!(t.discharge_times, 98);
    let p = parse_accumulated_power(&[0xE0, 0x9F, 0x02, 0x00, 0xDE, 0xC9, 0x02, 0x00]).unwrap();
    assert_eq!(p.charge_energy, 172_000);
    assert_eq!(p.discharge_energy, 182_750);
    assert!((p.charge_energy as f64 * 0.1 - 17200.0).abs() < 1e-6);
}

#[test]
fn short_payloads_give_none() {
    assert!(parse_charge_discharge_limits(&[0; 7]).is_none());
    assert!(parse_soc_soh(&[0; 5]).is_none());
    assert!(parse_soc_soh(&[0; 6]).is_some());
    assert!(parse_voltage_current(&[0; 3]).is_none());
    assert!(parse_cell_voltage(&[0; 7]).is_none());
    assert!(parse_temperature(&[0; 7]).is_none());
    assert!(parse_operation_status(&[0; 3]).is_none());
    assert!(parse_accumulated_times(&[0; 3]).is_none());
    assert!(parse_accumulated_power(&[0; 7]).is_none());
    assert!(parse_alarm_status(&[0; 7]).is_none());
    assert!(parse_charge_discharge_limits(&[]).is_none());
}

#[test]
fn software_version_text() {
    let v = parse_software_version(&[0x56, 0x32, 0x2E, 0x31, 0x39, 0x53, 0x00, 0x00]);
    assert_eq!(v.as_deref(), Some("V2.19S"));
    // Zero bytes anywhere are dropped; only the first eight bytes count.
    let v = parse_software_version(&[0x00, 0x41, 0x00, 0x42, 0, 0, 0, 0, 0x43]);
    assert_eq!(v.as_deref(), Some("AB"));
    assert_eq!(parse_software_version(&[0; 8]), None);
    assert_eq!(parse_software_version(&[]), None);
    assert_eq!(parse_software_version(&[0x31]).as_deref(), Some("1"));
}

#[test]
fn alarm_bit_31_only() {
    let a = interpret_alarms(1u64 << 31);
    assert_eq!(a.raw_status, 1u64 << 31);
    assert_eq!(a.active_alarms, vec![31]);
    assert_eq!(a.max_severity, 3);
}

#[test]
fn alarm_none_set() {
    let a = interpret_alarms(0);
    assert!(a.active_alarms.is_empty());
    assert_eq!(a.max_severity, 0);
}

#[test]
fn alarm_severity_levels() {
    // A moderate pre-alarm.
    assert_eq!(interpret_alarms(1 << 2).max_severity, 2);
    // A known mild alarm below bit 33.
    assert_eq!(interpret_alarms(1 << 10).max_severity, 1);
    // Bit 17 is unassigned, bits above 32 are not graded.
    let a = interpret_alarms((1 << 17) | (1 << 40) | (1 << 63));
    assert_eq!(a.active_alarms, vec![17, 40, 63]);
    assert_eq!(a.max_severity, 0);
    let b = interpret_alarms((1 << 0) | (1 << 3) | (1 << 11));
    assert_eq!(b.active_alarms, vec![0, 3, 11]);
    assert_eq!(b.max_severity, 3);
}

#[test]
fn alarm_status_from_payload() {
    let a = parse_alarm_status(&[0x00, 0x00, 0x00, 0x80, 0x01, 0x00, 0x00, 0x00]).unwrap();
    assert_eq!(a.raw_status, 0x0000_0001_8000_0000);
    assert_eq!(a.active_alarms, vec![31, 32]);
    assert_eq!(a.max_severity, 3);
}

#[test]
fn alarm_table() {
    assert_eq!(get_alarm_severity(AlarmBit::EpoShutdown), 3);
    assert_eq!(get_alarm_severity(AlarmBit::TotalUnderVoltageWarning), 2);
    assert_eq!(get_alarm_severity(AlarmBit::HydrogenProtection), 1);
    assert_eq!(AlarmBit::from_index(17), None);
    assert_eq!(AlarmBit::from_index(32), Some(AlarmBit::FireProtection));
    assert_eq!(AlarmBit::FireProtection.index(), 32);
    assert_eq!(AlarmBit::from_index(41), None);
}

#[test]
fn frame_id_encode_decode() {
    let f = ParsedFrameId {
        ptp: true,
        command: 0x80,
        destination_address: 0x80,
        source_address: 0x01,
        cnt: false,
    };
    assert_eq!(f.to_id(), 0x18080010);
    let g = ParsedFrameId {
        ptp: false,
        command: 0xFF,
        destination_address: 0x12,
        source_address: 0xAB,
        cnt: true,
    };
    assert_eq!(ParsedFrameId::from_id(g.to_id()), g);
    // Reserved bits are ignored on decode and cleared on encode.
    assert_eq!(ParsedFrameId::from_id(0xF808_0017).to_id(), 0x1808_0010);
}

#[test]
fn query_frame_layout() {
    let q = build_query_frame(BmsCommand::SocSoh, 0x80, 0x01);
    assert_eq!(q.id, 0x1810_1800);
    assert_eq!(q.data, vec![0u8; 8]);
    let parsed = ParsedFrameId::from_id(q.id);
    assert!(parsed.ptp && !parsed.cnt);
    assert_eq!(parsed.command, 0x81);
    assert_eq!(parsed.source_address, 0x80);
    assert_eq!(parsed.destination_address, 0x01);
}

#[test]
fn apply_twice_same_as_once() {
    let frame = frame_for(0x81, vec![0x22, 0x00, 0x64, 0x00, 0x1E, 0x00, 0x00, 0x00]);
    let mut once = BmsData::default();
    apply_frame(&frame, &mut once, 1000);
    let mut twice = BmsData::default();
    apply_frame(&frame, &mut twice, 500);
    apply_frame(&frame, &mut twice, 1000);
    assert_eq!(format!("{:?}", once), format!("{:?}", twice));
    let soc = once.soc_soh.unwrap();
    assert_eq!((soc.soc, soc.soh, soc.backup_time_minutes), (34, 100, 30));
    assert_eq!(once.timestamp, 1000);
    assert!(once.connected);
}

#[test]
fn unknown_command_leaves_state() {
    let mut data = BmsData::default();
    let before = format!("{:?}", data);
    apply_frame(&frame_for(0x99, vec![1, 2, 3, 4, 5, 6, 7, 8]), &mut data, 1234);
    assert_eq!(format!("{:?}", data), before);
    assert_eq!(data.timestamp, 0);
    assert!(!data.connected);
    parse_can_frame(&frame_for(0x99, vec![0; 8]), &mut data);
    assert_eq!(format!("{:?}", data), before);
}

#[test]
fn undecodable_frames_leave_state() {
    let mut data = BmsData::default();
    let before = format!("{:?}", data);
    // A reserved command has no decoder; a short payload does not decode.
    apply_frame(&frame_for(0x10, vec![0; 8]), &mut data, 10);
    apply_frame(&frame_for(0x80, vec![0; 4]), &mut data, 10);
    apply_frame(&frame_for(0x8F, vec![0; 8]), &mut data, 10);
    assert_eq!(format!("{:?}", data), before);
}

#[test]
fn apply_overwrites_only_its_field() {
    let mut data = BmsData::default();
    apply_frame(&frame_for(0x8F, vec![0x56, 0x32, 0x2E, 0x31, 0x39, 0x53, 0, 0]), &mut data, 7);
    apply_frame(&frame_for(0xC0, vec![0, 0, 0, 0x80, 0, 0, 0, 0]), &mut data, 9);
    assert_eq!(data.software_version.as_deref(), Some("V2.19S"));
    let alarm = data.alarm_status.clone().unwrap();
    assert_eq!(alarm.active_alarms, vec![31]);
    assert_eq!(alarm.max_severity, 3);
    assert!(data.limits.is_none());
    assert_eq!(data.timestamp, 9);
    apply_frame(&frame_for(0x84, vec![0x0E, 0x01, 0x01, 0x03, 0xF8, 0x00, 0x02, 0x05]), &mut data, 11);
    let t = data.temperature.unwrap();
    assert_eq!((t.max_temperature, t.min_temperature, t.temp_delta), (270, 248, 22));
    assert_eq!(data.software_version.as_deref(), Some("V2.19S"));
}

#[test]
fn mark_attempt_sets_connected() {
    let mut data = BmsData::default();
    data.mark_attempt();
    assert!(data.connected);
    assert!(data.timestamp > 0);
    assert!(data.soc_soh.is_none());
}
