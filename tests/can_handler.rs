use bms_monitor::bms_parser::build_query_frame;
use bms_monitor::bms_types::{BmsCommand, CanFrame, ParsedFrameId};
use bms_monitor::can_handler::{
    build_iplus_frame, connect_plan, parse_iplus_frame, receive_timeout_ms, send_delay_ms,
    AdapterType, CanConfig, CanError, ConnectPlan, PollAction, PollCycle, SimulationHandler,
    CONTINUOUS_RECEIVE_TIMEOUT_MS,
};

fn sample_frame() -> CanFrame {
    CanFrame { id: 0x1808_0010, data: vec![0x22, 0x00, 0x64, 0x00, 0x1E], timestamp: 0 }
}

#[test]
fn iplus_layout_and_checksum() {
    let frame = CanFrame { id: 0x1234_5678, data: vec![0x01, 0x02], timestamp: 0 };
    let bytes = build_iplus_frame(&frame);
    let sum: u32 = [0xAAu32, 0x01, 0x78, 0x56, 0x34, 0x12, 0x02, 0x01, 0x02].iter().sum();
    assert_eq!(bytes, vec![0xAA, 0x01, 0x78, 0x56, 0x34, 0x12, 0x02, 0x01, 0x02, (sum % 256) as u8]);
}

#[test]
fn iplus_round_trip() {
    for len in 0..=8usize {
        let data: Vec<u8> = (0..len as u8).map(|b| b.wrapping_mul(37).wrapping_add(200)).collect();
        let frame = CanFrame { id: 0x1FFF_FFF8 - len as u32, data: data.clone(), timestamp: 0 };
        let parsed = parse_iplus_frame(&build_iplus_frame(&frame)).unwrap();
        assert_eq!(parsed.id, frame.id);
        assert_eq!(parsed.data, data);
    }
}

#[test]
fn iplus_single_byte_change_rejected() {
    let bytes = build_iplus_frame(&sample_frame());
    for i in 1..bytes.len() {
        if i == 6 {
            continue;
        }
        for delta in [1u8, 0x80, 0xFF] {
            let mut bad = bytes.clone();
            bad[i] = bad[i].wrapping_add(delta);
            assert!(parse_iplus_frame(&bad).is_none(), "byte {} changed by {}", i, delta);
        }
    }
    // A larger length byte runs past the buffer.
    let mut longer = bytes.clone();
    longer[6] = 6;
    assert!(parse_iplus_frame(&longer).is_none());
}

#[test]
fn iplus_rejects_malformed() {
    assert!(parse_iplus_frame(&[]).is_none());
    assert!(parse_iplus_frame(&[0xAA, 0x01, 0, 0, 0, 0, 0]).is_none());
    let good = build_iplus_frame(&CanFrame { id: 5, data: vec![], timestamp: 0 });
    assert_eq!(good.len(), 8);
    assert!(parse_iplus_frame(&good).is_some());
    let mut wrong_header = good.clone();
    wrong_header[0] = 0xAB;
    assert!(parse_iplus_frame(&wrong_header).is_none());
    let mut truncated = build_iplus_frame(&sample_frame());
    truncated.pop();
    assert!(parse_iplus_frame(&truncated).is_none());
}

#[test]
fn iplus_ignores_trailing_bytes() {
    let mut bytes = build_iplus_frame(&sample_frame());
    bytes.extend_from_slice(&[0xAA, 0x01, 0x99]);
    let parsed = parse_iplus_frame(&bytes).unwrap();
    assert_eq!(parsed.id, 0x1808_0010);
    assert_eq!(parsed.data, vec![0x22, 0x00, 0x64, 0x00, 0x1E]);
}

#[test]
fn simulation_cycles_through_commands() {
    let mut sim = SimulationHandler::new();
    assert!(!sim.is_connected());
    assert!(matches!(sim.receive_frame(10), Ok(None)));
    sim.connect().unwrap();
    assert!(sim.is_connected());
    assert!(sim.send_frame(&sample_frame()).is_ok());
    let expected = [0x81u8, 0x82, 0x83, 0x84, 0x85, 0x86, 0x87, 0x8F, 0xC0, 0x80, 0x81];
    for code in expected {
        let f = sim.receive_frame(10).unwrap().unwrap();
        let id = ParsedFrameId::from_id(f.id);
        assert_eq!(id.command, code);
        assert!(id.ptp && !id.cnt);
        assert_eq!(id.destination_address, 0x80);
        assert_eq!(id.source_address, 0x01);
        assert_eq!(f.data.len(), 8);
    }
    sim.disconnect().unwrap();
    assert!(sim.receive_frame(10).unwrap().is_none());
}

#[test]
fn simulation_payloads() {
    let mut sim = SimulationHandler::default();
    sim.connect().unwrap();
    let f = sim.receive_frame(10).unwrap().unwrap();
    assert_eq!(f.data, vec![0x50, 0x00, 0x64, 0x00, 0x3C, 0x00, 0x00, 0x00]);
    for _ in 0..6 {
        sim.receive_frame(10).unwrap();
    }
    let version = sim.receive_frame(10).unwrap().unwrap();
    assert_eq!(version.data, vec![0x56, 0x32, 0x2E, 0x31, 0x39, 0x53, 0x00, 0x00]);
}

#[test]
fn connect_plans() {
    let mut config = CanConfig::default();
    assert_eq!(config.adapter_type, AdapterType::UsbCan);
    assert_eq!(config.serial_baud_rate, 115200);
    assert_eq!(config.can_baud_rate, 125_000);
    assert_eq!(config.bms_address, 0x01);
    assert_eq!(config.host_address, 0x80);
    assert!(matches!(connect_plan(&config), Err(CanError::DeviceNotFound(_))));
    config.serial_port = Some("/dev/ttyUSB0".to_string());
    assert_eq!(
        connect_plan(&config),
        Ok(ConnectPlan::OpenSerial {
            port: "/dev/ttyUSB0".to_string(),
            baud_rate: 115200,
            timeout_ms: 1000
        })
    );
    config.adapter_type = AdapterType::Simulation;
    assert_eq!(connect_plan(&config), Ok(ConnectPlan::Simulate));
    config.adapter_type = AdapterType::SocketCan;
    assert_eq!(connect_plan(&config), Ok(ConnectPlan::Simulate));
    config.adapter_type = AdapterType::Native;
    assert_eq!(connect_plan(&config), Ok(ConnectPlan::OpenNative));
    config.adapter_type = AdapterType::BluetoothCan;
    config.serial_port = None;
    assert!(matches!(connect_plan(&config), Err(CanError::DeviceNotFound(_))));
}

#[test]
fn poll_cycle_order() {
    let mut config = CanConfig::default();
    config.bms_address = 0x02;
    let mut cycle = PollCycle::new(&config);
    let commands = [
        BmsCommand::ChargeDischargeLimits,
        BmsCommand::SocSoh,
        BmsCommand::VoltageCurrent,
        BmsCommand::CellVoltage,
        BmsCommand::Temperature,
        BmsCommand::OperationStatus,
        BmsCommand::AccumulatedTimes,
        BmsCommand::AccumulatedPower,
        BmsCommand::SoftwareVersion,
        BmsCommand::AlarmStatus,
    ];
    for cmd in commands {
        match cycle.next_action() {
            PollAction::Send { frame, delay_ms } => {
                assert_eq!(frame.id, build_query_frame(cmd, 0x80, 0x02).id);
                assert_eq!(frame.data, vec![0u8; 8]);
                assert_eq!(delay_ms, 30);
            }
            other => panic!("expected a query, got {:?}", other),
        }
    }
    assert!(matches!(cycle.next_action(), PollAction::MarkAttempt));
    for _ in 0..10 {
        assert!(matches!(cycle.next_action(), PollAction::Receive { timeout_ms: 50 }));
    }
    assert!(matches!(cycle.next_action(), PollAction::Done));
    assert!(matches!(cycle.next_action(), PollAction::Done));
}

#[test]
fn poll_timing_by_adapter() {
    assert_eq!(send_delay_ms(AdapterType::Simulation), 5);
    assert_eq!(send_delay_ms(AdapterType::UsbCan), 30);
    assert_eq!(receive_timeout_ms(AdapterType::Simulation), 10);
    assert_eq!(receive_timeout_ms(AdapterType::BluetoothCan), 50);
    assert_eq!(CONTINUOUS_RECEIVE_TIMEOUT_MS, 100);
    let mut config = CanConfig::default();
    config.adapter_type = AdapterType::Simulation;
    let mut cycle = PollCycle::new(&config);
    assert!(matches!(cycle.next_action(), PollAction::Send { delay_ms: 5, .. }));
}
