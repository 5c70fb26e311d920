use bms_monitor::commands::{
    adapter_type_from_name, can_config_from, get_alarm_descriptions, get_operation_status_name,
    get_system_status_name, get_work_status_name, CommandResult, ConnectionConfig,
};
use bms_monitor::can_handler::AdapterType;

#[test]
fn command_result_envelopes() {
    let ok = CommandResult::ok(true);
    assert!(ok.success);
    assert_eq!(ok.data, Some(true));
    assert!(ok.error.is_none());
    let err: CommandResult<bool> = CommandResult::err("Query failed".to_string());
    assert!(!err.success);
    assert!(err.data.is_none());
    assert_eq!(err.error.as_deref(), Some("Query failed"));
}

#[test]
fn connection_request_defaults() {
    let config = can_config_from(ConnectionConfig {
        adapter_type: "simulation".to_string(),
        serial_port: None,
        serial_baud_rate: None,
        bms_address: None,
    });
    assert_eq!(config.adapter_type, AdapterType::Simulation);
    assert_eq!(config.serial_baud_rate, 115200);
    assert_eq!(config.can_baud_rate, 125_000);
    assert_eq!(config.bms_address, 0x01);
    assert_eq!(config.host_address, 0x80);
    assert!(config.serial_port.is_none());
    assert!(config.socket_can_interface.is_none());
}

#[test]
fn connection_request_given_values() {
    let config = can_config_from(ConnectionConfig {
        adapter_type: "bluetooth".to_string(),
        serial_port: Some("COM3".to_string()),
        serial_baud_rate: Some(9600),
        bms_address: Some(0x05),
    });
    assert_eq!(config.adapter_type, AdapterType::BluetoothCan);
    assert_eq!(config.serial_port.as_deref(), Some("COM3"));
    assert_eq!(config.serial_baud_rate, 9600);
    assert_eq!(config.bms_address, 0x05);
}

#[test]
fn adapter_names() {
    assert_eq!(adapter_type_from_name(&"usb".to_string()), AdapterType::UsbCan);
    assert_eq!(adapter_type_from_name(&"bluetooth".to_string()), AdapterType::BluetoothCan);
    assert_eq!(adapter_type_from_name(&"simulation".to_string()), AdapterType::Simulation);
    assert_eq!(adapter_type_from_name(&"native".to_string()), AdapterType::Native);
    assert_eq!(adapter_type_from_name(&"Simulation".to_string()), AdapterType::UsbCan);
    assert_eq!(adapter_type_from_name(&String::new()), AdapterType::UsbCan);
}

#[test]
fn status_labels() {
    assert_eq!(get_system_status_name(0), "Power On");
    assert_eq!(get_system_status_name(6), "Wait to Discharge");
    assert_eq!(get_system_status_name(8), "Unknown");
    assert_eq!(get_work_status_name(2), "Shut Down");
    assert_eq!(get_work_status_name(3), "Unknown");
    assert_eq!(get_operation_status_name(3), "Fault");
    assert_eq!(get_operation_status_name(255), "Unknown");
}

#[test]
fn alarm_descriptions_table() {
    let table = get_alarm_descriptions();
    assert_eq!(table.len(), 40);
    assert_eq!(table[0], (0, "Cell over voltage".to_string(), 3));
    assert_eq!(table[2], (2, "Charging over temperature alarm".to_string(), 2));
    assert_eq!(table[16], (16, "Water flooding detection and protection".to_string(), 1));
    assert_eq!(table[17], (18, "Charging over temperature protection".to_string(), 3));
    assert_eq!(table[30], (31, "EPO shut down".to_string(), 3));
    assert_eq!(table[39], (40, "CAN Hall data failure".to_string(), 1));
    assert!(table.windows(2).all(|w| w[0].0 < w[1].0));
}
