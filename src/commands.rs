//! Operations offered to a user interface: result envelopes, the mapping from
//! a connection request to an adapter configuration, and the label tables of
//! the status codes and alarms.

use vstd::prelude::*;

use crate::bms_types::{
    alarm_at, alarm_description, alarm_severity, get_alarm_severity, AlarmBit, CAN_BAUD_RATE,
};
use crate::can_handler::{
    AdapterType, CanConfig, DEFAULT_BMS_ADDRESS, DEFAULT_SERIAL_BAUD_RATE, HOST_ADDRESS,
};

verus! {

/// Connection request of a user interface.
#[derive(Debug, Clone)]
pub struct ConnectionConfig {
    /// "usb", "bluetooth", "simulation" or "native"; anything else means "usb".
    pub adapter_type: String,
    pub serial_port: Option<String>,
    pub serial_baud_rate: Option<u32>,
    pub bms_address: Option<u8>,
}

/// Outcome of an operation, as a user interface receives it.
#[derive(Debug, Clone)]
pub struct CommandResult<T> {
    pub success: bool,
    pub data: Option<T>,
    pub error: Option<String>,
}

impl<T> CommandResult<T> {
    /// A success carrying `data`.
    pub fn ok(data: T) -> (r: Self)
        ensures
            r.success,
            r.data == Some(data),
            r.error is None,
    {
        CommandResult { success: true, data: Some(data), error: None }
    }

    /// A failure carrying the message `error`.
    pub fn err(error: String) -> (r: Self)
        ensures
            !r.success,
            r.data is None,
            r.error == Some(error),
    {
        CommandResult { success: false, data: None, error: Some(error) }
    }
}

/// The adapter kind that a name selects.
pub open spec fn adapter_type_named(name: Seq<char>) -> AdapterType {
    if name == "bluetooth"@ {
        AdapterType::BluetoothCan
    } else if name == "simulation"@ {
        AdapterType::Simulation
    } else if name == "native"@ {
        AdapterType::Native
    } else {
        AdapterType::UsbCan
    }
}

/// The adapter kind that `name` selects: "bluetooth", "simulation" and
/// "native" select theirs, anything else (including "usb") the USB adapter.
pub fn adapter_type_from_name(name: &String) -> (r: AdapterType)
    ensures
        r == adapter_type_named(name@),
{
    let bluetooth = "bluetooth".to_string();
    let simulation = "simulation".to_string();
    let native = "native".to_string();
    if *name == bluetooth {
        AdapterType::BluetoothCan
    } else if *name == simulation {
        AdapterType::Simulation
    } else if *name == native {
        AdapterType::Native
    } else {
        AdapterType::UsbCan
    }
}

/// The adapter configuration of a connection request: the named adapter, the
/// port as given, 115200 baud and BMS address 0x01 unless given, the
/// protocol's bus rate and the host address 0x80.
pub fn can_config_from(config: ConnectionConfig) -> (r: CanConfig)
    ensures
        r.adapter_type == adapter_type_named(config.adapter_type@),
        r.serial_port == config.serial_port,
        r.serial_baud_rate == match config.serial_baud_rate {
            Some(b) => b,
            None => DEFAULT_SERIAL_BAUD_RATE,
        },
        r.can_baud_rate == CAN_BAUD_RATE,
        r.socket_can_interface is None,
        r.bms_address == match config.bms_address {
            Some(a) => a,
            None => DEFAULT_BMS_ADDRESS,
        },
        r.host_address == HOST_ADDRESS,
{
    let adapter_type = adapter_type_from_name(&config.adapter_type);
    let serial_baud_rate = match config.serial_baud_rate {
        Some(b) => b,
        None => DEFAULT_SERIAL_BAUD_RATE,
    };
    let bms_address = match config.bms_address {
        Some(a) => a,
        None => DEFAULT_BMS_ADDRESS,
    };
    CanConfig {
        adapter_type,
        serial_port: config.serial_port,
        serial_baud_rate,
        can_baud_rate: CAN_BAUD_RATE,
        socket_can_interface: None,
        bms_address,
        host_address: HOST_ADDRESS,
    }
}

/// Label of a system status code.
pub open spec fn system_status_label(status: u8) -> Seq<char> {
    match status {
        0 => "Power On"@,
        1 => "Start"@,
        2 => "Alone"@,
        3 => "Charging"@,
        4 => "Discharging"@,
        5 => "Wait to Charge"@,
        6 => "Wait to Discharge"@,
        7 => "Lock"@,
        _ => "Unknown"@,
    }
}

/// Label of a system status code ("Unknown" outside 0..=7).
pub fn get_system_status_name(status: u8) -> (r: String)
    ensures
        r@ == system_status_label(status),
{
    match status {
        0 => "Power On".to_string(),
        1 => "Start".to_string(),
        2 => "Alone".to_string(),
        3 => "Charging".to_string(),
        4 => "Discharging".to_string(),
        5 => "Wait to Charge".to_string(),
        6 => "Wait to Discharge".to_string(),
        7 => "Lock".to_string(),
        _ => "Unknown".to_string(),
    }
}

/// Label of a work status code.
pub open spec fn work_status_label(status: u8) -> Seq<char> {
    match status {
        0 => "Empty"@,
        1 => "Boot"@,
        2 => "Shut Down"@,
        _ => "Unknown"@,
    }
}

/// Label of a work status code ("Unknown" outside 0..=2).
pub fn get_work_status_name(status: u8) -> (r: String)
    ensures
        r@ == work_status_label(status),
{
    match status {
        0 => "Empty".to_string(),
        1 => "Boot".to_string(),
        2 => "Shut Down".to_string(),
        _ => "Unknown".to_string(),
    }
}

/// Label of an operation status code.
pub open spec fn operation_status_label(status: u8) -> Seq<char> {
    match status {
        0 => "Empty"@,
        1 => "Normal"@,
        2 => "Alarm"@,
        3 => "Fault"@,
        _ => "Unknown"@,
    }
}

/// Label of an operation status code ("Unknown" outside 0..=3).
pub fn get_operation_status_name(status: u8) -> (r: String)
    ensures
        r@ == operation_status_label(status),
{
    match status {
        0 => "Empty".to_string(),
        1 => "Normal".to_string(),
        2 => "Alarm".to_string(),
        3 => "Fault".to_string(),
        _ => "Unknown".to_string(),
    }
}

/// Position of the `i`-th assigned alarm bit (bit 17 is unassigned).
pub open spec fn nth_alarm_index(i: int) -> int {
    if i < 17 {
        i
    } else {
        i + 1
    }
}

/// Every alarm as (bit position, description, severity), by ascending position.
pub fn get_alarm_descriptions() -> (r: Vec<(u8, String, u8)>)
    ensures
        r@.len() == 40,
        forall|i: int|
            0 <= i < 40 ==> {
                let (index, text, severity) = #[trigger] r@[i];
                &&& index == nth_alarm_index(i)
                &&& alarm_at(index) matches Some(a) && text@ == alarm_description(a) && severity
                    == alarm_severity(a)
            },
{
    let mut r: Vec<(u8, String, u8)> = Vec::new();
    let mut index: u8 = 0;
    while index <= 40
        invariant
            index <= 41,
            r@.len() == (if index <= 17 { index as int } else { index - 1 }),
            forall|i: int|
                0 <= i < r@.len() ==> {
                    let (idx, text, severity) = #[trigger] r@[i];
                    &&& idx == nth_alarm_index(i)
                    &&& alarm_at(idx) matches Some(a) && text@ == alarm_description(a)
                        && severity == alarm_severity(a)
                },
        decreases 41 - index,
    {
        if let Some(alarm) = AlarmBit::from_index(index) {
            r.push((index, alarm.description().to_string(), get_alarm_severity(alarm)));
        }
        index = index + 1;
    }
    r
}

} // verus!
