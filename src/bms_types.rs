//! Protocol types: command codes, status enumerations, per-command records,
//! the aggregate device state and the CAN identifier layout.
//!
//! Scaled quantities are kept as the integers that the wire carries, with the
//! unit of one step named on each field (a voltage of 859.2 V is 8592 in steps
//! of 0.1 V), so that every decoded value is exact.

use vstd::prelude::*;

use crate::clock::now_millis;

verus! {

/// CAN bus bit rate that the BMS uses (125 kbit/s).
pub const CAN_BAUD_RATE: u32 = 125_000;

/// Command codes of the protocol.
#[derive(Debug, Clone, Copy, PartialEq, Eq, Structural)]
pub enum BmsCommand {
    /// 0x80: charge/discharge voltage and current limits.
    ChargeDischargeLimits,
    /// 0x81: SOC, SOH and backup time.
    SocSoh,
    /// 0x82: battery output voltage and current.
    VoltageCurrent,
    /// 0x83: highest and lowest cell voltage.
    CellVoltage,
    /// 0x84: highest and lowest temperature.
    Temperature,
    /// 0x85: operation status.
    OperationStatus,
    /// 0x86: accumulated charge/discharge cycles.
    AccumulatedTimes,
    /// 0x87: accumulated charge/discharge energy.
    AccumulatedPower,
    /// 0x8F: BMS software version.
    SoftwareVersion,
    /// 0x00: shutdown report.
    Shutdown,
    /// 0x10: force BMS output.
    ForceOutput,
    /// 0x11: BMS reset.
    Reset,
    /// 0xC0: alarm status bitmask.
    AlarmStatus,
    /// 0xD0: debug status.
    DebugStatus,
}

/// The wire code of a command.
pub open spec fn command_code(c: BmsCommand) -> u8 {
    match c {
        BmsCommand::ChargeDischargeLimits => 0x80,
        BmsCommand::SocSoh => 0x81,
        BmsCommand::VoltageCurrent => 0x82,
        BmsCommand::CellVoltage => 0x83,
        BmsCommand::Temperature => 0x84,
        BmsCommand::OperationStatus => 0x85,
        BmsCommand::AccumulatedTimes => 0x86,
        BmsCommand::AccumulatedPower => 0x87,
        BmsCommand::SoftwareVersion => 0x8F,
        BmsCommand::Shutdown => 0x00,
        BmsCommand::ForceOutput => 0x10,
        BmsCommand::Reset => 0x11,
        BmsCommand::AlarmStatus => 0xC0,
        BmsCommand::DebugStatus => 0xD0,
    }
}

/// The command that a wire code names, if any.
pub open spec fn command_of_code(code: u8) -> Option<BmsCommand> {
    match code {
        0x80 => Some(BmsCommand::ChargeDischargeLimits),
        0x81 => Some(BmsCommand::SocSoh),
        0x82 => Some(BmsCommand::VoltageCurrent),
        0x83 => Some(BmsCommand::CellVoltage),
        0x84 => Some(BmsCommand::Temperature),
        0x85 => Some(BmsCommand::OperationStatus),
        0x86 => Some(BmsCommand::AccumulatedTimes),
        0x87 => Some(BmsCommand::AccumulatedPower),
        0x8F => Some(BmsCommand::SoftwareVersion),
        0x00 => Some(BmsCommand::Shutdown),
        0x10 => Some(BmsCommand::ForceOutput),
        0x11 => Some(BmsCommand::Reset),
        0xC0 => Some(BmsCommand::AlarmStatus),
        0xD0 => Some(BmsCommand::DebugStatus),
        _ => None,
    }
}

impl BmsCommand {
    /// The wire code of this command.
    pub fn code(&self) -> (r: u8)
        ensures
            r == command_code(*self),
    {
        match self {
            BmsCommand::ChargeDischargeLimits => 0x80,
            BmsCommand::SocSoh => 0x81,
            BmsCommand::VoltageCurrent => 0x82,
            BmsCommand::CellVoltage => 0x83,
            BmsCommand::Temperature => 0x84,
            BmsCommand::OperationStatus => 0x85,
            BmsCommand::AccumulatedTimes => 0x86,
            BmsCommand::AccumulatedPower => 0x87,
            BmsCommand::SoftwareVersion => 0x8F,
            BmsCommand::Shutdown => 0x00,
            BmsCommand::ForceOutput => 0x10,
            BmsCommand::Reset => 0x11,
            BmsCommand::AlarmStatus => 0xC0,
            BmsCommand::DebugStatus => 0xD0,
        }
    }
}

impl TryFrom<u8> for BmsCommand {
    type Error = ();

    /// The command that `value` names; `Err(())` for a code outside the protocol.
    fn try_from(value: u8) -> (r: Result<Self, Self::Error>)
        ensures
            r == command_result_of_code(value),
    {
        match value {
            0x80 => Ok(BmsCommand::ChargeDischargeLimits),
            0x81 => Ok(BmsCommand::SocSoh),
            0x82 => Ok(BmsCommand::VoltageCurrent),
            0x83 => Ok(BmsCommand::CellVoltage),
            0x84 => Ok(BmsCommand::Temperature),
            0x85 => Ok(BmsCommand::OperationStatus),
            0x86 => Ok(BmsCommand::AccumulatedTimes),
            0x87 => Ok(BmsCommand::AccumulatedPower),
            0x8F => Ok(BmsCommand::SoftwareVersion),
            0x00 => Ok(BmsCommand::Shutdown),
            0x10 => Ok(BmsCommand::ForceOutput),
            0x11 => Ok(BmsCommand::Reset),
            0xC0 => Ok(BmsCommand::AlarmStatus),
            0xD0 => Ok(BmsCommand::DebugStatus),
            _ => Err(()),
        }
    }
}

/// `command_of_code` as the result of a fallible conversion.
pub open spec fn command_result_of_code(code: u8) -> Result<BmsCommand, ()> {
    match command_of_code(code) {
        Some(c) => Ok(c),
        None => Err(()),
    }
}

impl vstd::std_specs::convert::TryFromSpecImpl<u8> for BmsCommand {
    open spec fn obeys_try_from_spec() -> bool {
        true
    }

    open spec fn try_from_spec(v: u8) -> Result<Self, Self::Error> {
        command_result_of_code(v)
    }
}

/// System status reported in byte 0 of command 0x85.
#[derive(Debug, Clone, Copy, PartialEq, Eq, Structural)]
pub enum SystemStatus {
    PowerOn,
    Start,
    Alone,
    Charge,
    Discharge,
    WaitToCharge,
    WaitToDischarge,
    Lock,
}

/// The system status that a byte names; unknown values read as `PowerOn`.
pub open spec fn system_status_of(v: u8) -> SystemStatus {
    match v {
        1 => SystemStatus::Start,
        2 => SystemStatus::Alone,
        3 => SystemStatus::Charge,
        4 => SystemStatus::Discharge,
        5 => SystemStatus::WaitToCharge,
        6 => SystemStatus::WaitToDischarge,
        7 => SystemStatus::Lock,
        _ => SystemStatus::PowerOn,
    }
}

impl From<u8> for SystemStatus {
    fn from(value: u8) -> (r: Self)
        ensures
            r == system_status_of(value),
    {
        match value {
            0 => SystemStatus::PowerOn,
            1 => SystemStatus::Start,
            2 => SystemStatus::Alone,
            3 => SystemStatus::Charge,
            4 => SystemStatus::Discharge,
            5 => SystemStatus::WaitToCharge,
            6 => SystemStatus::WaitToDischarge,
            7 => SystemStatus::Lock,
            _ => SystemStatus::PowerOn,
        }
    }
}

impl vstd::std_specs::convert::FromSpecImpl<u8> for SystemStatus {
    open spec fn obeys_from_spec() -> bool {
        true
    }

    open spec fn from_spec(v: u8) -> Self {
        system_status_of(v)
    }
}

/// Work status reported in byte 1 of command 0x85.
#[derive(Debug, Clone, Copy, PartialEq, Eq, Structural)]
pub enum WorkStatus {
    Empty,
    Boot,
    ShutDown,
}

/// The work status that a byte names; unknown values read as `Empty`.
pub open spec fn work_status_of(v: u8) -> WorkStatus {
    match v {
        1 => WorkStatus::Boot,
        2 => WorkStatus::ShutDown,
        _ => WorkStatus::Empty,
    }
}

impl From<u8> for WorkStatus {
    fn from(value: u8) -> (r: Self)
        ensures
            r == work_status_of(value),
    {
        match value {
            0 => WorkStatus::Empty,
            1 => WorkStatus::Boot,
            2 => WorkStatus::ShutDown,
            _ => WorkStatus::Empty,
        }
    }
}

impl vstd::std_specs::convert::FromSpecImpl<u8> for WorkStatus {
    open spec fn obeys_from_spec() -> bool {
        true
    }

    open spec fn from_spec(v: u8) -> Self {
        work_status_of(v)
    }
}

/// Operation status reported in byte 2 of command 0x85.
#[derive(Debug, Clone, Copy, PartialEq, Eq, Structural)]
pub enum OperationStatusCode {
    Empty,
    Normal,
    Alarm,
    Fault,
}

/// The operation status that a byte names; unknown values read as `Empty`.
pub open spec fn operation_status_of(v: u8) -> OperationStatusCode {
    match v {
        1 => OperationStatusCode::Normal,
        2 => OperationStatusCode::Alarm,
        3 => OperationStatusCode::Fault,
        _ => OperationStatusCode::Empty,
    }
}

impl From<u8> for OperationStatusCode {
    fn from(value: u8) -> (r: Self)
        ensures
            r == operation_status_of(value),
    {
        match value {
            0 => OperationStatusCode::Empty,
            1 => OperationStatusCode::Normal,
            2 => OperationStatusCode::Alarm,
            3 => OperationStatusCode::Fault,
            _ => OperationStatusCode::Empty,
        }
    }
}

impl vstd::std_specs::convert::FromSpecImpl<u8> for OperationStatusCode {
    open spec fn obeys_from_spec() -> bool {
        true
    }

    open spec fn from_spec(v: u8) -> Self {
        operation_status_of(v)
    }
}

/// Reason carried by a shutdown report (command 0x00).
#[derive(Debug, Clone, Copy, PartialEq, Eq, Structural)]
pub enum ShutdownReason {
    Invalid,
    UnderVoltage,
    OverCurrent,
    OverTemperature,
    UnderTemperature,
    OverVoltage,
    CommError,
}

/// The shutdown reason that a byte names; unknown values read as `Invalid`.
pub open spec fn shutdown_reason_of(v: u8) -> ShutdownReason {
    match v {
        1 => ShutdownReason::UnderVoltage,
        2 => ShutdownReason::OverCurrent,
        3 => ShutdownReason::OverTemperature,
        4 => ShutdownReason::UnderTemperature,
        5 => ShutdownReason::OverVoltage,
        6 => ShutdownReason::CommError,
        _ => ShutdownReason::Invalid,
    }
}

impl From<u8> for ShutdownReason {
    fn from(value: u8) -> (r: Self)
        ensures
            r == shutdown_reason_of(value),
    {
        match value {
            1 => ShutdownReason::UnderVoltage,
            2 => ShutdownReason::OverCurrent,
            3 => ShutdownReason::OverTemperature,
            4 => ShutdownReason::UnderTemperature,
            5 => ShutdownReason::OverVoltage,
            6 => ShutdownReason::CommError,
            _ => ShutdownReason::Invalid,
        }
    }
}

impl vstd::std_specs::convert::FromSpecImpl<u8> for ShutdownReason {
    open spec fn obeys_from_spec() -> bool {
        true
    }

    open spec fn from_spec(v: u8) -> Self {
        shutdown_reason_of(v)
    }
}

/// Alarm conditions, one per bit of the command 0xC0 bitmask (bit 17 is unassigned).
#[derive(Debug, Clone, Copy, PartialEq, Eq, Structural)]
pub enum AlarmBit {
    /// Bit 0.
    CellOverVoltage,
    /// Bit 1.
    CellUnderVoltage,
    /// Bit 2.
    ChargingOverTempAlarm,
    /// Bit 3.
    ChargingLowTempAlarm,
    /// Bit 4.
    DischargingOverTempPrealarm,
    /// Bit 5.
    DischargingLowTempPrealarm,
    /// Bit 6.
    DischargingOverCurrentPrealarm,
    /// Bit 7.
    ChargingOverCurrentPrealarm,
    /// Bit 8.
    TotalOverVoltagePrealarm,
    /// Bit 9.
    TotalUnderVoltageWarning,
    /// Bit 10.
    CircuitBreakerDisconnected,
    /// Bit 11.
    BalancedChargingFailed,
    /// Bit 12.
    PositivePackVoltageImbalance,
    /// Bit 13.
    NegativePackVoltageImbalance,
    /// Bit 14.
    BmuCommunicationInterruption,
    /// Bit 15.
    WaterFloodingDetectionAlarm,
    /// Bit 16.
    WaterFloodingProtection,
    /// Bit 18.
    ChargingOverTempProtection,
    /// Bit 19.
    ChargingLowTempProtection,
    /// Bit 20.
    DischargingOverTempProtection,
    /// Bit 21.
    DischargingLowTempProtection,
    /// Bit 22.
    DischargingOverCurrentProtectionL1,
    /// Bit 23.
    DischargingOverCurrentProtectionL2,
    /// Bit 24.
    ChargingOverCurrentProtectionL1,
    /// Bit 25.
    ChargingOverCurrentProtectionL2,
    /// Bit 26.
    ChargingOverCurrentProtectionL3,
    /// Bit 27.
    TotalChargingOverVoltageProtection,
    /// Bit 28.
    TotalChargingUnderVoltageProtection,
    /// Bit 29.
    ChargingDcContactorFailure,
    /// Bit 30.
    DischargingDcContactorFailure,
    /// Bit 31.
    EpoShutdown,
    /// Bit 32.
    FireProtection,
    /// Bit 33.
    ParallelCommunicationAbnormality,
    /// Bit 34.
    ParallelAddressConflict,
    /// Bit 35.
    InsulationMonitoringAlarm,
    /// Bit 36.
    HydrogenProtection,
    /// Bit 37.
    BatteryPackFanMalfunction,
    /// Bit 38.
    BatteryPackFuseTempHigh,
    /// Bit 39.
    CanHallCommunicationInterruption,
    /// Bit 40.
    CanHallDataFailure,
}

/// The bit position of an alarm.
pub open spec fn alarm_index(a: AlarmBit) -> u8 {
    match a {
        AlarmBit::CellOverVoltage => 0,
        AlarmBit::CellUnderVoltage => 1,
        AlarmBit::ChargingOverTempAlarm => 2,
        AlarmBit::ChargingLowTempAlarm => 3,
        AlarmBit::DischargingOverTempPrealarm => 4,
        AlarmBit::DischargingLowTempPrealarm => 5,
        AlarmBit::DischargingOverCurrentPrealarm => 6,
        AlarmBit::ChargingOverCurrentPrealarm => 7,
        AlarmBit::TotalOverVoltagePrealarm => 8,
        AlarmBit::TotalUnderVoltageWarning => 9,
        AlarmBit::CircuitBreakerDisconnected => 10,
        AlarmBit::BalancedChargingFailed => 11,
        AlarmBit::PositivePackVoltageImbalance => 12,
        AlarmBit::NegativePackVoltageImbalance => 13,
        AlarmBit::BmuCommunicationInterruption => 14,
        AlarmBit::WaterFloodingDetectionAlarm => 15,
        AlarmBit::WaterFloodingProtection => 16,
        AlarmBit::ChargingOverTempProtection => 18,
        AlarmBit::ChargingLowTempProtection => 19,
        AlarmBit::DischargingOverTempProtection => 20,
        AlarmBit::DischargingLowTempProtection => 21,
        AlarmBit::DischargingOverCurrentProtectionL1 => 22,
        AlarmBit::DischargingOverCurrentProtectionL2 => 23,
        AlarmBit::ChargingOverCurrentProtectionL1 => 24,
        AlarmBit::ChargingOverCurrentProtectionL2 => 25,
        AlarmBit::ChargingOverCurrentProtectionL3 => 26,
        AlarmBit::TotalChargingOverVoltageProtection => 27,
        AlarmBit::TotalChargingUnderVoltageProtection => 28,
        AlarmBit::ChargingDcContactorFailure => 29,
        AlarmBit::DischargingDcContactorFailure => 30,
        AlarmBit::EpoShutdown => 31,
        AlarmBit::FireProtection => 32,
        AlarmBit::ParallelCommunicationAbnormality => 33,
        AlarmBit::ParallelAddressConflict => 34,
        AlarmBit::InsulationMonitoringAlarm => 35,
        AlarmBit::HydrogenProtection => 36,
        AlarmBit::BatteryPackFanMalfunction => 37,
        AlarmBit::BatteryPackFuseTempHigh => 38,
        AlarmBit::CanHallCommunicationInterruption => 39,
        AlarmBit::CanHallDataFailure => 40,
    }
}

/// The alarm assigned to a bit position, if any.
pub open spec fn alarm_at(index: u8) -> Option<AlarmBit> {
    match index {
        0 => Some(AlarmBit::CellOverVoltage),
        1 => Some(AlarmBit::CellUnderVoltage),
        2 => Some(AlarmBit::ChargingOverTempAlarm),
        3 => Some(AlarmBit::ChargingLowTempAlarm),
        4 => Some(AlarmBit::DischargingOverTempPrealarm),
        5 => Some(AlarmBit::DischargingLowTempPrealarm),
        6 => Some(AlarmBit::DischargingOverCurrentPrealarm),
        7 => Some(AlarmBit::ChargingOverCurrentPrealarm),
        8 => Some(AlarmBit::TotalOverVoltagePrealarm),
        9 => Some(AlarmBit::TotalUnderVoltageWarning),
        10 => Some(AlarmBit::CircuitBreakerDisconnected),
        11 => Some(AlarmBit::BalancedChargingFailed),
        12 => Some(AlarmBit::PositivePackVoltageImbalance),
        13 => Some(AlarmBit::NegativePackVoltageImbalance),
        14 => Some(AlarmBit::BmuCommunicationInterruption),
        15 => Some(AlarmBit::WaterFloodingDetectionAlarm),
        16 => Some(AlarmBit::WaterFloodingProtection),
        18 => Some(AlarmBit::ChargingOverTempProtection),
        19 => Some(AlarmBit::ChargingLowTempProtection),
        20 => Some(AlarmBit::DischargingOverTempProtection),
        21 => Some(AlarmBit::DischargingLowTempProtection),
        22 => Some(AlarmBit::DischargingOverCurrentProtectionL1),
        23 => Some(AlarmBit::DischargingOverCurrentProtectionL2),
        24 => Some(AlarmBit::ChargingOverCurrentProtectionL1),
        25 => Some(AlarmBit::ChargingOverCurrentProtectionL2),
        26 => Some(AlarmBit::ChargingOverCurrentProtectionL3),
        27 => Some(AlarmBit::TotalChargingOverVoltageProtection),
        28 => Some(AlarmBit::TotalChargingUnderVoltageProtection),
        29 => Some(AlarmBit::ChargingDcContactorFailure),
        30 => Some(AlarmBit::DischargingDcContactorFailure),
        31 => Some(AlarmBit::EpoShutdown),
        32 => Some(AlarmBit::FireProtection),
        33 => Some(AlarmBit::ParallelCommunicationAbnormality),
        34 => Some(AlarmBit::ParallelAddressConflict),
        35 => Some(AlarmBit::InsulationMonitoringAlarm),
        36 => Some(AlarmBit::HydrogenProtection),
        37 => Some(AlarmBit::BatteryPackFanMalfunction),
        38 => Some(AlarmBit::BatteryPackFuseTempHigh),
        39 => Some(AlarmBit::CanHallCommunicationInterruption),
        40 => Some(AlarmBit::CanHallDataFailure),
        _ => None,
    }
}

/// Human-readable description of an alarm.
pub open spec fn alarm_description(a: AlarmBit) -> Seq<char> {
    match a {
        AlarmBit::CellOverVoltage => "Cell over voltage"@,
        AlarmBit::CellUnderVoltage => "Cell under voltage"@,
        AlarmBit::ChargingOverTempAlarm => "Charging over temperature alarm"@,
        AlarmBit::ChargingLowTempAlarm => "Charging low temperature alarm"@,
        AlarmBit::DischargingOverTempPrealarm => "Discharging over temperature pre-alarm"@,
        AlarmBit::DischargingLowTempPrealarm => "Discharging low temperature pre-alarm"@,
        AlarmBit::DischargingOverCurrentPrealarm => "Discharging over current pre-alarm"@,
        AlarmBit::ChargingOverCurrentPrealarm => "Charging over current pre-alarm"@,
        AlarmBit::TotalOverVoltagePrealarm => "Total over voltage pre-alarm"@,
        AlarmBit::TotalUnderVoltageWarning => "Total under voltage warning"@,
        AlarmBit::CircuitBreakerDisconnected => "Circuit breaker disconnected"@,
        AlarmBit::BalancedChargingFailed => "Balanced charging failed"@,
        AlarmBit::PositivePackVoltageImbalance => "Positive battery pack voltage imbalance"@,
        AlarmBit::NegativePackVoltageImbalance => "Negative battery pack voltage imbalance"@,
        AlarmBit::BmuCommunicationInterruption => "BMU communication interruption"@,
        AlarmBit::WaterFloodingDetectionAlarm => "Water flooding detection alarm"@,
        AlarmBit::WaterFloodingProtection => "Water flooding detection and protection"@,
        AlarmBit::ChargingOverTempProtection => "Charging over temperature protection"@,
        AlarmBit::ChargingLowTempProtection => "Charging low temperature protection"@,
        AlarmBit::DischargingOverTempProtection => "Discharging over temperature protection"@,
        AlarmBit::DischargingLowTempProtection => "Discharging low temperature protection"@,
        AlarmBit::DischargingOverCurrentProtectionL1 => "Discharging over current protection level 1"@,
        AlarmBit::DischargingOverCurrentProtectionL2 => "Discharging over current protection level 2"@,
        AlarmBit::ChargingOverCurrentProtectionL1 => "Charging over current protection level 1"@,
        AlarmBit::ChargingOverCurrentProtectionL2 => "Charging over current protection level 2"@,
        AlarmBit::ChargingOverCurrentProtectionL3 => "Charging over current protection level 3"@,
        AlarmBit::TotalChargingOverVoltageProtection => "Total charging over voltage protection"@,
        AlarmBit::TotalChargingUnderVoltageProtection => "Total charging under voltage protection"@,
        AlarmBit::ChargingDcContactorFailure => "Charging DC contactor failure"@,
        AlarmBit::DischargingDcContactorFailure => "Discharging DC contactor failure"@,
        AlarmBit::EpoShutdown => "EPO shut down"@,
        AlarmBit::FireProtection => "Fire protection"@,
        AlarmBit::ParallelCommunicationAbnormality => "Parallel communication abnormality"@,
        AlarmBit::ParallelAddressConflict => "Parallel address conflict"@,
        AlarmBit::InsulationMonitoringAlarm => "Insulation monitoring alarm"@,
        AlarmBit::HydrogenProtection => "Hydrogen protection"@,
        AlarmBit::BatteryPackFanMalfunction => "Battery pack fan malfunction"@,
        AlarmBit::BatteryPackFuseTempHigh => "Battery pack fuse temperature too high"@,
        AlarmBit::CanHallCommunicationInterruption => "CAN Hall communication interruption"@,
        AlarmBit::CanHallDataFailure => "CAN Hall data failure"@,
    }
}

/// Severity of an alarm: 3 severe, 2 moderate, 1 mild.
pub open spec fn alarm_severity(a: AlarmBit) -> u8 {
    match a {
        AlarmBit::CellOverVoltage
        | AlarmBit::CellUnderVoltage
        | AlarmBit::BmuCommunicationInterruption
        | AlarmBit::ChargingOverTempProtection
        | AlarmBit::ChargingLowTempProtection
        | AlarmBit::DischargingOverTempProtection
        | AlarmBit::DischargingLowTempProtection
        | AlarmBit::DischargingOverCurrentProtectionL1
        | AlarmBit::DischargingOverCurrentProtectionL2
        | AlarmBit::ChargingOverCurrentProtectionL1
        | AlarmBit::ChargingOverCurrentProtectionL2
        | AlarmBit::ChargingOverCurrentProtectionL3
        | AlarmBit::TotalChargingOverVoltageProtection
        | AlarmBit::TotalChargingUnderVoltageProtection
        | AlarmBit::ChargingDcContactorFailure
        | AlarmBit::DischargingDcContactorFailure
        | AlarmBit::EpoShutdown
        | AlarmBit::FireProtection => 3,
        AlarmBit::ChargingOverTempAlarm
        | AlarmBit::ChargingLowTempAlarm
        | AlarmBit::DischargingOverTempPrealarm
        | AlarmBit::DischargingLowTempPrealarm
        | AlarmBit::DischargingOverCurrentPrealarm
        | AlarmBit::ChargingOverCurrentPrealarm
        | AlarmBit::TotalOverVoltagePrealarm
        | AlarmBit::TotalUnderVoltageWarning => 2,
        _ => 1,
    }
}

impl AlarmBit {
    /// Human-readable description of this alarm.
    pub fn description(&self) -> (r: &'static str)
        ensures
            r@ == alarm_description(*self),
    {
        match self {
            AlarmBit::CellOverVoltage => "Cell over voltage",
            AlarmBit::CellUnderVoltage => "Cell under voltage",
            AlarmBit::ChargingOverTempAlarm => "Charging over temperature alarm",
            AlarmBit::ChargingLowTempAlarm => "Charging low temperature alarm",
            AlarmBit::DischargingOverTempPrealarm => "Discharging over temperature pre-alarm",
            AlarmBit::DischargingLowTempPrealarm => "Discharging low temperature pre-alarm",
            AlarmBit::DischargingOverCurrentPrealarm => "Discharging over current pre-alarm",
            AlarmBit::ChargingOverCurrentPrealarm => "Charging over current pre-alarm",
            AlarmBit::TotalOverVoltagePrealarm => "Total over voltage pre-alarm",
            AlarmBit::TotalUnderVoltageWarning => "Total under voltage warning",
            AlarmBit::CircuitBreakerDisconnected => "Circuit breaker disconnected",
            AlarmBit::BalancedChargingFailed => "Balanced charging failed",
            AlarmBit::PositivePackVoltageImbalance => "Positive battery pack voltage imbalance",
            AlarmBit::NegativePackVoltageImbalance => "Negative battery pack voltage imbalance",
            AlarmBit::BmuCommunicationInterruption => "BMU communication interruption",
            AlarmBit::WaterFloodingDetectionAlarm => "Water flooding detection alarm",
            AlarmBit::WaterFloodingProtection => "Water flooding detection and protection",
            AlarmBit::ChargingOverTempProtection => "Charging over temperature protection",
            AlarmBit::ChargingLowTempProtection => "Charging low temperature protection",
            AlarmBit::DischargingOverTempProtection => "Discharging over temperature protection",
            AlarmBit::DischargingLowTempProtection => "Discharging low temperature protection",
            AlarmBit::DischargingOverCurrentProtectionL1 => "Discharging over current protection level 1",
            AlarmBit::DischargingOverCurrentProtectionL2 => "Discharging over current protection level 2",
            AlarmBit::ChargingOverCurrentProtectionL1 => "Charging over current protection level 1",
            AlarmBit::ChargingOverCurrentProtectionL2 => "Charging over current protection level 2",
            AlarmBit::ChargingOverCurrentProtectionL3 => "Charging over current protection level 3",
            AlarmBit::TotalChargingOverVoltageProtection => "Total charging over voltage protection",
            AlarmBit::TotalChargingUnderVoltageProtection => "Total charging under voltage protection",
            AlarmBit::ChargingDcContactorFailure => "Charging DC contactor failure",
            AlarmBit::DischargingDcContactorFailure => "Discharging DC contactor failure",
            AlarmBit::EpoShutdown => "EPO shut down",
            AlarmBit::FireProtection => "Fire protection",
            AlarmBit::ParallelCommunicationAbnormality => "Parallel communication abnormality",
            AlarmBit::ParallelAddressConflict => "Parallel address conflict",
            AlarmBit::InsulationMonitoringAlarm => "Insulation monitoring alarm",
            AlarmBit::HydrogenProtection => "Hydrogen protection",
            AlarmBit::BatteryPackFanMalfunction => "Battery pack fan malfunction",
            AlarmBit::BatteryPackFuseTempHigh => "Battery pack fuse temperature too high",
            AlarmBit::CanHallCommunicationInterruption => "CAN Hall communication interruption",
            AlarmBit::CanHallDataFailure => "CAN Hall data failure",
        }
    }

    /// The bit position of this alarm in the 64-bit bitmask.
    pub fn index(&self) -> (r: u8)
        ensures
            r == alarm_index(*self),
    {
        match self {
            AlarmBit::CellOverVoltage => 0,
            AlarmBit::CellUnderVoltage => 1,
            AlarmBit::ChargingOverTempAlarm => 2,
            AlarmBit::ChargingLowTempAlarm => 3,
            AlarmBit::DischargingOverTempPrealarm => 4,
            AlarmBit::DischargingLowTempPrealarm => 5,
            AlarmBit::DischargingOverCurrentPrealarm => 6,
            AlarmBit::ChargingOverCurrentPrealarm => 7,
            AlarmBit::TotalOverVoltagePrealarm => 8,
            AlarmBit::TotalUnderVoltageWarning => 9,
            AlarmBit::CircuitBreakerDisconnected => 10,
            AlarmBit::BalancedChargingFailed => 11,
            AlarmBit::PositivePackVoltageImbalance => 12,
            AlarmBit::NegativePackVoltageImbalance => 13,
            AlarmBit::BmuCommunicationInterruption => 14,
            AlarmBit::WaterFloodingDetectionAlarm => 15,
            AlarmBit::WaterFloodingProtection => 16,
            AlarmBit::ChargingOverTempProtection => 18,
            AlarmBit::ChargingLowTempProtection => 19,
            AlarmBit::DischargingOverTempProtection => 20,
            AlarmBit::DischargingLowTempProtection => 21,
            AlarmBit::DischargingOverCurrentProtectionL1 => 22,
            AlarmBit::DischargingOverCurrentProtectionL2 => 23,
            AlarmBit::ChargingOverCurrentProtectionL1 => 24,
            AlarmBit::ChargingOverCurrentProtectionL2 => 25,
            AlarmBit::ChargingOverCurrentProtectionL3 => 26,
            AlarmBit::TotalChargingOverVoltageProtection => 27,
            AlarmBit::TotalChargingUnderVoltageProtection => 28,
            AlarmBit::ChargingDcContactorFailure => 29,
            AlarmBit::DischargingDcContactorFailure => 30,
            AlarmBit::EpoShutdown => 31,
            AlarmBit::FireProtection => 32,
            AlarmBit::ParallelCommunicationAbnormality => 33,
            AlarmBit::ParallelAddressConflict => 34,
            AlarmBit::InsulationMonitoringAlarm => 35,
            AlarmBit::HydrogenProtection => 36,
            AlarmBit::BatteryPackFanMalfunction => 37,
            AlarmBit::BatteryPackFuseTempHigh => 38,
            AlarmBit::CanHallCommunicationInterruption => 39,
            AlarmBit::CanHallDataFailure => 40,
        }
    }

    /// The alarm assigned to bit `index`; `None` for an unassigned position.
    pub fn from_index(index: u8) -> (r: Option<AlarmBit>)
        ensures
            r == alarm_at(index),
    {
        match index {
            0 => Some(AlarmBit::CellOverVoltage),
            1 => Some(AlarmBit::CellUnderVoltage),
            2 => Some(AlarmBit::ChargingOverTempAlarm),
            3 => Some(AlarmBit::ChargingLowTempAlarm),
            4 => Some(AlarmBit::DischargingOverTempPrealarm),
            5 => Some(AlarmBit::DischargingLowTempPrealarm),
            6 => Some(AlarmBit::DischargingOverCurrentPrealarm),
            7 => Some(AlarmBit::ChargingOverCurrentPrealarm),
            8 => Some(AlarmBit::TotalOverVoltagePrealarm),
            9 => Some(AlarmBit::TotalUnderVoltageWarning),
            10 => Some(AlarmBit::CircuitBreakerDisconnected),
            11 => Some(AlarmBit::BalancedChargingFailed),
            12 => Some(AlarmBit::PositivePackVoltageImbalance),
            13 => Some(AlarmBit::NegativePackVoltageImbalance),
            14 => Some(AlarmBit::BmuCommunicationInterruption),
            15 => Some(AlarmBit::WaterFloodingDetectionAlarm),
            16 => Some(AlarmBit::WaterFloodingProtection),
            18 => Some(AlarmBit::ChargingOverTempProtection),
            19 => Some(AlarmBit::ChargingLowTempProtection),
            20 => Some(AlarmBit::DischargingOverTempProtection),
            21 => Some(AlarmBit::DischargingLowTempProtection),
            22 => Some(AlarmBit::DischargingOverCurrentProtectionL1),
            23 => Some(AlarmBit::DischargingOverCurrentProtectionL2),
            24 => Some(AlarmBit::ChargingOverCurrentProtectionL1),
            25 => Some(AlarmBit::ChargingOverCurrentProtectionL2),
            26 => Some(AlarmBit::ChargingOverCurrentProtectionL3),
            27 => Some(AlarmBit::TotalChargingOverVoltageProtection),
            28 => Some(AlarmBit::TotalChargingUnderVoltageProtection),
            29 => Some(AlarmBit::ChargingDcContactorFailure),
            30 => Some(AlarmBit::DischargingDcContactorFailure),
            31 => Some(AlarmBit::EpoShutdown),
            32 => Some(AlarmBit::FireProtection),
            33 => Some(AlarmBit::ParallelCommunicationAbnormality),
            34 => Some(AlarmBit::ParallelAddressConflict),
            35 => Some(AlarmBit::InsulationMonitoringAlarm),
            36 => Some(AlarmBit::HydrogenProtection),
            37 => Some(AlarmBit::BatteryPackFanMalfunction),
            38 => Some(AlarmBit::BatteryPackFuseTempHigh),
            39 => Some(AlarmBit::CanHallCommunicationInterruption),
            40 => Some(AlarmBit::CanHallDataFailure),
            _ => None,
        }
    }
}

/// Severity level of an alarm (1 mild, 2 moderate, 3 severe).
pub fn get_alarm_severity(alarm: AlarmBit) -> (r: u8)
    ensures
        r == alarm_severity(alarm),
        1 <= r <= 3,
{
    match alarm {
        AlarmBit::CellOverVoltage
        | AlarmBit::CellUnderVoltage
        | AlarmBit::BmuCommunicationInterruption
        | AlarmBit::ChargingOverTempProtection
        | AlarmBit::ChargingLowTempProtection
        | AlarmBit::DischargingOverTempProtection
        | AlarmBit::DischargingLowTempProtection
        | AlarmBit::DischargingOverCurrentProtectionL1
        | AlarmBit::DischargingOverCurrentProtectionL2
        | AlarmBit::ChargingOverCurrentProtectionL1
        | AlarmBit::ChargingOverCurrentProtectionL2
        | AlarmBit::ChargingOverCurrentProtectionL3
        | AlarmBit::TotalChargingOverVoltageProtection
        | AlarmBit::TotalChargingUnderVoltageProtection
        | AlarmBit::ChargingDcContactorFailure
        | AlarmBit::DischargingDcContactorFailure
        | AlarmBit::EpoShutdown
        | AlarmBit::FireProtection => 3,
        AlarmBit::ChargingOverTempAlarm
        | AlarmBit::ChargingLowTempAlarm
        | AlarmBit::DischargingOverTempPrealarm
        | AlarmBit::DischargingLowTempPrealarm
        | AlarmBit::DischargingOverCurrentPrealarm
        | AlarmBit::ChargingOverCurrentPrealarm
        | AlarmBit::TotalOverVoltagePrealarm
        | AlarmBit::TotalUnderVoltageWarning => 2,
        _ => 1,
    }
}

/// Command 0x80: charge and discharge limits, each in steps of 0.1 (V or A).
#[derive(Debug, Clone, Copy, PartialEq, Eq, Structural)]
pub struct ChargeDischargeLimits {
    /// Charge voltage limit, in steps of 0.1 V.
    pub charge_voltage_limit: u16,
    /// Charge current limit, in steps of 0.1 A.
    pub charge_current_limit: u16,
    /// Discharge voltage limit, in steps of 0.1 V.
    pub discharge_voltage_limit: u16,
    /// Discharge current limit, in steps of 0.1 A.
    pub discharge_current_limit: u16,
}

/// Command 0x81: state of charge and health.
#[derive(Debug, Clone, Copy, PartialEq, Eq, Structural)]
pub struct SocSohData {
    /// State of charge in %.
    pub soc: u16,
    /// State of health in %.
    pub soh: u16,
    /// Battery backup time in minutes.
    pub backup_time_minutes: u16,
}

/// Command 0x82: battery output voltage, current and derived power.
#[derive(Debug, Clone, Copy, PartialEq, Eq, Structural)]
pub struct VoltageCurrentData {
    /// Output voltage, in steps of 0.1 V.
    pub voltage: u16,
    /// Output current, in steps of 0.1 A (positive discharging, negative charging).
    pub current: i16,
    /// Power `voltage * |current|`, in steps of 0.01 W (10^-5 kW).
    pub power: u32,
}

/// Command 0x83: highest and lowest cell voltage with their locations.
#[derive(Debug, Clone, Copy, PartialEq, Eq, Structural)]
pub struct CellVoltageData {
    /// Highest cell voltage in mV.
    pub max_voltage: u16,
    /// Pack holding the highest cell.
    pub max_voltage_pack_no: u8,
    /// Cell number of the highest cell.
    pub max_voltage_cell_no: u8,
    /// Lowest cell voltage in mV.
    pub min_voltage: u16,
    /// Pack holding the lowest cell.
    pub min_voltage_pack_no: u8,
    /// Cell number of the lowest cell.
    pub min_voltage_cell_no: u8,
    /// `max_voltage - min_voltage` in mV.
    pub voltage_delta: i32,
}

/// Command 0x84: highest and lowest temperature with their locations.
#[derive(Debug, Clone, Copy, PartialEq, Eq, Structural)]
pub struct TemperatureData {
    /// Highest temperature, in steps of 0.1 degC.
    pub max_temperature: i16,
    /// Pack with the highest temperature.
    pub max_temp_pack_no: u8,
    /// Sensor with the highest temperature.
    pub max_temp_sensor_no: u8,
    /// Lowest temperature, in steps of 0.1 degC.
    pub min_temperature: i16,
    /// Pack with the lowest temperature.
    pub min_temp_pack_no: u8,
    /// Sensor with the lowest temperature.
    pub min_temp_sensor_no: u8,
    /// `max_temperature - min_temperature`, in steps of 0.1 degC.
    pub temp_delta: i32,
}

/// Command 0x85: status codes and prohibition flags.
#[derive(Debug, Clone, Copy, PartialEq, Eq, Structural)]
pub struct OperationStatusData {
    pub system_status: SystemStatus,
    pub work_status: WorkStatus,
    pub operation_status: OperationStatusCode,
    /// Discharge prohibited (lifted once over/under-temperature clears).
    pub discharge_prohibited: bool,
    /// Charge prohibited.
    pub charge_prohibited: bool,
    /// Discharge prohibited (stays after over-current/under-voltage clears).
    pub discharge_prohibited_hard: bool,
}

/// Command 0x86: accumulated cycle counts.
#[derive(Debug, Clone, Copy, PartialEq, Eq, Structural)]
pub struct AccumulatedTimesData {
    /// Number of full charge cycles.
    pub charge_times: u16,
    /// Number of full discharge cycles.
    pub discharge_times: u16,
}

/// Command 0x87: accumulated energy, each in steps of 0.1 kWh.
#[derive(Debug, Clone, Copy, PartialEq, Eq, Structural)]
pub struct AccumulatedPowerData {
    /// Accumulated charging energy, in steps of 0.1 kWh.
    pub charge_energy: u32,
    /// Accumulated discharging energy, in steps of 0.1 kWh.
    pub discharge_energy: u32,
}

/// Command 0xC0: the alarm bitmask and what it means.
#[derive(Debug, Clone)]
pub struct AlarmStatus {
    /// Raw 64-bit alarm bitmask.
    pub raw_status: u64,
    /// Positions of the set bits, ascending.
    pub active_alarms: Vec<u8>,
    /// Highest severity among the set bits that name a known alarm (0 if none).
    pub max_severity: u8,
}

/// Mathematical value of an `AlarmStatus`.
pub struct AlarmStatusModel {
    pub raw_status: u64,
    pub active_alarms: Seq<u8>,
    pub max_severity: u8,
}

impl View for AlarmStatus {
    type V = AlarmStatusModel;

    open spec fn view(&self) -> AlarmStatusModel {
        AlarmStatusModel {
            raw_status: self.raw_status,
            active_alarms: self.active_alarms@,
            max_severity: self.max_severity,
        }
    }
}

/// Latest decoded value of every command, with update metadata.
#[derive(Debug, Clone)]
pub struct BmsData {
    /// Time of the last update, in milliseconds since the Unix epoch.
    pub timestamp: i64,
    /// Whether a frame has been applied or a poll attempted since the store was made.
    pub connected: bool,
    pub limits: Option<ChargeDischargeLimits>,
    pub soc_soh: Option<SocSohData>,
    pub voltage_current: Option<VoltageCurrentData>,
    pub cell_voltage: Option<CellVoltageData>,
    pub temperature: Option<TemperatureData>,
    pub operation_status: Option<OperationStatusData>,
    pub accumulated_times: Option<AccumulatedTimesData>,
    pub accumulated_power: Option<AccumulatedPowerData>,
    pub software_version: Option<String>,
    pub alarm_status: Option<AlarmStatus>,
}

/// Mathematical value of a `BmsData`.
pub struct BmsDataModel {
    pub timestamp: i64,
    pub connected: bool,
    pub limits: Option<ChargeDischargeLimits>,
    pub soc_soh: Option<SocSohData>,
    pub voltage_current: Option<VoltageCurrentData>,
    pub cell_voltage: Option<CellVoltageData>,
    pub temperature: Option<TemperatureData>,
    pub operation_status: Option<OperationStatusData>,
    pub accumulated_times: Option<AccumulatedTimesData>,
    pub accumulated_power: Option<AccumulatedPowerData>,
    pub software_version: Option<Seq<char>>,
    pub alarm_status: Option<AlarmStatusModel>,
}

impl View for BmsData {
    type V = BmsDataModel;

    open spec fn view(&self) -> BmsDataModel {
        BmsDataModel {
            timestamp: self.timestamp,
            connected: self.connected,
            limits: self.limits,
            soc_soh: self.soc_soh,
            voltage_current: self.voltage_current,
            cell_voltage: self.cell_voltage,
            temperature: self.temperature,
            operation_status: self.operation_status,
            accumulated_times: self.accumulated_times,
            accumulated_power: self.accumulated_power,
            software_version: match self.software_version {
                Some(s) => Some(s@),
                None => None,
            },
            alarm_status: match self.alarm_status {
                Some(a) => Some(a@),
                None => None,
            },
        }
    }
}

/// The state of a store that nothing has been applied to.
pub open spec fn empty_bms_model() -> BmsDataModel {
    BmsDataModel {
        timestamp: 0,
        connected: false,
        limits: None,
        soc_soh: None,
        voltage_current: None,
        cell_voltage: None,
        temperature: None,
        operation_status: None,
        accumulated_times: None,
        accumulated_power: None,
        software_version: None,
        alarm_status: None,
    }
}

impl Default for BmsData {
    fn default() -> (r: Self)
        ensures
            r@ == empty_bms_model(),
    {
        BmsData {
            timestamp: 0,
            connected: false,
            limits: None,
            soc_soh: None,
            voltage_current: None,
            cell_voltage: None,
            temperature: None,
            operation_status: None,
            accumulated_times: None,
            accumulated_power: None,
            software_version: None,
            alarm_status: None,
        }
    }
}

impl BmsData {
    /// Records a poll attempt: stamps the state with the current time and
    /// marks it connected, leaving every record as it is.
    pub fn mark_attempt(&mut self)
        ensures
            final(self)@ == (BmsDataModel {
                timestamp: final(self).timestamp,
                connected: true,
                ..old(self)@
            }),
    {
        self.timestamp = now_millis();
        self.connected = true;
    }
}

/// A CAN frame with a 29-bit extended identifier.
#[derive(Debug, Clone)]
pub struct CanFrame {
    /// 29-bit extended identifier.
    pub id: u32,
    /// Payload bytes (at most 8).
    pub data: Vec<u8>,
    /// Time the frame was made or received, in milliseconds since the Unix epoch.
    pub timestamp: i64,
}

/// Fields of a 29-bit extended CAN identifier.
#[derive(Debug, Clone, Copy, PartialEq, Eq)]
pub struct ParsedFrameId {
    /// Point-to-point flag (bit 28).
    pub ptp: bool,
    /// Command code (bits 27..20).
    pub command: u8,
    /// Destination address (bits 19..12).
    pub destination_address: u8,
    /// Source address (bits 11..4).
    pub source_address: u8,
    /// Continuation flag (bit 3).
    pub cnt: bool,
}

/// The identifier fields that `id` carries; the top three bits and bits 2..0 are ignored.
pub open spec fn decode_id(id: u32) -> ParsedFrameId {
    ParsedFrameId {
        ptp: (id >> 28u32) & 1u32 == 1u32,
        command: ((id >> 20u32) & 0xFFu32) as u8,
        destination_address: ((id >> 12u32) & 0xFFu32) as u8,
        source_address: ((id >> 4u32) & 0xFFu32) as u8,
        cnt: (id >> 3u32) & 1u32 == 1u32,
    }
}

/// 1 for a set flag, 0 for a clear one.
pub open spec fn flag_bit(b: bool) -> u32 {
    if b {
        1
    } else {
        0
    }
}

/// The identifier that carries the fields of `f`, with every unused bit zero.
pub open spec fn encode_id(f: ParsedFrameId) -> u32 {
    (flag_bit(f.ptp) << 28u32) | ((f.command as u32) << 20u32) | ((f.destination_address as u32)
        << 12u32) | ((f.source_address as u32) << 4u32) | (flag_bit(f.cnt) << 3u32)
}

proof fn lemma_unpack_packed(p: u32, a: u32, d: u32, s: u32, c: u32)
    by (bit_vector)
    requires
        p <= 1,
        c <= 1,
        a < 256,
        d < 256,
        s < 256,
    ensures
        ((p << 28u32) | (a << 20u32) | (d << 12u32) | (s << 4u32) | (c << 3u32)) >> 28u32 & 1u32
            == p,
        ((p << 28u32) | (a << 20u32) | (d << 12u32) | (s << 4u32) | (c << 3u32)) >> 20u32 & 0xFFu32
            == a,
        ((p << 28u32) | (a << 20u32) | (d << 12u32) | (s << 4u32) | (c << 3u32)) >> 12u32 & 0xFFu32
            == d,
        ((p << 28u32) | (a << 20u32) | (d << 12u32) | (s << 4u32) | (c << 3u32)) >> 4u32 & 0xFFu32
            == s,
        ((p << 28u32) | (a << 20u32) | (d << 12u32) | (s << 4u32) | (c << 3u32)) >> 3u32 & 1u32
            == c,
{
}

proof fn lemma_pack_unpacked(id: u32)
    by (bit_vector)
    ensures
        (id >> 28u32) & 1u32 <= 1,
        (id >> 3u32) & 1u32 <= 1,
        (id >> 20u32) & 0xFFu32 < 256,
        (id >> 12u32) & 0xFFu32 < 256,
        (id >> 4u32) & 0xFFu32 < 256,
        (((id >> 28u32) & 1u32) << 28u32) | (((id >> 20u32) & 0xFFu32) << 20u32) | (((id >> 12u32)
            & 0xFFu32) << 12u32) | (((id >> 4u32) & 0xFFu32) << 4u32) | (((id >> 3u32) & 1u32)
            << 3u32) == id & 0x1FFF_FFF8u32,
{
}

impl ParsedFrameId {
    /// Splits a CAN identifier into its fields.
    pub fn from_id(id: u32) -> (r: Self)
        ensures
            r == decode_id(id),
    {
        ParsedFrameId {
            ptp: (id >> 28u32) & 1u32 == 1u32,
            command: ((id >> 20u32) & 0xFFu32) as u8,
            destination_address: ((id >> 12u32) & 0xFFu32) as u8,
            source_address: ((id >> 4u32) & 0xFFu32) as u8,
            cnt: (id >> 3u32) & 1u32 == 1u32,
        }
    }

    /// Packs the fields into a CAN identifier.
    pub fn to_id(&self) -> (r: u32)
        ensures
            r == encode_id(*self),
    {
        let ptp: u32 = if self.ptp {
            1
        } else {
            0
        };
        let cnt: u32 = if self.cnt {
            1
        } else {
            0
        };
        (ptp << 28u32) | ((self.command as u32) << 20u32) | ((self.destination_address as u32)
            << 12u32) | ((self.source_address as u32) << 4u32) | (cnt << 3u32)
    }
}

/// Decoding an encoded identifier gives back every field.
pub proof fn lemma_frame_id_round_trip(f: ParsedFrameId)
    ensures
        decode_id(encode_id(f)) == f,
{
    lemma_unpack_packed(
        flag_bit(f.ptp),
        f.command as u32,
        f.destination_address as u32,
        f.source_address as u32,
        flag_bit(f.cnt),
    );
}

/// Encoding a decoded identifier keeps bits 28..3 and clears the others.
pub proof fn lemma_frame_id_reencode(id: u32)
    ensures
        encode_id(decode_id(id)) == id & 0x1FFF_FFF8u32,
{
    lemma_pack_unpacked(id);
    let f = decode_id(id);
    assert(flag_bit(f.ptp) == (id >> 28u32) & 1u32);
    assert(flag_bit(f.cnt) == (id >> 3u32) & 1u32);
}

} // verus!
