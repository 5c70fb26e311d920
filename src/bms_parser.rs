//! Payload decoders, the alarm interpretation, query frames, and the step
//! that folds a received frame into the device state.

use vstd::prelude::*;

use crate::bms_types::{
    alarm_at, alarm_severity, command_code, command_of_code, decode_id, encode_id,
    get_alarm_severity, operation_status_of, system_status_of, work_status_of,
    AccumulatedPowerData, AccumulatedTimesData, AlarmBit, AlarmStatus, AlarmStatusModel, BmsCommand,
    BmsData, BmsDataModel, CanFrame, CellVoltageData, ChargeDischargeLimits, OperationStatusCode,
    OperationStatusData, ParsedFrameId, SocSohData, SystemStatus, TemperatureData,
    VoltageCurrentData, WorkStatus,
};
use crate::clock::now_millis;

verus! {

// ---------------------------------------------------------------------------
// Little-endian integers
/// The unsigned 16-bit little-endian value at `at`.
pub open spec fn le_u16(s: Seq<u8>, at: int) -> int {
    s[at] + 256 * s[at + 1]
}

/// The signed (two's complement) 16-bit little-endian value at `at`.
pub open spec fn le_i16(s: Seq<u8>, at: int) -> int {
    let u = le_u16(s, at);
    if u < 32768 {
        u
    } else {
        u - 65536
    }
}

/// The unsigned 32-bit little-endian value at `at`.
pub open spec fn le_u32(s: Seq<u8>, at: int) -> int {
    le_u16(s, at) + 65536 * le_u16(s, at + 2)
}

/// The unsigned 64-bit little-endian value at `at`.
pub open spec fn le_u64(s: Seq<u8>, at: int) -> int {
    le_u32(s, at) + 0x1_0000_0000 * le_u32(s, at + 4)
}

fn read_u16_le(data: &[u8], at: usize) -> (r: u16)
    requires
        at + 2 <= data@.len(),
        at <= 16,
    ensures
        r == le_u16(data@, at as int),
{
    data[at] as u16 + (data[at + 1] as u16) * 256
}

fn read_i16_le(data: &[u8], at: usize) -> (r: i16)
    requires
        at + 2 <= data@.len(),
        at <= 16,
    ensures
        r == le_i16(data@, at as int),
{
    let u = read_u16_le(data, at);
    if u < 32768 {
        u as i16
    } else {
        ((u - 32768) as i16) - 32767 - 1
    }
}

fn read_u32_le(data: &[u8], at: usize) -> (r: u32)
    requires
        at + 4 <= data@.len(),
        at <= 12,
    ensures
        r == le_u32(data@, at as int),
{
    read_u16_le(data, at) as u32 + (read_u16_le(data, at + 2) as u32) * 65536
}

fn read_u64_le(data: &[u8], at: usize) -> (r: u64)
    requires
        at + 8 <= data@.len(),
        at <= 8,
    ensures
        r == le_u64(data@, at as int),
{
    read_u32_le(data, at) as u64 + (read_u32_le(data, at + 4) as u64) * 0x1_0000_0000
}

// ---------------------------------------------------------------------------
// Payload decoders
/// The limits that an 8-byte 0x80 payload carries.
pub open spec fn limits_of(d: Seq<u8>) -> ChargeDischargeLimits {
    ChargeDischargeLimits {
        charge_voltage_limit: le_u16(d, 0) as u16,
        charge_current_limit: le_u16(d, 2) as u16,
        discharge_voltage_limit: le_u16(d, 4) as u16,
        discharge_current_limit: le_u16(d, 6) as u16,
    }
}

/// Decodes command 0x80; `None` when the payload is shorter than 8 bytes.
pub fn parse_charge_discharge_limits(data: &[u8]) -> (r: Option<ChargeDischargeLimits>)
    ensures
        r == (if data@.len() >= 8 {
            Some(limits_of(data@))
        } else {
            None
        }),
{
    if data.len() < 8 {
        return None;
    }
    Some(
        ChargeDischargeLimits {
            charge_voltage_limit: read_u16_le(data, 0),
            charge_current_limit: read_u16_le(data, 2),
            discharge_voltage_limit: read_u16_le(data, 4),
            discharge_current_limit: read_u16_le(data, 6),
        },
    )
}

/// The SOC/SOH record that a 0x81 payload of at least 6 bytes carries.
pub open spec fn soc_soh_of(d: Seq<u8>) -> SocSohData {
    SocSohData {
        soc: le_u16(d, 0) as u16,
        soh: le_u16(d, 2) as u16,
        backup_time_minutes: le_u16(d, 4) as u16,
    }
}

/// Decodes command 0x81; `None` when the payload is shorter than 6 bytes.
pub fn parse_soc_soh(data: &[u8]) -> (r: Option<SocSohData>)
    ensures
        r == (if data@.len() >= 6 {
            Some(soc_soh_of(data@))
        } else {
            None
        }),
{
    if data.len() < 6 {
        return None;
    }
    Some(
        SocSohData {
            soc: read_u16_le(data, 0),
            soh: read_u16_le(data, 2),
            backup_time_minutes: read_u16_le(data, 4),
        },
    )
}

/// |x|.
pub open spec fn abs(x: int) -> int {
    if x < 0 {
        -x
    } else {
        x
    }
}

/// The voltage/current record that a 0x82 payload of at least 4 bytes carries.
pub open spec fn voltage_current_of(d: Seq<u8>) -> VoltageCurrentData {
    VoltageCurrentData {
        voltage: le_u16(d, 0) as u16,
        current: le_i16(d, 2) as i16,
        power: (le_u16(d, 0) * abs(le_i16(d, 2))) as u32,
    }
}

/// Decodes command 0x82; `None` when the payload is shorter than 4 bytes.
pub fn parse_voltage_current(data: &[u8]) -> (r: Option<VoltageCurrentData>)
    ensures
        r == (if data@.len() >= 4 {
            Some(voltage_current_of(data@))
        } else {
            None
        }),
        r matches Some(v) ==> v.power == v.voltage * abs(v.current as int),
{
    if data.len() < 4 {
        return None;
    }
    let voltage = read_u16_le(data, 0);
    let current = read_i16_le(data, 2);
    let magnitude: u32 = if current < 0 {
        (0i32 - current as i32) as u32
    } else {
        current as u32
    };
    let v32 = voltage as u32;
    assert(v32 * magnitude <= 65535 * 32768) by (nonlinear_arith)
        requires
            v32 <= 65535,
            magnitude <= 32768,
    ;
    Some(VoltageCurrentData { voltage, current, power: v32 * magnitude })
}

/// The cell voltage record that an 8-byte 0x83 payload carries.
pub open spec fn cell_voltage_of(d: Seq<u8>) -> CellVoltageData {
    CellVoltageData {
        max_voltage: le_u16(d, 0) as u16,
        max_voltage_pack_no: d[2],
        max_voltage_cell_no: d[3],
        min_voltage: le_u16(d, 4) as u16,
        min_voltage_pack_no: d[6],
        min_voltage_cell_no: d[7],
        voltage_delta: (le_u16(d, 0) - le_u16(d, 4)) as i32,
    }
}

/// Decodes command 0x83; `None` when the payload is shorter than 8 bytes.
pub fn parse_cell_voltage(data: &[u8]) -> (r: Option<CellVoltageData>)
    ensures
        r == (if data@.len() >= 8 {
            Some(cell_voltage_of(data@))
        } else {
            None
        }),
{
    if data.len() < 8 {
        return None;
    }
    let max_voltage = read_u16_le(data, 0);
    let min_voltage = read_u16_le(data, 4);
    Some(
        CellVoltageData {
            max_voltage,
            max_voltage_pack_no: data[2],
            max_voltage_cell_no: data[3],
            min_voltage,
            min_voltage_pack_no: data[6],
            min_voltage_cell_no: data[7],
            voltage_delta: max_voltage as i32 - min_voltage as i32,
        },
    )
}

/// The temperature record that an 8-byte 0x84 payload carries.
pub open spec fn temperature_of(d: Seq<u8>) -> TemperatureData {
    TemperatureData {
        max_temperature: le_i16(d, 0) as i16,
        max_temp_pack_no: d[2],
        max_temp_sensor_no: d[3],
        min_temperature: le_i16(d, 4) as i16,
        min_temp_pack_no: d[6],
        min_temp_sensor_no: d[7],
        temp_delta: (le_i16(d, 0) - le_i16(d, 4)) as i32,
    }
}

/// Decodes command 0x84; `None` when the payload is shorter than 8 bytes.
pub fn parse_temperature(data: &[u8]) -> (r: Option<TemperatureData>)
    ensures
        r == (if data@.len() >= 8 {
            Some(temperature_of(data@))
        } else {
            None
        }),
{
    if data.len() < 8 {
        return None;
    }
    let max_temperature = read_i16_le(data, 0);
    let min_temperature = read_i16_le(data, 4);
    Some(
        TemperatureData {
            max_temperature,
            max_temp_pack_no: data[2],
            max_temp_sensor_no: data[3],
            min_temperature,
            min_temp_pack_no: data[6],
            min_temp_sensor_no: data[7],
            temp_delta: max_temperature as i32 - min_temperature as i32,
        },
    )
}

/// The status record that a 0x85 payload of at least 4 bytes carries.
pub open spec fn operation_status_data_of(d: Seq<u8>) -> OperationStatusData {
    OperationStatusData {
        system_status: system_status_of(d[0]),
        work_status: work_status_of(d[1]),
        operation_status: operation_status_of(d[2]),
        discharge_prohibited: d[3] & 0x01u8 != 0,
        charge_prohibited: d[3] & 0x02u8 != 0,
        discharge_prohibited_hard: d[3] & 0x04u8 != 0,
    }
}

/// Decodes command 0x85; `None` when the payload is shorter than 4 bytes.
pub fn parse_operation_status(data: &[u8]) -> (r: Option<OperationStatusData>)
    ensures
        r == (if data@.len() >= 4 {
            Some(operation_status_data_of(data@))
        } else {
            None
        }),
{
    if data.len() < 4 {
        return None;
    }
    let prohibition_flags = data[3];
    Some(
        OperationStatusData {
            system_status: SystemStatus::from(data[0]),
            work_status: WorkStatus::from(data[1]),
            operation_status: OperationStatusCode::from(data[2]),
            discharge_prohibited: (prohibition_flags & 0x01u8) != 0,
            charge_prohibited: (prohibition_flags & 0x02u8) != 0,
            discharge_prohibited_hard: (prohibition_flags & 0x04u8) != 0,
        },
    )
}

/// The cycle counts that a 0x86 payload of at least 4 bytes carries.
pub open spec fn accumulated_times_of(d: Seq<u8>) -> AccumulatedTimesData {
    AccumulatedTimesData { charge_times: le_u16(d, 0) as u16, discharge_times: le_u16(d, 2) as u16 }
}

/// Decodes command 0x86; `None` when the payload is shorter than 4 bytes.
pub fn parse_accumulated_times(data: &[u8]) -> (r: Option<AccumulatedTimesData>)
    ensures
        r == (if data@.len() >= 4 {
            Some(accumulated_times_of(data@))
        } else {
            None
        }),
{
    if data.len() < 4 {
        return None;
    }
    Some(
        AccumulatedTimesData {
            charge_times: read_u16_le(data, 0),
            discharge_times: read_u16_le(data, 2),
        },
    )
}

/// The energy totals that an 8-byte 0x87 payload carries.
pub open spec fn accumulated_power_of(d: Seq<u8>) -> AccumulatedPowerData {
    AccumulatedPowerData {
        charge_energy: le_u32(d, 0) as u32,
        discharge_energy: le_u32(d, 4) as u32,
    }
}

/// Decodes command 0x87; `None` when the payload is shorter than 8 bytes.
pub fn parse_accumulated_power(data: &[u8]) -> (r: Option<AccumulatedPowerData>)
    ensures
        r == (if data@.len() >= 8 {
            Some(accumulated_power_of(data@))
        } else {
            None
        }),
{
    if data.len() < 8 {
        return None;
    }
    Some(
        AccumulatedPowerData {
            charge_energy: read_u32_le(data, 0),
            discharge_energy: read_u32_le(data, 4),
        },
    )
}

/// Characters of the non-zero bytes of `s`, in order, each byte read as one character.
pub open spec fn nonzero_chars(s: Seq<u8>) -> Seq<char>
    decreases s.len(),
{
    if s.len() == 0 {
        Seq::empty()
    } else if s.last() != 0 {
        nonzero_chars(s.drop_last()).push(s.last() as char)
    } else {
        nonzero_chars(s.drop_last())
    }
}

/// The version text of a 0x8F payload: the non-zero bytes among its first eight.
pub open spec fn version_chars(d: Seq<u8>) -> Seq<char> {
    nonzero_chars(d.subrange(0, if d.len() < 8 { d.len() as int } else { 8 }))
}

/// Relies on `String::push`: appends one character to the string.
#[verifier::external_body]
fn push_char(s: &mut String, c: char)
    ensures
        final(s)@ == old(s)@.push(c),
{
    s.push(c)
}

/// Decodes command 0x8F: the non-zero bytes among the first eight, as text;
/// `None` when there are none.
pub fn parse_software_version(data: &[u8]) -> (r: Option<String>)
    ensures
        match r {
            Some(v) => v@ == version_chars(data@) && v@.len() > 0,
            None => version_chars(data@).len() == 0,
        },
{
    let n: usize = if data.len() < 8 {
        data.len()
    } else {
        8
    };
    let mut version = String::new();
    let mut count: usize = 0;
    let mut i: usize = 0;
    while i < n
        invariant
            n <= data@.len(),
            n == (if data@.len() < 8 { data@.len() as int } else { 8 }),
            i <= n,
            version@ == nonzero_chars(data@.subrange(0, i as int)),
            count == version@.len(),
            count <= i,
        decreases n - i,
    {
        assert(data@.subrange(0, i + 1).drop_last() == data@.subrange(0, i as int));
        if data[i] != 0 {
            push_char(&mut version, data[i] as char);
            count = count + 1;
        }
        i = i + 1;
    }
    if count == 0 {
        None
    } else {
        Some(version)
    }
}

// ---------------------------------------------------------------------------
// Alarm interpretation
/// Whether bit `i` of `raw` is set.
pub open spec fn bit_set(raw: u64, i: u64) -> bool {
    (raw >> i) & 1u64 == 1u64
}

/// Positions below `n` of the set bits of `raw`, ascending.
pub open spec fn active_below(raw: u64, n: nat) -> Seq<u8>
    decreases n,
{
    if n == 0 {
        Seq::empty()
    } else if bit_set(raw, (n - 1) as u64) {
        active_below(raw, (n - 1) as nat).push((n - 1) as u8)
    } else {
        active_below(raw, (n - 1) as nat)
    }
}

/// Severity that a set bit at `index` contributes: the table's severity for a
/// known alarm at positions 0..=32, and 0 for any other position.
pub open spec fn severity_at(index: u8) -> u8 {
    if index <= 32 {
        match alarm_at(index) {
            Some(a) => alarm_severity(a),
            None => 0,
        }
    } else {
        0
    }
}

/// Highest `severity_at` among the set bits of `raw` below `n` (0 if none).
pub open spec fn max_severity_below(raw: u64, n: nat) -> u8
    decreases n,
{
    if n == 0 {
        0
    } else {
        let prev = max_severity_below(raw, (n - 1) as nat);
        let here = if bit_set(raw, (n - 1) as u64) {
            severity_at((n - 1) as u8)
        } else {
            0
        };
        if here > prev {
            here
        } else {
            prev
        }
    }
}

/// What an alarm bitmask means: every set position, and the worst severity.
pub open spec fn alarm_model(raw: u64) -> AlarmStatusModel {
    AlarmStatusModel {
        raw_status: raw,
        active_alarms: active_below(raw, 64),
        max_severity: max_severity_below(raw, 64),
    }
}

/// Interprets a 64-bit alarm bitmask.
pub fn interpret_alarms(raw: u64) -> (r: AlarmStatus)
    ensures
        r@ == alarm_model(raw),
{
    let mut active_alarms: Vec<u8> = Vec::new();
    let mut max_severity: u8 = 0;
    let mut bit: u64 = 0;
    while bit < 64
        invariant
            bit <= 64,
            active_alarms@ == active_below(raw, bit as nat),
            max_severity == max_severity_below(raw, bit as nat),
        decreases 64 - bit,
    {
        if (raw >> bit) & 1u64 == 1u64 {
            active_alarms.push(bit as u8);
            if bit <= 32 {
                if let Some(alarm) = AlarmBit::from_index(bit as u8) {
                    let severity = get_alarm_severity(alarm);
                    if severity > max_severity {
                        max_severity = severity;
                    }
                }
            }
        }
        bit = bit + 1;
    }
    AlarmStatus { raw_status: raw, active_alarms, max_severity }
}

/// Decodes command 0xC0: the little-endian 64-bit bitmask of the first eight
/// bytes, interpreted; `None` when the payload is shorter than 8 bytes.
pub fn parse_alarm_status(data: &[u8]) -> (r: Option<AlarmStatus>)
    ensures
        match r {
            Some(a) => data@.len() >= 8 && a@ == alarm_model(le_u64(data@, 0) as u64),
            None => data@.len() < 8,
        },
{
    if data.len() < 8 {
        return None;
    }
    Some(interpret_alarms(read_u64_le(data, 0)))
}

proof fn lemma_active_below(raw: u64, n: nat)
    requires
        n <= 64,
    ensures
        forall|j: int| 0 <= j < active_below(raw, n).len() ==> #[trigger] active_below(raw, n)[j] < n,
        forall|j: int, k: int|
            0 <= j < k < active_below(raw, n).len() ==> #[trigger] active_below(raw, n)[j]
                < #[trigger] active_below(raw, n)[k],
        forall|i: int|
            0 <= i < n ==> (active_below(raw, n).contains(i as u8) <==> #[trigger] bit_set(
                raw,
                i as u64,
            )),
    decreases n,
{
    if n > 0 {
        let m = (n - 1) as nat;
        lemma_active_below(raw, m);
        let prev = active_below(raw, m);
        let cur = active_below(raw, n);
        assert forall|i: int| 0 <= i < n implies (cur.contains(i as u8) <==> #[trigger] bit_set(
            raw,
            i as u64,
        )) by {
            if bit_set(raw, m as u64) {
                assert(cur == prev.push(m as u8));
                if i < m {
                    if cur.contains(i as u8) {
                        let j = choose|j: int| 0 <= j < cur.len() && cur[j] == i as u8;
                        if j < prev.len() {
                            assert(prev.contains(i as u8));
                        }
                    }
                    if prev.contains(i as u8) {
                        let j = choose|j: int| 0 <= j < prev.len() && prev[j] == i as u8;
                        assert(cur[j] == i as u8);
                    }
                } else {
                    assert(cur[cur.len() - 1] == m as u8);
                }
            } else {
                assert(cur == prev);
                if i == m {
                    if cur.contains(i as u8) {
                        let j = choose|j: int| 0 <= j < cur.len() && cur[j] == i as u8;
                        assert(prev[j] < m);
                    }
                }
            }
        }
    }
}

/// The active alarm list holds every set bit of the bitmask, and nothing
/// else, in strictly ascending order.
pub proof fn lemma_active_alarms_are_set_bits(raw: u64)
    ensures
        forall|i: int|
            0 <= i < 64 ==> (alarm_model(raw).active_alarms.contains(i as u8) <==> #[trigger] bit_set(
                raw,
                i as u64,
            )),
        forall|j: int, k: int|
            0 <= j < k < alarm_model(raw).active_alarms.len() ==> #[trigger] alarm_model(
                raw,
            ).active_alarms[j] < #[trigger] alarm_model(raw).active_alarms[k],
        forall|j: int|
            0 <= j < alarm_model(raw).active_alarms.len() ==> #[trigger] alarm_model(
                raw,
            ).active_alarms[j] < 64,
{
    lemma_active_below(raw, 64);
}


proof fn lemma_max_severity_below(raw: u64, n: nat)
    requires
        n <= 64,
    ensures
        forall|i: int|
            0 <= i < n && #[trigger] bit_set(raw, i as u64) ==> severity_at(i as u8)
                <= max_severity_below(raw, n),
        max_severity_below(raw, n) == 0 || exists|i: int|
            0 <= i < n && #[trigger] bit_set(raw, i as u64) && severity_at(i as u8)
                == max_severity_below(raw, n),
    decreases n,
{
    if n > 0 {
        lemma_max_severity_below(raw, (n - 1) as nat);
    }
}

/// The worst severity is the largest severity that a set bit contributes, or
/// 0 when no set bit names a graded alarm.
pub proof fn lemma_max_severity_is_worst(raw: u64)
    ensures
        forall|i: int|
            0 <= i < 64 && #[trigger] bit_set(raw, i as u64) ==> severity_at(i as u8)
                <= alarm_model(raw).max_severity,
        alarm_model(raw).max_severity == 0 || exists|i: int|
            0 <= i < 64 && #[trigger] bit_set(raw, i as u64) && severity_at(i as u8)
                == alarm_model(raw).max_severity,
{
    lemma_max_severity_below(raw, 64);
}

// ---------------------------------------------------------------------------
// Query frames
/// The identifier of a query for `command` from `source` to `destination`:
/// point-to-point, no continuation.
pub open spec fn query_id(command: BmsCommand, source: u8, destination: u8) -> u32 {
    encode_id(
        ParsedFrameId {
            ptp: true,
            command: command_code(command),
            destination_address: destination,
            source_address: source,
            cnt: false,
        },
    )
}

/// Builds the frame that asks the device for `command`; a query carries eight zero bytes.
pub fn build_query_frame(command: BmsCommand, source_address: u8, destination_address: u8) -> (r:
    CanFrame)
    ensures
        r.id == query_id(command, source_address, destination_address),
        r.data@ == Seq::new(8, |i: int| 0u8),
{
    let frame_id = ParsedFrameId {
        ptp: true,
        command: command.code(),
        destination_address,
        source_address,
        cnt: false,
    };
    let mut data: Vec<u8> = Vec::new();
    let mut i: usize = 0;
    while i < 8
        invariant
            i <= 8,
            data@ == Seq::new(i as nat, |j: int| 0u8),
        decreases 8 - i,
    {
        data.push(0);
        i = i + 1;
    }
    CanFrame { id: frame_id.to_id(), data, timestamp: now_millis() }
}

// ---------------------------------------------------------------------------
// Applying frames to the device state
/// The state after the decoder of command `code` has read `data`, or `None`
/// when `code` has no decoder or the payload is too short for it.
pub open spec fn decoded_update(m: BmsDataModel, code: u8, data: Seq<u8>) -> Option<BmsDataModel> {
    if code == 0x80 && data.len() >= 8 {
        Some(BmsDataModel { limits: Some(limits_of(data)), ..m })
    } else if code == 0x81 && data.len() >= 6 {
        Some(BmsDataModel { soc_soh: Some(soc_soh_of(data)), ..m })
    } else if code == 0x82 && data.len() >= 4 {
        Some(BmsDataModel { voltage_current: Some(voltage_current_of(data)), ..m })
    } else if code == 0x83 && data.len() >= 8 {
        Some(BmsDataModel { cell_voltage: Some(cell_voltage_of(data)), ..m })
    } else if code == 0x84 && data.len() >= 8 {
        Some(BmsDataModel { temperature: Some(temperature_of(data)), ..m })
    } else if code == 0x85 && data.len() >= 4 {
        Some(BmsDataModel { operation_status: Some(operation_status_data_of(data)), ..m })
    } else if code == 0x86 && data.len() >= 4 {
        Some(BmsDataModel { accumulated_times: Some(accumulated_times_of(data)), ..m })
    } else if code == 0x87 && data.len() >= 8 {
        Some(BmsDataModel { accumulated_power: Some(accumulated_power_of(data)), ..m })
    } else if code == 0x8F && version_chars(data).len() > 0 {
        Some(BmsDataModel { software_version: Some(version_chars(data)), ..m })
    } else if code == 0xC0 && data.len() >= 8 {
        Some(BmsDataModel { alarm_status: Some(alarm_model(le_u64(data, 0) as u64)), ..m })
    } else {
        None
    }
}

/// The state after a frame with identifier `id` and payload `data` arrives
/// at time `now`: the decoded record replaces its field, and the timestamp and
/// connected flag are refreshed; a frame that does not decode changes nothing.
pub open spec fn apply_frame_model(m: BmsDataModel, id: u32, data: Seq<u8>, now: i64) -> BmsDataModel {
    match decoded_update(m, decode_id(id).command, data) {
        Some(u) => BmsDataModel { timestamp: now, connected: true, ..u },
        None => m,
    }
}

/// Folds `frame` into the device state, stamping an update with `now`.
pub fn apply_frame(frame: &CanFrame, bms_data: &mut BmsData, now: i64)
    ensures
        final(bms_data)@ == apply_frame_model(old(bms_data)@, frame.id, frame.data@, now),
{
    let parsed_id = ParsedFrameId::from_id(frame.id);
    let data = frame.data.as_slice();
    let command = match BmsCommand::try_from(parsed_id.command) {
        Ok(c) => c,
        Err(_) => {
            return ;
        },
    };
    let updated = match command {
        BmsCommand::ChargeDischargeLimits => match parse_charge_discharge_limits(data) {
            Some(limits) => {
                bms_data.limits = Some(limits);
                true
            },
            None => false,
        },
        BmsCommand::SocSoh => match parse_soc_soh(data) {
            Some(soc_soh) => {
                bms_data.soc_soh = Some(soc_soh);
                true
            },
            None => false,
        },
        BmsCommand::VoltageCurrent => match parse_voltage_current(data) {
            Some(vc) => {
                bms_data.voltage_current = Some(vc);
                true
            },
            None => false,
        },
        BmsCommand::CellVoltage => match parse_cell_voltage(data) {
            Some(cv) => {
                bms_data.cell_voltage = Some(cv);
                true
            },
            None => false,
        },
        BmsCommand::Temperature => match parse_temperature(data) {
            Some(temp) => {
                bms_data.temperature = Some(temp);
                true
            },
            None => false,
        },
        BmsCommand::OperationStatus => match parse_operation_status(data) {
            Some(status) => {
                bms_data.operation_status = Some(status);
                true
            },
            None => false,
        },
        BmsCommand::AccumulatedTimes => match parse_accumulated_times(data) {
            Some(times) => {
                bms_data.accumulated_times = Some(times);
                true
            },
            None => false,
        },
        BmsCommand::AccumulatedPower => match parse_accumulated_power(data) {
            Some(power) => {
                bms_data.accumulated_power = Some(power);
                true
            },
            None => false,
        },
        BmsCommand::SoftwareVersion => match parse_software_version(data) {
            Some(version) => {
                bms_data.software_version = Some(version);
                true
            },
            None => false,
        },
        BmsCommand::AlarmStatus => match parse_alarm_status(data) {
            Some(alarm) => {
                bms_data.alarm_status = Some(alarm);
                true
            },
            None => false,
        },
        _ => false,
    };
    if updated {
        bms_data.timestamp = now;
        bms_data.connected = true;
    }
}

/// Folds `frame` into the device state, stamping an update with the current time.
pub fn parse_can_frame(frame: &CanFrame, bms_data: &mut BmsData)
    ensures
        final(bms_data)@ == apply_frame_model(
            old(bms_data)@,
            frame.id,
            frame.data@,
            final(bms_data).timestamp,
        ),
{
    let now = now_millis();
    apply_frame(frame, bms_data, now);
}

/// Applying the same frame twice leaves the state that applying it once, at
/// the later time, leaves: each record is overwritten with the same value.
pub proof fn lemma_apply_frame_idempotent(
    m: BmsDataModel,
    id: u32,
    data: Seq<u8>,
    first: i64,
    second: i64,
)
    ensures
        apply_frame_model(apply_frame_model(m, id, data, first), id, data, second)
            == apply_frame_model(m, id, data, second),
{
}

/// A frame whose command code the protocol does not define leaves the state
/// unchanged, timestamp and connected flag included.
pub proof fn lemma_unknown_command_ignored(m: BmsDataModel, id: u32, data: Seq<u8>, now: i64)
    requires
        command_of_code(decode_id(id).command) is None,
    ensures
        apply_frame_model(m, id, data, now) == m,
{
}

} // verus!
