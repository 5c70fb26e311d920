//! Transport side: the adapter configuration and errors, the checksummed
//! serial framing of the USB/Bluetooth adapters, the simulated adapter, and
//! the plan that a poll follows.

use vstd::arithmetic::div_mod::{lemma_add_mod_noop, lemma_mod_equivalence, lemma_small_mod};
use vstd::prelude::*;

use crate::bms_parser::{build_query_frame, le_u32};
use crate::bms_types::{encode_id, BmsCommand, CanFrame, ParsedFrameId};
use crate::clock::now_millis;
use crate::itekon_handler::VciError;

verus! {

// ---------------------------------------------------------------------------
// Serial framing: AA 01 <id: 4 bytes LE> <len> <payload: len bytes> <checksum>
/// Header byte of a serial frame.
pub const IPLUS_HEADER: u8 = 0xAA;

/// Type byte of a serial frame carrying an extended-identifier CAN frame.
pub const IPLUS_EXTENDED: u8 = 0x01;

/// Sum of the bytes of `s`.
pub open spec fn byte_sum(s: Seq<u8>) -> nat
    decreases s.len(),
{
    if s.len() == 0 {
        0
    } else {
        (byte_sum(s.drop_last()) + s.last()) as nat
    }
}

/// The 8-bit wrapping sum of the bytes of `s`.
pub open spec fn checksum_of(s: Seq<u8>) -> u8 {
    (byte_sum(s) % 256) as u8
}

/// The four little-endian bytes of `x`.
pub open spec fn le32_bytes(x: u32) -> Seq<u8> {
    seq![
        (x & 0xFFu32) as u8,
        ((x >> 8u32) & 0xFFu32) as u8,
        ((x >> 16u32) & 0xFFu32) as u8,
        ((x >> 24u32) & 0xFFu32) as u8,
    ]
}

/// A serial frame for identifier `id` and payload `data`, without its checksum.
pub open spec fn iplus_body(id: u32, data: Seq<u8>) -> Seq<u8> {
    seq![IPLUS_HEADER, IPLUS_EXTENDED] + le32_bytes(id) + seq![data.len() as u8] + data
}

/// The complete serial frame for identifier `id` and payload `data`.
pub open spec fn iplus_bytes(id: u32, data: Seq<u8>) -> Seq<u8> {
    iplus_body(id, data).push(checksum_of(iplus_body(id, data)))
}

/// Whether `buf` starts with a well-formed serial frame: at least 8 bytes, the
/// header and type bytes, room for the declared payload and checksum, and a
/// checksum byte equal to the wrapping sum of every byte before it.
pub open spec fn iplus_accepts(buf: Seq<u8>) -> bool {
    &&& buf.len() >= 8
    &&& buf[0] == IPLUS_HEADER
    &&& buf[1] == IPLUS_EXTENDED
    &&& buf.len() >= 8 + buf[6]
    &&& checksum_of(buf.subrange(0, 7 + buf[6])) == buf[7 + buf[6]]
}

/// Identifier carried by an accepted serial frame.
pub open spec fn iplus_id(buf: Seq<u8>) -> u32 {
    le_u32(buf, 2) as u32
}

/// Payload carried by an accepted serial frame.
pub open spec fn iplus_payload(buf: Seq<u8>) -> Seq<u8> {
    buf.subrange(7, 7 + buf[6])
}

proof fn lemma_checksum_step(s: Seq<u8>, i: int, acc: u8)
    requires
        0 <= i < s.len(),
        acc == byte_sum(s.subrange(0, i)) % 256,
    ensures
        (acc + s[i]) % 256 == byte_sum(s.subrange(0, i + 1)) % 256,
{
    assert(s.subrange(0, i + 1).drop_last() == s.subrange(0, i));
    lemma_add_mod_noop(byte_sum(s.subrange(0, i)) as int, s[i] as int, 256);
    lemma_small_mod(s[i] as nat, 256);
    lemma_small_mod(acc as nat, 256);
}

/// The wrapping sum of the first `n` bytes of `buf`.
fn checksum_prefix(buf: &[u8], n: usize) -> (r: u8)
    requires
        n <= buf@.len(),
    ensures
        r == checksum_of(buf@.subrange(0, n as int)),
{
    let mut checksum: u8 = 0;
    let mut i: usize = 0;
    while i < n
        invariant
            n <= buf@.len(),
            i <= n,
            checksum == byte_sum(buf@.subrange(0, i as int)) % 256,
        decreases n - i,
    {
        proof {
            lemma_checksum_step(buf@, i as int, checksum);
        }
        checksum = checksum.wrapping_add(buf[i]);
        i = i + 1;
    }
    checksum
}

proof fn lemma_le32_bytes(x: u32)
    ensures
        le32_bytes(x).len() == 4,
        le_u32(le32_bytes(x), 0) == x,
{
    let b0 = x & 0xFFu32;
    let b1 = (x >> 8u32) & 0xFFu32;
    let b2 = (x >> 16u32) & 0xFFu32;
    let b3 = (x >> 24u32) & 0xFFu32;
    assert(b0 < 256 && b1 < 256 && b2 < 256 && b3 < 256) by (bit_vector)
        requires
            b0 == x & 0xFFu32,
            b1 == (x >> 8u32) & 0xFFu32,
            b2 == (x >> 16u32) & 0xFFu32,
            b3 == (x >> 24u32) & 0xFFu32,
    ;
    assert(x == b0 + 256 * b1 + 65536 * b2 + 16777216 * b3) by (bit_vector)
        requires
            b0 == x & 0xFFu32,
            b1 == (x >> 8u32) & 0xFFu32,
            b2 == (x >> 16u32) & 0xFFu32,
            b3 == (x >> 24u32) & 0xFFu32,
    ;
}

/// Wraps a CAN frame for the serial adapter:
/// `AA 01 <id: 4 bytes LE> <len> <payload> <checksum>`.
pub fn build_iplus_frame(frame: &CanFrame) -> (r: Vec<u8>)
    requires
        frame.data@.len() <= 8,
    ensures
        r@ == iplus_bytes(frame.id, frame.data@),
{
    let id = frame.id;
    let mut buffer: Vec<u8> = Vec::new();
    buffer.push(IPLUS_HEADER);
    buffer.push(IPLUS_EXTENDED);
    buffer.push((id & 0xFFu32) as u8);
    buffer.push(((id >> 8u32) & 0xFFu32) as u8);
    buffer.push(((id >> 16u32) & 0xFFu32) as u8);
    buffer.push(((id >> 24u32) & 0xFFu32) as u8);
    buffer.push(frame.data.len() as u8);
    let mut i: usize = 0;
    while i < frame.data.len()
        invariant
            frame.data@.len() <= 8,
            i <= frame.data@.len(),
            buffer@ == seq![IPLUS_HEADER, IPLUS_EXTENDED] + le32_bytes(id) + seq![
                frame.data@.len() as u8,
            ] + frame.data@.subrange(0, i as int),
        decreases frame.data@.len() - i,
    {
        buffer.push(frame.data[i]);
        i = i + 1;
    }
    assert(frame.data@.subrange(0, frame.data@.len() as int) == frame.data@);
    let n = buffer.len();
    let checksum = checksum_prefix(buffer.as_slice(), n);
    assert(buffer@.subrange(0, n as int) == buffer@);
    buffer.push(checksum);
    buffer
}

/// Reads a serial frame from the start of `buffer`; `None` when it is not
/// well formed (see `iplus_accepts`). Bytes after the frame are ignored.
pub fn parse_iplus_frame(buffer: &[u8]) -> (r: Option<CanFrame>)
    ensures
        match r {
            Some(f) => iplus_accepts(buffer@) && f.id == iplus_id(buffer@) && f.data@
                == iplus_payload(buffer@),
            None => !iplus_accepts(buffer@),
        },
{
    if buffer.len() < 8 {
        return None;
    }
    if buffer[0] != IPLUS_HEADER {
        return None;
    }
    if buffer[1] != IPLUS_EXTENDED {
        return None;
    }
    let len = buffer[6] as usize;
    if buffer.len() < 7 + len + 1 {
        return None;
    }
    let id = buffer[2] as u32 + (buffer[3] as u32) * 256 + (buffer[4] as u32) * 65536 + (
    buffer[5] as u32) * 16777216;
    let checksum = checksum_prefix(buffer, 7 + len);
    if checksum != buffer[7 + len] {
        return None;
    }
    let mut data: Vec<u8> = Vec::new();
    let end = 7 + len;
    let mut i: usize = 7;
    while i < end
        invariant
            end <= buffer@.len(),
            7 <= i <= end,
            data@ == buffer@.subrange(7, i as int),
        decreases end - i,
    {
        data.push(buffer[i]);
        i = i + 1;
    }
    Some(CanFrame { id, data, timestamp: now_millis() })
}

/// A serial frame built for any identifier and any payload of at most eight
/// bytes is accepted, and reads back as that identifier and payload.
pub proof fn lemma_iplus_round_trip(id: u32, data: Seq<u8>)
    requires
        data.len() <= 8,
    ensures
        iplus_accepts(iplus_bytes(id, data)),
        iplus_id(iplus_bytes(id, data)) == id,
        iplus_payload(iplus_bytes(id, data)) == data,
{
    lemma_le32_bytes(id);
    let body = iplus_body(id, data);
    let buf = iplus_bytes(id, data);
    assert(body.len() == 7 + data.len());
    assert(buf[6] == data.len());
    assert(buf.subrange(0, 7 + buf[6]) == body);
    assert(buf.subrange(7, 7 + buf[6]) == data);
    assert(buf.subrange(2, 6) == le32_bytes(id));
}

proof fn lemma_byte_sum_update(s: Seq<u8>, i: int, v: u8)
    requires
        0 <= i < s.len(),
    ensures
        byte_sum(s.update(i, v)) + s[i] == byte_sum(s) + v,
    decreases s.len(),
{
    let t = s.update(i, v);
    if i == s.len() - 1 {
        assert(t.drop_last() == s.drop_last());
    } else {
        assert(t.drop_last() == s.drop_last().update(i, v));
        lemma_byte_sum_update(s.drop_last(), i, v);
    }
}

proof fn lemma_checksum_changes(s: Seq<u8>, i: int, v: u8)
    requires
        0 <= i < s.len(),
        v != s[i],
    ensures
        checksum_of(s.update(i, v)) != checksum_of(s),
{
    lemma_byte_sum_update(s, i, v);
    let a = byte_sum(s) as int;
    let b = byte_sum(s.update(i, v)) as int;
    if a % 256 == b % 256 {
        lemma_mod_equivalence(b, a, 256);
        let d = b - a;
        assert(d == v - s[i]);
        assert(-256 < d < 256 && d != 0);
        if d > 0 {
            lemma_small_mod(d as nat, 256);
        } else {
            lemma_mod_equivalence(d, d + 256, 256);
            lemma_small_mod((d + 256) as nat, 256);
        }
    }
}

/// Changing any one byte of a serial frame after the header makes it rejected,
/// except when the length byte is lowered to a value `v` for which the shorter
/// frame happens to be followed by a matching checksum (the byte at `7 + v`
/// equals the wrapping sum of the `7 + v` bytes before it).
pub proof fn lemma_iplus_detects_corruption(id: u32, data: Seq<u8>, i: int, v: u8)
    requires
        data.len() <= 8,
        1 <= i < iplus_bytes(id, data).len(),
        v != iplus_bytes(id, data)[i],
        !(i == 6 && v < data.len() && checksum_of(
            iplus_bytes(id, data).update(i, v).subrange(0, 7 + v),
        ) == iplus_bytes(id, data)[7 + v]),
    ensures
        !iplus_accepts(iplus_bytes(id, data).update(i, v)),
{
    let body = iplus_body(id, data);
    let buf = iplus_bytes(id, data);
    let bad = buf.update(i, v);
    let n = data.len() as int;
    assert(body.len() == 7 + n);
    assert(buf[6] == n);
    assert(buf.subrange(0, 7 + n) == body);
    if i == 6 {
        assert(bad[6] == v);
    } else if i < 7 + n {
        assert(bad[6] == n);
        assert(bad.subrange(0, 7 + n) == body.update(i, v));
        lemma_checksum_changes(body, i, v);
        assert(bad[7 + n] == buf[7 + n]);
    } else {
        assert(i == 7 + n);
        assert(bad[6] == n);
        assert(bad.subrange(0, 7 + n) == body);
    }
}

// ---------------------------------------------------------------------------
// Configuration and errors
/// Transport failures that reach the caller as results.
#[derive(Debug, Clone, PartialEq, Eq)]
pub enum CanError {
    /// The serial port could not be opened, configured, written or read.
    SerialError(String),
    /// A frame could not be parsed.
    ParseError(String),
    /// The connection timed out.
    Timeout,
    /// No device to talk to (no port named, or no session).
    DeviceNotFound(String),
    /// Another I/O failure.
    IoError(String),
    /// The vendor device API failed (library, entry point or call status).
    NativeError(VciError),
}

/// Kind of CAN adapter.
#[derive(Debug, Clone, Copy, PartialEq, Eq, Structural)]
pub enum AdapterType {
    /// USB-CAN adapter on a serial port, with checksummed framing.
    UsbCan,
    /// Bluetooth CAN adapter on a serial port, with the same framing.
    BluetoothCan,
    /// SocketCAN interface; served by the simulator.
    SocketCan,
    /// Software simulator, no hardware.
    Simulation,
    /// USBCAN adapter driven through the vendor's native library.
    Native,
}

/// Adapter configuration of a session.
#[derive(Debug, Clone)]
pub struct CanConfig {
    pub adapter_type: AdapterType,
    /// Serial port path, for the serial adapters.
    pub serial_port: Option<String>,
    /// Serial line rate.
    pub serial_baud_rate: u32,
    /// CAN bus bit rate.
    pub can_baud_rate: u32,
    /// SocketCAN interface name.
    pub socket_can_interface: Option<String>,
    /// Address of the BMS.
    pub bms_address: u8,
    /// Address of this host (the PCS side).
    pub host_address: u8,
}

/// Serial line rate used when none is given.
pub const DEFAULT_SERIAL_BAUD_RATE: u32 = 115200;

/// BMS address used when none is given.
pub const DEFAULT_BMS_ADDRESS: u8 = 0x01;

/// Host (PCS) address.
pub const HOST_ADDRESS: u8 = 0x80;

impl Default for CanConfig {
    fn default() -> (r: Self)
        ensures
            r.adapter_type == AdapterType::UsbCan,
            r.serial_port is None,
            r.serial_baud_rate == DEFAULT_SERIAL_BAUD_RATE,
            r.can_baud_rate == crate::bms_types::CAN_BAUD_RATE,
            r.socket_can_interface is None,
            r.bms_address == DEFAULT_BMS_ADDRESS,
            r.host_address == HOST_ADDRESS,
    {
        CanConfig {
            adapter_type: AdapterType::UsbCan,
            serial_port: None,
            serial_baud_rate: DEFAULT_SERIAL_BAUD_RATE,
            can_baud_rate: crate::bms_types::CAN_BAUD_RATE,
            socket_can_interface: None,
            bms_address: DEFAULT_BMS_ADDRESS,
            host_address: HOST_ADDRESS,
        }
    }
}

// ---------------------------------------------------------------------------
// Simulated adapter
/// Time the simulated adapter takes to answer a receive, in milliseconds.
pub const SIMULATED_RECEIVE_DELAY_MS: u64 = 10;

/// The command that the simulator answers with at position `n` of its cycle.
pub open spec fn simulated_command(n: u32) -> u8 {
    let k = n % 10;
    if k == 0 {
        0x80
    } else if k == 1 {
        0x81
    } else if k == 2 {
        0x82
    } else if k == 3 {
        0x83
    } else if k == 4 {
        0x84
    } else if k == 5 {
        0x85
    } else if k == 6 {
        0x86
    } else if k == 7 {
        0x87
    } else if k == 8 {
        0x8F
    } else {
        0xC0
    }
}

/// The example payload that the simulator sends for command `code`.
pub open spec fn simulated_payload(code: u8) -> Seq<u8> {
    if code == 0x80 {
        seq![0x90u8, 0x21, 0xE8, 0x03, 0x40, 0x1A, 0xE8, 0x03]
    } else if code == 0x81 {
        seq![0x50u8, 0x00, 0x64, 0x00, 0x3C, 0x00, 0x00, 0x00]
    } else if code == 0x82 {
        seq![0xB9u8, 0x1F, 0x38, 0x00, 0x00, 0x00, 0x00, 0x00]
    } else if code == 0x83 {
        seq![0x42u8, 0x0D, 0x01, 0x05, 0x38, 0x0D, 0x02, 0x08]
    } else if code == 0x84 {
        seq![0x0Eu8, 0x01, 0x01, 0x03, 0xF8, 0x00, 0x02, 0x05]
    } else if code == 0x85 {
        seq![0x04u8, 0x01, 0x01, 0x00, 0x00, 0x00, 0x00, 0x00]
    } else if code == 0x86 {
        seq![0x64u8, 0x00, 0x62, 0x00, 0x00, 0x00, 0x00, 0x00]
    } else if code == 0x87 {
        seq![0xE0u8, 0x9F, 0x02, 0x00, 0xDE, 0xC9, 0x02, 0x00]
    } else if code == 0x8F {
        seq![0x56u8, 0x32, 0x2E, 0x31, 0x39, 0x53, 0x00, 0x00]
    } else {
        seq![0x00u8, 0x00, 0x00, 0x00, 0x00, 0x00, 0x00, 0x00]
    }
}

/// The identifier of a simulated answer for command `code`: from the BMS
/// (address 0x01) to the host (address 0x80), point-to-point.
pub open spec fn simulated_id(code: u8) -> u32 {
    encode_id(
        ParsedFrameId {
            ptp: true,
            command: code,
            destination_address: 0x80,
            source_address: 0x01,
            cnt: false,
        },
    )
}

/// State of the simulated adapter.
pub struct SimulationState {
    pub connected: bool,
    /// Position in the ten-frame cycle of the last frame made (0..=9).
    pub frame_counter: u32,
}

/// Adapter that answers every receive with the next of ten example frames,
/// cycling through the decoded commands; sent frames are dropped.
pub struct SimulationHandler {
    connected: bool,
    frame_counter: u32,
}

impl View for SimulationHandler {
    type V = SimulationState;

    closed spec fn view(&self) -> SimulationState {
        SimulationState { connected: self.connected, frame_counter: self.frame_counter }
    }
}

impl SimulationHandler {
    /// A disconnected simulator that has made no frame.
    pub fn new() -> (r: Self)
        ensures
            r@ == (SimulationState { connected: false, frame_counter: 0 }),
    {
        SimulationHandler { connected: false, frame_counter: 0 }
    }

    /// Connects; always succeeds.
    pub fn connect(&mut self) -> (r: Result<(), CanError>)
        ensures
            r is Ok,
            final(self)@ == (SimulationState { connected: true, ..old(self)@ }),
    {
        self.connected = true;
        Ok(())
    }

    /// Disconnects; always succeeds.
    pub fn disconnect(&mut self) -> (r: Result<(), CanError>)
        ensures
            r is Ok,
            final(self)@ == (SimulationState { connected: false, ..old(self)@ }),
    {
        self.connected = false;
        Ok(())
    }

    pub fn is_connected(&self) -> (r: bool)
        ensures
            r == self@.connected,
    {
        self.connected
    }

    /// Accepts and drops a frame.
    pub fn send_frame(&mut self, _frame: &CanFrame) -> (r: Result<(), CanError>)
        ensures
            r is Ok,
            final(self)@ == old(self)@,
    {
        Ok(())
    }

    /// The next example frame, or `None` while disconnected. The simulator
    /// answers at once; the caller stands for the adapter's turnaround
    /// (`SIMULATED_RECEIVE_DELAY_MS`).
    pub fn receive_frame(&mut self, _timeout_ms: u64) -> (r: Result<Option<CanFrame>, CanError>)
        ensures
            !old(self)@.connected ==> r == Ok::<Option<CanFrame>, CanError>(None) && final(self)@
                == old(self)@,
            old(self)@.connected ==> {
                let n = final(self)@.frame_counter;
                &&& final(self)@.connected
                &&& n == (old(self)@.frame_counter % 10 + 1) % 10
                &&& r matches Ok(Some(f))
                &&& f.id == simulated_id(simulated_command(n))
                &&& f.data@ == simulated_payload(simulated_command(n))
            },
    {
        if !self.connected {
            return Ok(None);
        }
        Ok(Some(self.generate_test_frame()))
    }

    fn generate_test_frame(&mut self) -> (r: CanFrame)
        ensures
            final(self)@.connected == old(self)@.connected,
            final(self)@.frame_counter == (old(self)@.frame_counter % 10 + 1) % 10,
            r.id == simulated_id(simulated_command(final(self)@.frame_counter)),
            r.data@ == simulated_payload(simulated_command(final(self)@.frame_counter)),
    {
        self.frame_counter = (self.frame_counter % 10 + 1) % 10;
        let k = self.frame_counter;
        let command: u8 = if k == 0 {
            0x80
        } else if k == 1 {
            0x81
        } else if k == 2 {
            0x82
        } else if k == 3 {
            0x83
        } else if k == 4 {
            0x84
        } else if k == 5 {
            0x85
        } else if k == 6 {
            0x86
        } else if k == 7 {
            0x87
        } else if k == 8 {
            0x8F
        } else {
            0xC0
        };
        let frame_id = ParsedFrameId {
            ptp: true,
            command,
            destination_address: 0x80,
            source_address: 0x01,
            cnt: false,
        };
        let data: Vec<u8> = if command == 0x80 {
            vec![0x90, 0x21, 0xE8, 0x03, 0x40, 0x1A, 0xE8, 0x03]
        } else if command == 0x81 {
            vec![0x50, 0x00, 0x64, 0x00, 0x3C, 0x00, 0x00, 0x00]
        } else if command == 0x82 {
            vec![0xB9, 0x1F, 0x38, 0x00, 0x00, 0x00, 0x00, 0x00]
        } else if command == 0x83 {
            vec![0x42, 0x0D, 0x01, 0x05, 0x38, 0x0D, 0x02, 0x08]
        } else if command == 0x84 {
            vec![0x0E, 0x01, 0x01, 0x03, 0xF8, 0x00, 0x02, 0x05]
        } else if command == 0x85 {
            vec![0x04, 0x01, 0x01, 0x00, 0x00, 0x00, 0x00, 0x00]
        } else if command == 0x86 {
            vec![0x64, 0x00, 0x62, 0x00, 0x00, 0x00, 0x00, 0x00]
        } else if command == 0x87 {
            vec![0xE0, 0x9F, 0x02, 0x00, 0xDE, 0xC9, 0x02, 0x00]
        } else if command == 0x8F {
            vec![0x56, 0x32, 0x2E, 0x31, 0x39, 0x53, 0x00, 0x00]
        } else {
            vec![0x00, 0x00, 0x00, 0x00, 0x00, 0x00, 0x00, 0x00]
        };
        CanFrame { id: frame_id.to_id(), data, timestamp: now_millis() }
    }
}

impl Default for SimulationHandler {
    fn default() -> (r: Self)
        ensures
            r@ == (SimulationState { connected: false, frame_counter: 0 }),
    {
        Self::new()
    }
}

// ---------------------------------------------------------------------------
// Connecting and polling
/// How a session reaches its adapter.
#[derive(Debug, Clone, PartialEq, Eq)]
pub enum ConnectPlan {
    /// Use the software simulator.
    Simulate,
    /// Open `port` at `baud_rate`, with reads that give up after `timeout_ms`.
    OpenSerial { port: String, baud_rate: u32, timeout_ms: u64 },
    /// Load the vendor's native library and open the device through it.
    OpenNative,
}

/// Read timeout of an opened serial port, in milliseconds.
pub const SERIAL_TIMEOUT_MS: u64 = 1000;

/// How to connect with `config`: the simulator serves `Simulation` and
/// `SocketCan`; `Native` goes through the vendor library; the serial adapters
/// need a port name, and fail with `DeviceNotFound` without one.
pub fn connect_plan(config: &CanConfig) -> (r: Result<ConnectPlan, CanError>)
    ensures
        (config.adapter_type == AdapterType::Simulation || config.adapter_type
            == AdapterType::SocketCan) ==> r == Ok::<ConnectPlan, CanError>(ConnectPlan::Simulate),
        config.adapter_type == AdapterType::Native ==> r == Ok::<ConnectPlan, CanError>(
            ConnectPlan::OpenNative,
        ),
        (config.adapter_type == AdapterType::UsbCan || config.adapter_type
            == AdapterType::BluetoothCan) ==> match config.serial_port {
            Some(p) => r matches Ok(ConnectPlan::OpenSerial { port, baud_rate, timeout_ms }) && port@
                == p@ && baud_rate == config.serial_baud_rate && timeout_ms == SERIAL_TIMEOUT_MS,
            None => r matches Err(CanError::DeviceNotFound(_)),
        },
{
    match config.adapter_type {
        AdapterType::Simulation | AdapterType::SocketCan => Ok(ConnectPlan::Simulate),
        AdapterType::Native => Ok(ConnectPlan::OpenNative),
        AdapterType::UsbCan | AdapterType::BluetoothCan => match &config.serial_port {
            Some(port) => Ok(
                ConnectPlan::OpenSerial {
                    port: port.clone(),
                    baud_rate: config.serial_baud_rate,
                    timeout_ms: SERIAL_TIMEOUT_MS,
                },
            ),
            None => Err(CanError::DeviceNotFound("No serial port specified".to_string())),
        },
    }
}

/// Number of commands a poll queries.
pub const QUERY_COUNT: usize = 10;

/// Number of receive attempts a poll makes after its queries.
pub const RECEIVE_ATTEMPTS: usize = 10;

/// Receive timeout of continuous reception, in milliseconds.
pub const CONTINUOUS_RECEIVE_TIMEOUT_MS: u64 = 100;

/// The `i`-th command of a poll, in the order of the protocol's command table.
pub open spec fn query_command(i: int) -> BmsCommand {
    if i == 0 {
        BmsCommand::ChargeDischargeLimits
    } else if i == 1 {
        BmsCommand::SocSoh
    } else if i == 2 {
        BmsCommand::VoltageCurrent
    } else if i == 3 {
        BmsCommand::CellVoltage
    } else if i == 4 {
        BmsCommand::Temperature
    } else if i == 5 {
        BmsCommand::OperationStatus
    } else if i == 6 {
        BmsCommand::AccumulatedTimes
    } else if i == 7 {
        BmsCommand::AccumulatedPower
    } else if i == 8 {
        BmsCommand::SoftwareVersion
    } else {
        BmsCommand::AlarmStatus
    }
}

fn query_command_at(i: usize) -> (r: BmsCommand)
    ensures
        r == query_command(i as int),
{
    if i == 0 {
        BmsCommand::ChargeDischargeLimits
    } else if i == 1 {
        BmsCommand::SocSoh
    } else if i == 2 {
        BmsCommand::VoltageCurrent
    } else if i == 3 {
        BmsCommand::CellVoltage
    } else if i == 4 {
        BmsCommand::Temperature
    } else if i == 5 {
        BmsCommand::OperationStatus
    } else if i == 6 {
        BmsCommand::AccumulatedTimes
    } else if i == 7 {
        BmsCommand::AccumulatedPower
    } else if i == 8 {
        BmsCommand::SoftwareVersion
    } else {
        BmsCommand::AlarmStatus
    }
}

/// Pause after each query, in milliseconds: 5 on the simulator, 30 on hardware.
pub fn send_delay_ms(adapter: AdapterType) -> (r: u64)
    ensures
        r == (if adapter == AdapterType::Simulation { 5u64 } else { 30u64 }),
{
    if adapter == AdapterType::Simulation {
        5
    } else {
        30
    }
}

/// Per-attempt receive timeout of a poll, in milliseconds: 10 on the
/// simulator, 50 on hardware.
pub fn receive_timeout_ms(adapter: AdapterType) -> (r: u64)
    ensures
        r == (if adapter == AdapterType::Simulation { 10u64 } else { 50u64 }),
{
    if adapter == AdapterType::Simulation {
        10
    } else {
        50
    }
}

/// What a poll does next.
#[derive(Debug, Clone)]
pub enum PollAction {
    /// Send `frame`, then pause `delay_ms`.
    Send { frame: CanFrame, delay_ms: u64 },
    /// Refresh the state's timestamp and mark it connected.
    MarkAttempt,
    /// Try to receive one frame within `timeout_ms` and apply it.
    Receive { timeout_ms: u64 },
    /// The poll is over.
    Done,
}

/// Progress of one poll: the ten queries in order, then the attempt mark,
/// then ten receive attempts.
pub struct PollCycle {
    pub adapter: AdapterType,
    pub host_address: u8,
    pub bms_address: u8,
    /// Actions taken so far.
    pub step: usize,
}

/// What a poll does at `step`.
pub open spec fn poll_action_ok(c: PollCycle, step: int, a: PollAction) -> bool {
    if step < QUERY_COUNT {
        a matches PollAction::Send { frame, delay_ms } && frame.id == crate::bms_parser::query_id(
            query_command(step),
            c.host_address,
            c.bms_address,
        ) && frame.data@ == Seq::new(8, |i: int| 0u8) && delay_ms == (if c.adapter
            == AdapterType::Simulation { 5u64 } else { 30u64 })
    } else if step == QUERY_COUNT {
        a is MarkAttempt
    } else if step <= QUERY_COUNT + RECEIVE_ATTEMPTS {
        a matches PollAction::Receive { timeout_ms } && timeout_ms == (if c.adapter
            == AdapterType::Simulation { 10u64 } else { 50u64 })
    } else {
        a is Done
    }
}

impl PollCycle {
    /// A poll of the device that `config` addresses, from the host's address.
    pub fn new(config: &CanConfig) -> (r: Self)
        ensures
            r.adapter == config.adapter_type,
            r.host_address == config.host_address,
            r.bms_address == config.bms_address,
            r.step == 0,
    {
        PollCycle {
            adapter: config.adapter_type,
            host_address: config.host_address,
            bms_address: config.bms_address,
            step: 0,
        }
    }

    /// The next action of the poll; after the last one, `Done` for ever.
    pub fn next_action(&mut self) -> (r: PollAction)
        ensures
            poll_action_ok(*old(self), old(self).step as int, r),
            final(self).adapter == old(self).adapter,
            final(self).host_address == old(self).host_address,
            final(self).bms_address == old(self).bms_address,
            final(self).step == (if old(self).step <= QUERY_COUNT + RECEIVE_ATTEMPTS {
                old(self).step + 1
            } else {
                old(self).step as int
            }),
    {
        let step = self.step;
        if step <= QUERY_COUNT + RECEIVE_ATTEMPTS {
            self.step = step + 1;
        }
        if step < QUERY_COUNT {
            let frame = build_query_frame(
                query_command_at(step),
                self.host_address,
                self.bms_address,
            );
            PollAction::Send { frame, delay_ms: send_delay_ms(self.adapter) }
        } else if step == QUERY_COUNT {
            PollAction::MarkAttempt
        } else if step <= QUERY_COUNT + RECEIVE_ATTEMPTS {
            PollAction::Receive { timeout_ms: receive_timeout_ms(self.adapter) }
        } else {
            PollAction::Done
        }
    }
}

} // verus!
