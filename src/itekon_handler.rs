//! The vendor device API (VCI call table) of USBCAN adapters: its data
//! layouts, fixed parameters, and the decisions around its calls. Loading the
//! native library and making the calls is left to the caller.

use vstd::prelude::*;

use crate::bms_types::CanFrame;
use crate::clock::now_millis;

verus! {

/// Status code with which every VCI call reports success.
pub const VCI_OK: u32 = 1;

/// Adapter models of the VCI API.
#[derive(Debug, Clone, Copy, PartialEq, Eq, Structural)]
pub enum VciDeviceType {
    /// USBCAN-I, one channel.
    UsbCan1,
    /// USBCAN-II, two channels.
    UsbCan2,
    /// USBCAN-2I, two channels.
    UsbCan2I,
}

/// The numeric device type that the API takes for a model.
pub open spec fn device_type_code(t: VciDeviceType) -> u32 {
    match t {
        VciDeviceType::UsbCan1 => 3,
        VciDeviceType::UsbCan2 => 4,
        VciDeviceType::UsbCan2I => 21,
    }
}

impl VciDeviceType {
    /// The numeric device type that the API takes.
    pub fn code(&self) -> (r: u32)
        ensures
            r == device_type_code(*self),
    {
        match self {
            VciDeviceType::UsbCan1 => 3,
            VciDeviceType::UsbCan2 => 4,
            VciDeviceType::UsbCan2I => 21,
        }
    }
}

/// A CAN frame as the API lays it out.
#[derive(Debug, Clone, Copy)]
pub struct VciCanObj {
    pub id: u32,
    pub time_stamp: u32,
    pub time_flag: u8,
    pub send_type: u8,
    pub remote_flag: u8,
    /// 1 for a 29-bit identifier.
    pub extern_flag: u8,
    pub data_len: u8,
    pub data: [u8; 8],
    pub reserved: [u8; 3],
}

impl Default for VciCanObj {
    fn default() -> (r: Self)
        ensures
            r.id == 0 && r.time_stamp == 0 && r.time_flag == 0 && r.send_type == 0,
            r.remote_flag == 0 && r.extern_flag == 0 && r.data_len == 0,
            r.data@ == Seq::new(8, |i: int| 0u8),
            r.reserved@ == Seq::new(3, |i: int| 0u8),
    {
        VciCanObj {
            id: 0,
            time_stamp: 0,
            time_flag: 0,
            send_type: 0,
            remote_flag: 0,
            extern_flag: 0,
            data_len: 0,
            data: [0u8; 8],
            reserved: [0u8; 3],
        }
    }
}

/// Channel initialisation parameters as the API lays them out.
#[derive(Debug, Clone, Copy)]
pub struct VciInitConfig {
    pub acc_code: u32,
    pub acc_mask: u32,
    pub reserved: u32,
    pub filter: u8,
    pub timing0: u8,
    pub timing1: u8,
    pub mode: u8,
}

impl Default for VciInitConfig {
    /// Accept every identifier, single filter, normal mode, and the bit
    /// timing of a 125 kbit/s bus on an 8 MHz clock.
    fn default() -> (r: Self)
        ensures
            r.acc_code == 0 && r.acc_mask == 0xFFFF_FFFF && r.reserved == 0,
            r.filter == 1 && r.timing0 == 0x03 && r.timing1 == 0x1C && r.mode == 0,
    {
        VciInitConfig {
            acc_code: 0x0000_0000,
            acc_mask: 0xFFFF_FFFF,
            reserved: 0,
            filter: 1,
            timing0: 0x03,
            timing1: 0x1C,
            mode: 0,
        }
    }
}

/// Board information as the API lays it out.
#[derive(Debug, Clone, Copy)]
pub struct VciBoardInfo {
    pub hw_version: u16,
    pub fw_version: u16,
    pub dr_version: u16,
    pub in_version: u16,
    pub irq_num: u16,
    pub can_num: u8,
    pub str_serial_num: [u8; 20],
    pub str_hw_type: [u8; 40],
    pub reserved: [u16; 4],
}

impl Default for VciBoardInfo {
    fn default() -> (r: Self)
        ensures
            r.hw_version == 0 && r.fw_version == 0 && r.dr_version == 0 && r.in_version == 0,
            r.irq_num == 0 && r.can_num == 0,
            r.str_serial_num@ == Seq::new(20, |i: int| 0u8),
            r.str_hw_type@ == Seq::new(40, |i: int| 0u8),
            r.reserved@ == Seq::new(4, |i: int| 0u16),
    {
        VciBoardInfo {
            hw_version: 0,
            fw_version: 0,
            dr_version: 0,
            in_version: 0,
            irq_num: 0,
            can_num: 0,
            str_serial_num: [0u8; 20],
            str_hw_type: [0u8; 40],
            reserved: [0u16; 4],
        }
    }
}

/// Entry points of the call table.
#[derive(Debug, Clone, Copy, PartialEq, Eq, Structural)]
pub enum VciCall {
    OpenDevice,
    InitCan,
    StartCan,
    Transmit,
    Receive,
    GetReceiveNum,
    ReadBoardInfo,
    CloseDevice,
}

/// The symbol name of an entry point.
pub open spec fn vci_symbol(call: VciCall) -> Seq<char> {
    match call {
        VciCall::OpenDevice => "VCI_OpenDevice"@,
        VciCall::InitCan => "VCI_InitCAN"@,
        VciCall::StartCan => "VCI_StartCAN"@,
        VciCall::Transmit => "VCI_Transmit"@,
        VciCall::Receive => "VCI_Receive"@,
        VciCall::GetReceiveNum => "VCI_GetReceiveNum"@,
        VciCall::ReadBoardInfo => "VCI_ReadBoardInfo"@,
        VciCall::CloseDevice => "VCI_CloseDevice"@,
    }
}

impl VciCall {
    /// The symbol name under which the native library exports this entry point.
    pub fn symbol(&self) -> (r: &'static str)
        ensures
            r@ == vci_symbol(*self),
    {
        match self {
            VciCall::OpenDevice => "VCI_OpenDevice",
            VciCall::InitCan => "VCI_InitCAN",
            VciCall::StartCan => "VCI_StartCAN",
            VciCall::Transmit => "VCI_Transmit",
            VciCall::Receive => "VCI_Receive",
            VciCall::GetReceiveNum => "VCI_GetReceiveNum",
            VciCall::ReadBoardInfo => "VCI_ReadBoardInfo",
            VciCall::CloseDevice => "VCI_CloseDevice",
        }
    }
}

/// Every entry point that a session needs, in the order they are resolved.
pub open spec fn required_calls() -> Seq<VciCall> {
    seq![
        VciCall::OpenDevice,
        VciCall::InitCan,
        VciCall::StartCan,
        VciCall::Transmit,
        VciCall::Receive,
        VciCall::GetReceiveNum,
        VciCall::ReadBoardInfo,
        VciCall::CloseDevice,
    ]
}

/// Every entry point that a session needs; a library that lacks one is refused
/// when it is loaded.
pub fn all_calls() -> (r: Vec<VciCall>)
    ensures
        r@ == required_calls(),
{
    vec![
        VciCall::OpenDevice,
        VciCall::InitCan,
        VciCall::StartCan,
        VciCall::Transmit,
        VciCall::Receive,
        VciCall::GetReceiveNum,
        VciCall::ReadBoardInfo,
        VciCall::CloseDevice,
    ]
}

/// Failures of the vendor device API.
#[derive(Debug, Clone, PartialEq, Eq)]
pub enum VciError {
    /// No candidate library could be loaded.
    LibraryNotFound,
    /// The loaded library lacks an entry point.
    SymbolNotFound(VciCall),
    /// A call returned a status other than `VCI_OK`.
    CallFailed { call: VciCall, code: u32 },
    /// The session is not connected.
    NotConnected,
}

/// `Ok` when `code` is the success status, else the failure with its code.
pub fn check_status(call: VciCall, code: u32) -> (r: Result<(), VciError>)
    ensures
        code == VCI_OK ==> r is Ok,
        code != VCI_OK ==> r == Err::<(), VciError>(VciError::CallFailed { call, code }),
{
    if code == VCI_OK {
        Ok(())
    } else {
        Err(VciError::CallFailed { call, code })
    }
}

/// Steps of opening a session, in the order they must succeed.
#[derive(Debug, Clone, Copy, PartialEq, Eq, Structural)]
pub enum ConnectStep {
    Open,
    Init,
    Start,
}

/// The entry point that a connect step calls.
pub open spec fn step_call(step: ConnectStep) -> VciCall {
    match step {
        ConnectStep::Open => VciCall::OpenDevice,
        ConnectStep::Init => VciCall::InitCan,
        ConnectStep::Start => VciCall::StartCan,
    }
}

/// What to do after counting the frames waiting in the adapter.
#[derive(Debug, Clone, Copy, PartialEq, Eq, Structural)]
pub enum ReceiveStep {
    /// Read one frame.
    Read,
    /// Sleep for the receive timeout, then count again.
    WaitAndRecount,
    /// Report that nothing arrived.
    NothingArrived,
}

/// State of a VCI adapter session.
pub struct ItekonState {
    pub device_type: u32,
    pub device_index: u32,
    pub can_channel: u32,
    pub connected: bool,
}

/// Session state of a VCI adapter channel: which device and channel it
/// addresses, and whether every opening step has succeeded.
pub struct ItekonHandler {
    device_type: u32,
    device_index: u32,
    can_channel: u32,
    connected: bool,
}

impl View for ItekonHandler {
    type V = ItekonState;

    closed spec fn view(&self) -> ItekonState {
        ItekonState {
            device_type: self.device_type,
            device_index: self.device_index,
            can_channel: self.can_channel,
            connected: self.connected,
        }
    }
}

impl ItekonHandler {
    /// A disconnected USBCAN-2I session on device 0, channel 0.
    pub fn new() -> (r: Self)
        ensures
            r@ == (ItekonState { device_type: 21, device_index: 0, can_channel: 0, connected: false }),
    {
        ItekonHandler { device_type: 21, device_index: 0, can_channel: 0, connected: false }
    }

    pub fn set_device_type(&mut self, device_type: VciDeviceType)
        ensures
            final(self)@ == (ItekonState { device_type: device_type_code(device_type), ..old(self)@ }),
    {
        self.device_type = device_type.code();
    }

    pub fn set_channel(&mut self, channel: u32)
        ensures
            final(self)@ == (ItekonState { can_channel: channel, ..old(self)@ }),
    {
        self.can_channel = channel;
    }

    pub fn is_connected(&self) -> (r: bool)
        ensures
            r == self@.connected,
    {
        self.connected
    }

    /// The numeric device type that calls address.
    pub fn device_type(&self) -> (r: u32)
        ensures
            r == self@.device_type,
    {
        self.device_type
    }

    /// The device index that calls address.
    pub fn device_index(&self) -> (r: u32)
        ensures
            r == self@.device_index,
    {
        self.device_index
    }

    /// The CAN channel that calls address.
    pub fn can_channel(&self) -> (r: u32)
        ensures
            r == self@.can_channel,
    {
        self.can_channel
    }

    /// Records the status of a connect step and names the next one. A failed
    /// step ends the attempt with its code and leaves the session
    /// disconnected; the session is connected only once `Start` succeeds.
    pub fn connect_step_done(&mut self, step: ConnectStep, status: u32) -> (r: Result<
        Option<ConnectStep>,
        VciError,
    >)
        ensures
            status != VCI_OK ==> r == Err::<Option<ConnectStep>, VciError>(
                VciError::CallFailed { call: step_call(step), code: status },
            ) && final(self)@ == (ItekonState { connected: false, ..old(self)@ }),
            status == VCI_OK ==> match step {
                ConnectStep::Open => r == Ok::<Option<ConnectStep>, VciError>(
                    Some(ConnectStep::Init),
                ) && final(self)@ == old(self)@,
                ConnectStep::Init => r == Ok::<Option<ConnectStep>, VciError>(
                    Some(ConnectStep::Start),
                ) && final(self)@ == old(self)@,
                ConnectStep::Start => r == Ok::<Option<ConnectStep>, VciError>(None)
                    && final(self)@ == (ItekonState { connected: true, ..old(self)@ }),
            },
    {
        let call = match step {
            ConnectStep::Open => VciCall::OpenDevice,
            ConnectStep::Init => VciCall::InitCan,
            ConnectStep::Start => VciCall::StartCan,
        };
        if status != VCI_OK {
            self.connected = false;
            return Err(VciError::CallFailed { call, code: status });
        }
        match step {
            ConnectStep::Open => Ok(Some(ConnectStep::Init)),
            ConnectStep::Init => Ok(Some(ConnectStep::Start)),
            ConnectStep::Start => {
                self.connected = true;
                Ok(None)
            },
        }
    }

    /// Records that the device was closed and the library released.
    pub fn mark_disconnected(&mut self)
        ensures
            final(self)@ == (ItekonState { connected: false, ..old(self)@ }),
    {
        self.connected = false;
    }
}

impl Default for ItekonHandler {
    fn default() -> (r: Self)
        ensures
            r@ == (ItekonState { device_type: 21, device_index: 0, can_channel: 0, connected: false }),
    {
        Self::new()
    }
}

/// What to do with `pending` frames waiting; `recounted` tells whether the
/// count was taken after the wait. An empty adapter is waited on once, never
/// blocked on.
pub fn receive_step(pending: u32, recounted: bool) -> (r: ReceiveStep)
    ensures
        pending > 0 ==> r == ReceiveStep::Read,
        pending == 0 && !recounted ==> r == ReceiveStep::WaitAndRecount,
        pending == 0 && recounted ==> r == ReceiveStep::NothingArrived,
{
    if pending > 0 {
        ReceiveStep::Read
    } else if !recounted {
        ReceiveStep::WaitAndRecount
    } else {
        ReceiveStep::NothingArrived
    }
}

/// The wait time, in milliseconds, that the receive call takes: the timeout,
/// capped at the largest value of its parameter.
pub fn receive_wait_time(timeout_ms: u64) -> (r: i32)
    ensures
        r as int == (if timeout_ms <= i32::MAX { timeout_ms as int } else { i32::MAX as int }),
{
    if timeout_ms <= 0x7FFF_FFFF {
        timeout_ms as i32
    } else {
        0x7FFF_FFFF
    }
}

/// The API's layout of `frame`: its identifier as a 29-bit identifier and its
/// payload, the rest zero.
pub fn can_obj_from_frame(frame: &CanFrame) -> (r: VciCanObj)
    requires
        frame.data@.len() <= 8,
    ensures
        r.id == frame.id,
        r.extern_flag == 1,
        r.data_len == frame.data@.len(),
        r.data@ == frame.data@ + Seq::new((8 - frame.data@.len()) as nat, |i: int| 0u8),
        r.time_stamp == 0 && r.time_flag == 0 && r.send_type == 0 && r.remote_flag == 0,
        r.reserved@ == Seq::new(3, |i: int| 0u8),
{
    let mut obj = VciCanObj::default();
    obj.id = frame.id;
    obj.extern_flag = 1;
    obj.data_len = frame.data.len() as u8;
    let mut i: usize = 0;
    while i < frame.data.len()
        invariant
            frame.data@.len() <= 8,
            i <= frame.data@.len(),
            obj.id == frame.id && obj.extern_flag == 1 && obj.data_len == frame.data@.len(),
            obj.time_stamp == 0 && obj.time_flag == 0 && obj.send_type == 0 && obj.remote_flag
                == 0,
            obj.reserved@ == Seq::new(3, |k: int| 0u8),
            obj.data@.len() == 8,
            forall|k: int| 0 <= k < i ==> obj.data@[k] == frame.data@[k],
            forall|k: int| i <= k < 8 ==> obj.data@[k] == 0u8,
        decreases frame.data@.len() - i,
    {
        obj.data[i] = frame.data[i];
        i = i + 1;
    }
    assert(obj.data@ =~= frame.data@ + Seq::new((8 - frame.data@.len()) as nat, |k: int| 0u8));
    obj
}

/// The frame that a receive call delivered: `None` when it delivered none
/// (`received == 0`) or when the object declares more than eight bytes.
pub fn frame_from_can_obj(obj: &VciCanObj, received: u32) -> (r: Option<CanFrame>)
    ensures
        (received == 0 || obj.data_len > 8) ==> r is None,
        (received != 0 && obj.data_len <= 8) ==> (r matches Some(f) && f.id == obj.id && f.data@
            == obj.data@.subrange(0, obj.data_len as int)),
{
    if received == 0 || obj.data_len > 8 {
        return None;
    }
    let n = obj.data_len as usize;
    let mut data: Vec<u8> = Vec::new();
    let mut i: usize = 0;
    while i < n
        invariant
            n <= 8,
            obj.data@.len() == 8,
            i <= n,
            data@ == obj.data@.subrange(0, i as int),
        decreases n - i,
    {
        data.push(obj.data[i]);
        i = i + 1;
    }
    Some(CanFrame { id: obj.id, data, timestamp: now_millis() })
}

/// Where a candidate native library is looked for.
#[derive(Debug, Clone, Copy, PartialEq, Eq, Structural)]
pub enum LibraryDir {
    /// The `resources` directory beside the executable.
    ExecutableResources,
    /// The executable's directory.
    Executable,
    /// The working directory.
    Working,
    /// The `resources` directory under the working directory.
    WorkingResources,
    /// The system's library search path (a bare name).
    SearchPath,
}

/// A native library to try: a directory and a file name.
#[derive(Debug, Clone)]
pub struct LibraryCandidate {
    pub dir: LibraryDir,
    pub file: String,
}

/// The directories of the candidates, in the order they are tried.
pub open spec fn candidate_dirs() -> Seq<LibraryDir> {
    seq![
        LibraryDir::ExecutableResources,
        LibraryDir::Executable,
        LibraryDir::Working,
        LibraryDir::WorkingResources,
        LibraryDir::SearchPath,
        LibraryDir::SearchPath,
        LibraryDir::SearchPath,
        LibraryDir::SearchPath,
    ]
}

/// The file names of the candidates, in the order they are tried.
pub open spec fn candidate_files() -> Seq<Seq<char>> {
    seq![
        "ControlCAN.dll"@,
        "ControlCAN.dll"@,
        "ControlCAN.dll"@,
        "ControlCAN.dll"@,
        "ControlCAN.dll"@,
        "ECanVci64.dll"@,
        "ECANVCI.dll"@,
        "USBCAN.dll"@,
    ]
}

fn candidate(dir: LibraryDir, file: &str) -> (r: LibraryCandidate)
    ensures
        r.dir == dir,
        r.file@ == file@,
{
    LibraryCandidate { dir, file: file.to_string() }
}

/// The native libraries to try, in order: the bundled copy beside the
/// executable, the executable's directory, the working directory, then the
/// vendor library names on the system's search path.
pub fn library_candidates() -> (r: Vec<LibraryCandidate>)
    ensures
        r@.len() == 8,
        forall|i: int|
            0 <= i < 8 ==> (#[trigger] r@[i]).dir == candidate_dirs()[i] && r@[i].file@
                == candidate_files()[i],
{
    let mut r: Vec<LibraryCandidate> = Vec::new();
    r.push(candidate(LibraryDir::ExecutableResources, "ControlCAN.dll"));
    r.push(candidate(LibraryDir::Executable, "ControlCAN.dll"));
    r.push(candidate(LibraryDir::Working, "ControlCAN.dll"));
    r.push(candidate(LibraryDir::WorkingResources, "ControlCAN.dll"));
    r.push(candidate(LibraryDir::SearchPath, "ControlCAN.dll"));
    r.push(candidate(LibraryDir::SearchPath, "ECanVci64.dll"));
    r.push(candidate(LibraryDir::SearchPath, "ECANVCI.dll"));
    r.push(candidate(LibraryDir::SearchPath, "USBCAN.dll"));
    r
}

} // verus!
