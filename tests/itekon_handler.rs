use bms_monitor::bms_types::CanFrame;
use bms_monitor::itekon_handler::{
    all_calls, can_obj_from_frame, check_status, frame_from_can_obj, library_candidates,
    receive_step, receive_wait_time, ConnectStep, ItekonHandler, LibraryDir, ReceiveStep,
    VciBoardInfo, VciCall, VciCanObj, VciDeviceType, VciError, VciInitConfig,
};

#[test]
fn device_type_codes() {
    assert_eq!(VciDeviceType::UsbCan1.code(), 3);
    assert_eq!(VciDeviceType::UsbCan2.code(), 4);
    assert_eq!(VciDeviceType::UsbCan2I.code(), 21);
}

#[test]
fn init_config_for_125k() {
    let c = VciInitConfig::default();
    assert_eq!((c.acc_code, c.acc_mask, c.reserved), (0, 0xFFFF_FFFF, 0));
    assert_eq!((c.filter, c.timing0, c.timing1, c.mode), (1, 0x03, 0x1C, 0));
    let info = VciBoardInfo::default();
    assert_eq!(info.str_hw_type, [0u8; 40]);
    assert_eq!(info.hw_version, 0);
}

#[test]
fn status_codes_checked() {
    assert_eq!(check_status(VciCall::Transmit, 1), Ok(()));
    assert_eq!(
        check_status(VciCall::Transmit, 0),
        Err(VciError::CallFailed { call: VciCall::Transmit, code: 0 })
    );
    assert_eq!(
        check_status(VciCall::OpenDevice, 0xFFFF_FFFF),
        Err(VciError::CallFailed { call: VciCall::OpenDevice, code: 0xFFFF_FFFF })
    );
}

#[test]
fn connect_steps_in_order() {
    let mut h = ItekonHandler::new();
    assert_eq!((h.device_type(), h.device_index(), h.can_channel()), (21, 0, 0));
    h.set_device_type(VciDeviceType::UsbCan2);
    h.set_channel(1);
    assert_eq!((h.device_type(), h.can_channel()), (4, 1));
    assert_eq!(h.connect_step_done(ConnectStep::Open, 1), Ok(Some(ConnectStep::Init)));
    assert!(!h.is_connected());
    assert_eq!(h.connect_step_done(ConnectStep::Init, 1), Ok(Some(ConnectStep::Start)));
    assert!(!h.is_connected());
    assert_eq!(h.connect_step_done(ConnectStep::Start, 1), Ok(None));
    assert!(h.is_connected());
    h.mark_disconnected();
    assert!(!h.is_connected());
}

#[test]
fn connect_step_failure_carries_code() {
    let mut h = ItekonHandler::default();
    assert_eq!(h.connect_step_done(ConnectStep::Open, 1), Ok(Some(ConnectStep::Init)));
    assert_eq!(
        h.connect_step_done(ConnectStep::Init, 0),
        Err(VciError::CallFailed { call: VciCall::InitCan, code: 0 })
    );
    assert!(!h.is_connected());
}

#[test]
fn receive_polls_once_more_after_waiting() {
    assert_eq!(receive_step(3, false), ReceiveStep::Read);
    assert_eq!(receive_step(0, false), ReceiveStep::WaitAndRecount);
    assert_eq!(receive_step(0, true), ReceiveStep::NothingArrived);
    assert_eq!(receive_step(1, true), ReceiveStep::Read);
    assert_eq!(receive_wait_time(100), 100);
    assert_eq!(receive_wait_time(u64::MAX), i32::MAX);
}

#[test]
fn can_obj_conversions() {
    let frame = CanFrame { id: 0x1808_0010, data: vec![1, 2, 3], timestamp: 0 };
    let obj = can_obj_from_frame(&frame);
    assert_eq!(obj.id, 0x1808_0010);
    assert_eq!(obj.extern_flag, 1);
    assert_eq!(obj.data_len, 3);
    assert_eq!(obj.data, [1, 2, 3, 0, 0, 0, 0, 0]);
    let back = frame_from_can_obj(&obj, 1).unwrap();
    assert_eq!(back.id, 0x1808_0010);
    assert_eq!(back.data, vec![1, 2, 3]);
    assert!(frame_from_can_obj(&obj, 0).is_none());
    let mut bad = VciCanObj::default();
    bad.data_len = 9;
    assert!(frame_from_can_obj(&bad, 1).is_none());
}

#[test]
fn library_search_order() {
    let c = library_candidates();
    assert_eq!(c.len(), 8);
    assert_eq!(c[0].dir, LibraryDir::ExecutableResources);
    assert_eq!(c[0].file, "ControlCAN.dll");
    assert_eq!(c[2].dir, LibraryDir::Working);
    assert_eq!(c[5].dir, LibraryDir::SearchPath);
    assert_eq!(c[5].file, "ECanVci64.dll");
    assert_eq!(c[7].file, "USBCAN.dll");
}

#[test]
fn call_table_symbols() {
    let calls = all_calls();
    assert_eq!(calls.len(), 8);
    assert_eq!(calls[0].symbol(), "VCI_OpenDevice");
    assert_eq!(VciCall::InitCan.symbol(), "VCI_InitCAN");
    assert_eq!(VciCall::CloseDevice.symbol(), "VCI_CloseDevice");
}
