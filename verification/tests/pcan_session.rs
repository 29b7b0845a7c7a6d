use cbf_parser::pcan::{
    can_frame_to_iso15765, iso15765_to_can_frame, CanFrame, DiagCfg, ISO15765Config, ISO15765Data,
    PeakCanAPI,
};

#[test]
fn test_uds_pcan_server() {
    let mut dev = PeakCanAPI::new(String::from("PeakCan"));

    if let Err(e) = dev.open_device() {
        panic!("Failed to open device: {:?}", e);
    } else {
        assert!(true);
    }

    // The ISO-TP session towards the instrument cluster; the live exchange
    // itself runs through the vendor transport in the front end.
    let session = ISO15765Config {
        baud: 0x001C,
        send_id: 0x784,
        recv_id: 0x7F0,
        block_size: 8,
        sep_time: 20,
        use_ext_isotp: false,
        use_ext_can: false,
    };
    let diag = DiagCfg { send_id: 0, recv_id: 0, global_id: None };

    let (handle, baud) = dev.open_can_interface(session.baud);
    assert_eq!(handle, 0x51);
    assert_eq!(baud, 0x001C);
    assert!(dev.is_connected());
    assert_eq!(diag.global_id, None);
}

#[test]
fn iso15765_payload_maps_onto_one_frame() {
    let iso = ISO15765Data {
        id: 0x784,
        data: vec![0x02, 0x11, 0x01],
        pad_frame: false,
        ext_addressing: false,
    };
    let f = iso15765_to_can_frame(&iso);
    assert_eq!(f.id, 0x784);
    assert_eq!(f.dlc, 3);
    assert_eq!(f.data, [0x02, 0x11, 0x01, 0, 0, 0, 0, 0]);

    let long = ISO15765Data { id: 1, data: vec![9; 10], pad_frame: false, ext_addressing: false };
    let f2 = iso15765_to_can_frame(&long);
    assert_eq!(f2.dlc, 8);
    assert_eq!(f2.data, [9; 8]);
}

#[test]
fn can_frame_maps_back_to_iso15765_payload() {
    let f = CanFrame { id: 0x7F0, dlc: 4, data: [1, 2, 3, 4, 0, 0, 0, 0] };
    let back = can_frame_to_iso15765(&f);
    assert_eq!(back.id, 0x7F0);
    assert_eq!(back.data, vec![1, 2, 3, 4, 0, 0, 0, 0]);
    assert!(!back.pad_frame);
    assert!(!back.ext_addressing);
}

#[test]
fn pcan_state_transitions() {
    let mut dev = PeakCanAPI::new(String::from("PeakCan"));
    assert!(!dev.is_connected());
    assert_eq!(dev.get_api(), "Peak CAN");

    dev.open_can_interface(0x001C);
    assert!(dev.is_connected());
    assert_eq!(dev.iface, "Peak-CAN");

    dev.close_can_interface();
    assert!(!dev.is_connected());
    assert_eq!(dev.iface, "");
    assert!(dev.close_device().is_ok());
}
