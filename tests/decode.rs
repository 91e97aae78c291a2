use can_relay::can_types::{
    Accelerometer, CanMessage, FrameId, GPSModule, Gyroscope, HallEffect, MailboxData,
};

fn frame(id: FrameId, data: Option<Vec<u8>>) -> MailboxData {
    MailboxData { mailbox_number: 3, id, data }
}

#[test]
fn accelerometer_frame_decodes() {
    let d = frame(FrameId::Standard(0x471), Some(vec![0x00, 0x0A, 0x00, 0x14, 0x00, 0x1E]));
    assert_eq!(
        CanMessage::new(d),
        Some(CanMessage::Accelerometer(Accelerometer { lateral: 10, longitudinal: 20, vertical: 30 }))
    );
}

#[test]
fn gyroscope_frame_decodes_negative_field() {
    let d = frame(FrameId::Standard(0x470), Some(vec![0xFF, 0xF6, 0x00, 0x00, 0x00, 0x05]));
    assert_eq!(
        CanMessage::new(d),
        Some(CanMessage::Gyroscope(Gyroscope { yaw: -10, pitch: 0, roll: 5 }))
    );
}

#[test]
fn gps_frame_one_chunk_short_is_rejected() {
    let d = frame(FrameId::Standard(0x480), Some(vec![0, 1, 0, 2, 0, 3]));
    assert_eq!(CanMessage::new(d), None);
}

#[test]
fn gps_frame_of_eight_bytes_decodes() {
    let d = frame(FrameId::Standard(0x480), Some(vec![0x7F, 0xFF, 0x80, 0x00, 0x01, 0x02, 0xFF, 0xFF]));
    assert_eq!(
        CanMessage::new(d),
        Some(CanMessage::GPS(GPSModule { lat: 32767, long: -32768, heading: 258, speed: -1 }))
    );
}

#[test]
fn unknown_standard_id_gives_no_record() {
    let d = frame(FrameId::Standard(0x999), Some(vec![0, 10, 0, 20, 0, 30, 0, 40]));
    assert_eq!(CanMessage::new(d), None);
}

#[test]
fn extended_id_gives_no_record() {
    for raw in [0x470u32, 0x471, 0x480, 0x1FFF_FFFF] {
        let d = frame(FrameId::Extended(raw), Some(vec![0, 10, 0, 20, 0, 30, 0, 40]));
        assert_eq!(CanMessage::new(d), None);
    }
}

#[test]
fn remote_frame_gives_no_record() {
    assert_eq!(CanMessage::new(frame(FrameId::Standard(0x471), None)), None);
}

#[test]
fn short_payloads_are_rejected_for_every_known_id() {
    for (id, need) in [(0x470u16, 6usize), (0x471, 6), (0x480, 8)] {
        for len in 0..need {
            let d = frame(FrameId::Standard(id), Some(vec![1u8; len]));
            assert_eq!(CanMessage::new(d), None, "id {id:#x} len {len}");
        }
        let d = frame(FrameId::Standard(id), Some(vec![1u8; need]));
        assert!(CanMessage::new(d).is_some());
    }
}

#[test]
fn trailing_odd_byte_is_ignored() {
    let d = frame(FrameId::Standard(0x471), Some(vec![0, 1, 0, 2, 0, 3, 9]));
    assert_eq!(
        CanMessage::new(d),
        Some(CanMessage::Accelerometer(Accelerometer { lateral: 1, longitudinal: 2, vertical: 3 }))
    );
    assert_eq!(GPSModule::new(&[0, 1, 0, 2, 0, 3, 9]), None);
}

#[test]
fn record_constructors_read_big_endian_chunks() {
    assert_eq!(
        Accelerometer::new(&[0x12, 0x34, 0x80, 0x01, 0xFF, 0xFE]),
        Some(Accelerometer { lateral: 0x1234, longitudinal: -32767, vertical: -2 })
    );
    assert_eq!(
        Gyroscope::new(&[0, 0, 0, 0, 0, 7, 0xAA]),
        Some(Gyroscope { yaw: 0, pitch: 0, roll: 7 })
    );
    assert_eq!(Gyroscope::new(&[0, 0, 0, 0, 0]), None);
    assert_eq!(Accelerometer::new(&[]), None);
}

#[test]
fn accelerometer_text_lists_labelled_fields() {
    let m = CanMessage::Accelerometer(Accelerometer { lateral: 10, longitudinal: 20, vertical: 30 });
    assert_eq!(m.to_text(), b">lat:10\n>long:20\n>vert:30".to_vec());
}

#[test]
fn gyroscope_text_lists_labelled_fields() {
    let m = CanMessage::Gyroscope(Gyroscope { yaw: -10, pitch: 0, roll: 5 });
    assert_eq!(m.to_text(), b">yaw:-10\n>pitch:0\n>roll:5".to_vec());
}

#[test]
fn gps_text_matches_debug_rendering() {
    let g = GPSModule { lat: -32768, long: 32767, heading: -1, speed: 0 };
    let m = CanMessage::GPS(g);
    assert_eq!(m.to_text(), format!("{:?}", g).into_bytes());
    assert_eq!(
        m.to_text(),
        b"GPSModule { lat: -32768, long: 32767, heading: -1, speed: 0 }".to_vec()
    );
    assert!(m.to_text().len() <= 255);
}

#[test]
fn equal_messages_render_equal_text() {
    let a = CanMessage::Gyroscope(Gyroscope { yaw: 1, pitch: -2, roll: 3 });
    let b = CanMessage::Gyroscope(Gyroscope { yaw: 1, pitch: -2, roll: 3 });
    assert_eq!(a, b);
    assert_eq!(a.to_text(), b.to_text());
    let c = CanMessage::Accelerometer(Accelerometer { lateral: 1, longitudinal: -2, vertical: 3 });
    assert_ne!(a.to_text(), c.to_text());
}

#[test]
fn gps_into_data_is_low_byte_first() {
    let g = GPSModule { lat: 0x0102, long: -2, heading: 0, speed: 0x7F00 };
    assert_eq!(g.into_data(), vec![0x02, 0x01, 0xFE, 0xFF, 0x00, 0x00, 0x00, 0x7F]);
}

#[test]
fn hall_effect_holds_its_fields() {
    let h = HallEffect { engine_rpm: 3000, rr_wheel_rpm: -5, trottle: 42 };
    assert_eq!(h, h.clone());
    assert_eq!(h.engine_rpm, 3000);
}

#[test]
fn known_identifiers_are_the_standard_table() {
    assert!(FrameId::Standard(0x470).is_known());
    assert!(FrameId::Standard(0x471).is_known());
    assert!(FrameId::Standard(0x480).is_known());
    assert!(!FrameId::Standard(0x472).is_known());
    assert!(!FrameId::Extended(0x470).is_known());
}
