use chanem::event::{Event, ManualSetting, PositionSample};
use chanem::wire::{
    classify_control_datagram, classify_position_datagram, f32_bits_of_uint, gui_mode_frame,
    has_powerfolder_prefix, read_be_u32, tagged_frame, PositionPacket,
};

const POWERFOLDER_PREFIX: [u8; 24] = [
    80, 111, 119, 101, 114, 70, 111, 108, 100, 101, 114, 32, 110, 111, 100, 101, 58, 32, 91, 49,
    51, 51, 55, 93,
];

#[test]
fn read_be_u32_is_big_endian() {
    let buf: Vec<u8> = vec![0x12, 0x34, 0x56, 0x78, 0xff, 0x00, 0x00, 0x01];
    assert_eq!(read_be_u32(&buf, 0), 0x12345678);
    assert_eq!(read_be_u32(&buf, 4), 0xff000001);
    assert_eq!(read_be_u32(&buf, 1), 0x345678ff);
}

#[test]
fn f32_bits_match_ieee_for_db_values() {
    for n in (0u32..=120).step_by(5) {
        assert_eq!(f32_bits_of_uint(n), (n as f32).to_bits());
    }
}

#[test]
fn f32_bits_match_ieee_exhaustively_for_small_values() {
    for n in 0u32..=4096 {
        assert_eq!(f32_bits_of_uint(n), (n as f32).to_bits());
    }
    for n in [30000u32, 65535, 1 << 20, (1 << 24) - 1] {
        assert_eq!(f32_bits_of_uint(n), (n as f32).to_bits());
    }
}

#[test]
fn position_datagram_of_24_bytes_is_parsed() {
    let floats = [0.1f32, 0.0, 1.5, 0.25, -1.0, 3.5];
    let mut buf: Vec<u8> = Vec::new();
    for f in floats {
        buf.extend_from_slice(&f.to_be_bytes());
    }
    match classify_position_datagram(&buf, 24) {
        PositionPacket::Position(p) => {
            assert_eq!(p.x_bits, 0.1f32.to_bits());
            assert_eq!(p.y_bits, 0.0f32.to_bits());
            assert_eq!(p.z_bits, 1.5f32.to_bits());
            assert_eq!(p.roll_bits, 0.25f32.to_bits());
            assert_eq!(p.pitch_bits, (-1.0f32).to_bits());
            assert_eq!(p.yaw_bits, 3.5f32.to_bits());
        }
        other => panic!("expected a position sample, got {:?}", other),
    }
}

#[test]
fn powerfolder_datagram_is_silently_ignored() {
    // A 48-byte datagram starting with the known prefix produces no event
    // and no warning.
    let mut buf: Vec<u8> = POWERFOLDER_PREFIX.to_vec();
    buf.extend_from_slice(&[0u8; 24]);
    assert_eq!(buf.len(), 48);
    assert!(has_powerfolder_prefix(&buf));
    assert_eq!(classify_position_datagram(&buf, 48), PositionPacket::Ignored);
}

#[test]
fn powerfolder_prefix_must_match_exactly() {
    let mut buf: Vec<u8> = POWERFOLDER_PREFIX.to_vec();
    buf.extend_from_slice(&[0u8; 24]);
    buf[3] ^= 0xff;
    assert!(!has_powerfolder_prefix(&buf));
    assert_eq!(
        classify_position_datagram(&buf, 48),
        PositionPacket::Malformed
    );
}

#[test]
fn short_and_odd_position_datagrams_are_malformed() {
    let buf = vec![0u8; 2048];
    assert_eq!(classify_position_datagram(&buf, 10), PositionPacket::Malformed);
    assert_eq!(classify_position_datagram(&buf, 23), PositionPacket::Malformed);
    assert_eq!(classify_position_datagram(&buf, 25), PositionPacket::Malformed);
    assert_eq!(classify_position_datagram(&buf, 2048), PositionPacket::Malformed);
}

#[test]
fn one_byte_control_datagram_selects_mode() {
    let cases: [(u8, Event); 6] = [
        (0, Event::ModeAutomaticFreeSpace),
        (1, Event::ModeAutomaticFlatEarthTwoRay),
        (2, Event::ModeAutomaticCurvedEarthTwoRay),
        (3, Event::ModeAutomaticNineRay),
        (4, Event::ModeManual(ManualSetting::Keep)),
        (9, Event::ModeManual(ManualSetting::Keep)),
    ];
    for (code, expected) in cases {
        let buf = vec![code];
        assert_eq!(classify_control_datagram(&buf, 1), Some(expected));
    }
}

#[test]
fn four_byte_control_datagram_sets_scale() {
    let buf = 2.5f32.to_be_bytes().to_vec();
    assert_eq!(
        classify_control_datagram(&buf, 4),
        Some(Event::ScalingCoeff(2.5f32.to_bits()))
    );
}

#[test]
fn other_control_datagram_lengths_are_dropped() {
    let buf = vec![0u8; 1024];
    assert_eq!(classify_control_datagram(&buf, 0), None);
    assert_eq!(classify_control_datagram(&buf, 2), None);
    assert_eq!(classify_control_datagram(&buf, 3), None);
    assert_eq!(classify_control_datagram(&buf, 5), None);
    assert_eq!(classify_control_datagram(&buf, 1024), None);
}

#[test]
fn tagged_frame_prefixes_payload() {
    let payload = vec![1u8, 2, 3];
    let frame = tagged_frame(b'P', &payload);
    assert_eq!(frame, vec![b'P', 1, 2, 3]);
}

#[test]
fn gui_mode_frame_layout() {
    let frame = gui_mode_frame(4, 50);
    assert_eq!(frame.len(), 6);
    assert_eq!(frame[0], b'M');
    assert_eq!(frame[1], 4);
    assert_eq!(&frame[2..6], &50.0f32.to_be_bytes());

    let frame = gui_mode_frame(2, 0);
    assert_eq!(&frame[2..6], &0.0f32.to_be_bytes());

    let frame = gui_mode_frame(0, 120);
    assert_eq!(&frame[2..6], &120.0f32.to_be_bytes());
}

#[test]
fn position_sample_holds_wire_order() {
    let p = PositionSample {
        x_bits: 1,
        y_bits: 2,
        z_bits: 3,
        roll_bits: 4,
        pitch_bits: 5,
        yaw_bits: 6,
    };
    assert_eq!(p, p);
}
