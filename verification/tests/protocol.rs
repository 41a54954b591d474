//! Frame decoding and message interpretation against wire-exact inputs.

use scoreboard_bridge::frame::{FrameError, ProtocolFrame, parse_raw_data};
use scoreboard_bridge::message::{
    Event, MessageError, StatusWord18, StatusWord50, digit_value, parse_valid_frame, score_value,
};

/// Assemble a full wire frame for an address, control byte and payload,
/// with correct sentinels and the computed checksum embedded.
fn build_frame(address: u8, ctrl: u8, payload: &[u8]) -> Vec<u8> {
    let mut body = vec![address, 0x02, ctrl];
    body.extend_from_slice(payload);
    body.push(0x03);
    let lrc = ProtocolFrame::compute_lrc_bytes(&body);
    let mut data = vec![0x01];
    data.extend_from_slice(&body);
    data.push(lrc);
    data
}

#[test]
fn checksum_always_in_printable_band() {
    let samples: [&[u8]; 6] = [
        &[],
        &[0x00],
        &[0xFF, 0xFF, 0xFF],
        &[0x01, 0x02, 0x03, 0x04, 0x05],
        &[0x7F, 0x80, 0x20],
        &[0x31, 0x38, 0x00, 0x35, 0x31, 0x32, 0x33, 0x34],
    ];
    for bytes in samples {
        let lrc = ProtocolFrame::compute_lrc_bytes(bytes);
        assert!((32..=127).contains(&lrc), "lrc {lrc} out of band");
    }
}

#[test]
fn checksum_exact_values() {
    // XOR of 0x10 and 0x05 is 0x15 = 21 < 32, so 32 is added.
    assert_eq!(ProtocolFrame::compute_lrc_bytes(&[0x10, 0x05]), 21 + 32);
    // XOR of 0x40 and 0x21 is 0x61 = 97 >= 32, kept as is.
    assert_eq!(ProtocolFrame::compute_lrc_bytes(&[0x40, 0x21]), 0x61);
    // The high bit is masked away before the comparison.
    assert_eq!(ProtocolFrame::compute_lrc_bytes(&[0xE1]), 0x61);
}

#[test]
fn round_trip_preserves_every_field() {
    let payload = [0x33, 0x30, 0x35, 0x31, 0x32, 0x30, 0x30, 0x39, 0x35];
    let data = build_frame(0x7F, 0x20, &payload);
    let frame = parse_raw_data(&data).expect("a built frame must decode");
    assert_eq!(frame.soh, 0x01);
    assert_eq!(frame.address, 0x7F);
    assert_eq!(frame.stx, 0x02);
    assert_eq!(frame.ctrl, 0x20);
    assert_eq!(frame.message, payload.to_vec());
    assert_eq!(frame.etx, 0x03);
    assert_eq!(frame.lrc, *data.last().unwrap());
    assert_eq!(frame.expected_lrc(), frame.lrc);
    assert!(frame.validate_lrc());
}

#[test]
fn round_trip_empty_payload() {
    let data = build_frame(0x01, 0x00, &[]);
    let frame = parse_raw_data(&data).expect("empty payload still decodes");
    assert!(frame.message.is_empty());
    assert!(frame.validate_lrc());
}

#[test]
fn short_chunks_yield_too_short() {
    assert_eq!(parse_raw_data(&[]), Err(FrameError::TooShort));
    assert_eq!(parse_raw_data(&[0x01]), Err(FrameError::TooShort));
    assert_eq!(parse_raw_data(&[0x01, 0x00, 0x02, 0x03]), Err(FrameError::TooShort));
}

#[test]
fn bad_sentinels_yield_their_own_errors() {
    let good = build_frame(0x05, 0x11, &[0x41, 0x42]);

    let mut bad_start = good.clone();
    bad_start[0] = 0x7E;
    assert_eq!(parse_raw_data(&bad_start), Err(FrameError::BadStart));

    let mut bad_stx = good.clone();
    bad_stx[2] = 0x7E;
    assert_eq!(parse_raw_data(&bad_stx), Err(FrameError::BadFrameStart));

    let mut bad_etx = good.clone();
    let n = bad_etx.len();
    bad_etx[n - 2] = 0x7E;
    assert_eq!(parse_raw_data(&bad_etx), Err(FrameError::BadFrameEnd));
}

#[test]
fn single_byte_flips_are_caught() {
    let good = build_frame(0x05, 0x11, &[0x41, 0x42, 0x43]);
    let n = good.len();
    // Address, control, and every payload position.
    let positions = [1usize, 3, 4, 5, 6];
    for &i in &positions {
        let mut bad = good.clone();
        bad[i] ^= 0x01;
        assert_eq!(
            parse_raw_data(&bad),
            Err(FrameError::ChecksumMismatch),
            "flip at {i} of {n} went unnoticed"
        );
    }
}

#[test]
fn high_bit_flip_is_a_known_collision() {
    // The 0x7F mask makes the checksum blind to bit 7, so this corruption
    // decodes cleanly: a documented limit of the checksum algorithm.
    let good = build_frame(0x05, 0x11, &[0x41, 0x42, 0x43]);
    let mut collided = good.clone();
    collided[5] ^= 0x80;
    assert!(parse_raw_data(&collided).is_ok());
}

#[test]
fn game_clock_event_carries_status_bits() {
    // Status 0x02: clock off; no tenths.
    let payload = [
        0x31, 0x38, 0x02, 0x35, 0x31, 0x32, 0x33, 0x34, 0x32, 0x33, 0x00, 0x00, 0x32, 0x00,
    ];
    let data = build_frame(0x01, 0x00, &payload);
    let frame = parse_raw_data(&data).unwrap();
    let event = parse_valid_frame(frame).unwrap();
    assert_eq!(
        event,
        Event::GameClock {
            minutes_tens: 0x31,
            minutes_ones: 0x32,
            seconds_tens: 0x33,
            seconds_ones: 0x34,
            clock_off: true,
            tenths_mode: false,
            home_timeouts: 0x32,
            guest_timeouts: 0x33,
            period: 0x32,
        }
    );

    // Same payload with the clock-off bit cleared.
    let mut running = payload;
    running[2] = 0x00;
    let data = build_frame(0x01, 0x00, &running);
    let frame = parse_raw_data(&data).unwrap();
    match parse_valid_frame(frame).unwrap() {
        Event::GameClock { clock_off, .. } => assert!(!clock_off),
        other => panic!("expected a game clock event, got {other:?}"),
    }
}

#[test]
fn score_payload_combines_digits_decimally() {
    let payload = [0x33, 0x30, 0x35, b'1', b'2', b'0', b'0', b'9', b'5'];
    let data = build_frame(0x01, 0x00, &payload);
    let frame = parse_raw_data(&data).unwrap();
    let event = parse_valid_frame(frame).unwrap();
    assert_eq!(event, Event::Score { home: 120, guest: 95 });
}

#[test]
fn fouls_payload_keeps_raw_digits() {
    let payload = [
        0x33, 0x31, 0x35, 0x00, b'4', 0x00, b'5', b'2', b'3', b'1', b'H',
    ];
    let data = build_frame(0x01, 0x00, &payload);
    let frame = parse_raw_data(&data).unwrap();
    let event = parse_valid_frame(frame).unwrap();
    assert_eq!(
        event,
        Event::Fouls {
            home_fouls: b'4',
            guest_fouls: b'5',
            player_on_line_1: b'2',
            player_on_line_2: b'3',
            player_fault_count: b'1',
            player_team: b'H',
        }
    );
}

#[test]
fn shot_clock_event_reads_tenths_bit() {
    let payload = [0x35, 0x30, 0x10, b'1', b'4'];
    let data = build_frame(0x01, 0x00, &payload);
    let frame = parse_raw_data(&data).unwrap();
    let event = parse_valid_frame(frame).unwrap();
    assert_eq!(
        event,
        Event::ShotClock { seconds_tens: b'1', seconds_ones: b'4', tenths_mode: true }
    );
}

#[test]
fn unrecognized_tag_yields_unknown() {
    let payload = [0x39, 0x39, 0x00, 0x00];
    let data = build_frame(0x01, 0x00, &payload);
    let frame = parse_raw_data(&data).unwrap();
    let event = parse_valid_frame(frame).unwrap();
    assert_eq!(event, Event::Unknown { tag_1: 0x39, tag_2: 0x39 });
}

#[test]
fn short_payloads_yield_no_event() {
    // Too short to carry a tag at all.
    let frame = parse_raw_data(&build_frame(0x01, 0x00, &[0x31])).unwrap();
    assert_eq!(parse_valid_frame(frame), Err(MessageError::TooShort));

    // Recognized tags, truncated payloads.
    let truncated: [&[u8]; 4] = [
        &[0x31, 0x38, 0x02, 0x35],
        &[0x33, 0x30, 0x35, b'1'],
        &[0x33, 0x31, 0x35],
        &[0x35, 0x30, 0x10, b'1'],
    ];
    for payload in truncated {
        let frame = parse_raw_data(&build_frame(0x01, 0x00, payload)).unwrap();
        assert_eq!(parse_valid_frame(frame), Err(MessageError::TooShort), "{payload:?}");
    }
}

#[test]
fn status_word_18_bits() {
    let w = StatusWord18::from_byte(0b0101_0111);
    assert!(w.clock_type);
    assert!(w.game_clock_off);
    assert!(w.horn_on);
    assert!(w.possession_in_tenth);
    assert!(w.new_match);
    assert!(!w.b7);

    let z = StatusWord18::from_byte(0);
    assert!(!z.clock_type && !z.game_clock_off && !z.horn_on);
    assert!(!z.possession_in_tenth && !z.new_match && !z.b7);
}

#[test]
fn status_word_50_bits() {
    let w = StatusWord50::from_byte(0b1001_1110);
    assert!(w.status_possession_timer);
    assert!(w.status_possession_horn);
    assert!(w.status_of_shot_clock);
    assert!(w.possession_timer_in_tenths);
    assert!(w.b7);

    let z = StatusWord50::from_byte(0b0110_0001);
    assert!(!z.status_possession_timer && !z.status_possession_horn);
    assert!(!z.status_of_shot_clock && !z.possession_timer_in_tenths && !z.b7);
}

#[test]
fn digit_values_and_scores() {
    assert_eq!(digit_value(b'0'), 0);
    assert_eq!(digit_value(b'9'), 9);
    assert_eq!(digit_value(b' '), 0);
    assert_eq!(digit_value(0xFF), 0);
    assert_eq!(score_value(b'1', b'2', b'0'), 120);
    assert_eq!(score_value(b'0', b'9', b'5'), 95);
    assert_eq!(score_value(b' ', b' ', b'7'), 7);
}
