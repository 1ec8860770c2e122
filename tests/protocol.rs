use traktor_kontrol_x1::{
    combine_be16, decode_read, hex2bin, is_x1, transfer_outcome, usb_error, Button, DeckButton, DeckEncoder, Encoder,
    FxButton, FxKnob, Knob, LedWriter, X1Error, X1State,
};

fn all_buttons() -> Vec<Button> {
    let mut v = vec![Button::Shift, Button::Hotcue];
    for fx in [FxButton::On, FxButton::Button1, FxButton::Button2, FxButton::Button3] {
        v.push(Button::FX1(fx));
        v.push(Button::FX2(fx));
    }
    let deck = [
        DeckButton::Browse,
        DeckButton::FX1,
        DeckButton::FX2,
        DeckButton::Loop,
        DeckButton::In,
        DeckButton::Out,
        DeckButton::BeatBackward,
        DeckButton::BeatForward,
        DeckButton::Cue,
        DeckButton::Cup,
        DeckButton::Play,
        DeckButton::Sync,
    ];
    for d in deck {
        v.push(Button::DeckA(d));
        v.push(Button::DeckB(d));
    }
    v
}

fn all_knobs() -> Vec<Knob> {
    let mut v = Vec::new();
    for k in [FxKnob::DryWet, FxKnob::Param1, FxKnob::Param2, FxKnob::Param3] {
        v.push(Knob::FX1(k));
        v.push(Knob::FX2(k));
    }
    v
}

#[test]
fn hex2bin_expands_every_byte_lsb_first() {
    for b in 0..=255u8 {
        let bits = hex2bin(b);
        for i in 0..8 {
            assert_eq!(bits[i], (b >> i) & 1);
        }
    }
    assert_eq!(hex2bin(0x10), [0, 0, 0, 0, 1, 0, 0, 0]);
    assert_eq!(hex2bin(0x81), [1, 0, 0, 0, 0, 0, 0, 1]);
}

#[test]
fn combine_be16_is_high_times_256_plus_low() {
    for high in 0..=255u8 {
        for low in 0..=255u8 {
            assert_eq!(combine_be16(high, low) as u32, high as u32 * 256 + low as u32);
        }
    }
    assert_eq!(combine_be16(0x01, 0x2c), 300);
    assert_eq!(combine_be16(0xff, 0xff), 65535);
}

#[test]
fn every_button_has_an_input_address() {
    let buttons = all_buttons();
    assert_eq!(buttons.len(), 34);
    let mut seen = Vec::new();
    for b in &buttons {
        let a = b.input_address();
        assert!(a.0 < 5 && a.1 < 8);
        assert!(!seen.contains(&a));
        seen.push(a);
    }
    assert_eq!(Button::Shift.input_address(), (4, 4));
    assert_eq!(Button::DeckA(DeckButton::Play).input_address(), (0, 0));
    assert_eq!(Button::DeckB(DeckButton::Sync).input_address(), (1, 7));
}

#[test]
fn single_status_bit_presses_exactly_its_button() {
    for group in 0..5usize {
        for bit in 0..8usize {
            let mut report = [0u8; 24];
            report[1 + group] = 1 << bit;
            let state = X1State::new(report);
            for b in all_buttons() {
                assert_eq!(state.is_button_pressed(b), b.input_address() == (group, bit));
            }
        }
    }
}

#[test]
fn unmapped_status_bit_presses_nothing() {
    let mut report = [0u8; 24];
    report[1] = 0x10;
    let state = X1State::new(report);
    assert!(!state.is_button_pressed(Button::DeckA(DeckButton::In)));
    for b in all_buttons() {
        assert!(!state.is_button_pressed(b));
    }
}

#[test]
fn knob_reads_its_big_endian_pair() {
    let mut report = [0u8; 24];
    report[16] = 0x01;
    report[17] = 0x2c;
    let state = X1State::new(report);
    assert_eq!(state.read_knob(Knob::FX1(FxKnob::DryWet)), 0x012c);
    assert_eq!(state.read_knob(Knob::FX1(FxKnob::DryWet)), 300);
    assert_eq!(state.read_knob(Knob::FX2(FxKnob::DryWet)), 0);
}

#[test]
fn every_knob_reads_its_own_bytes() {
    let mut report = [0u8; 24];
    for i in 0..24 {
        report[i] = i as u8;
    }
    let state = X1State::new(report);
    let expected = [(16, 17), (20, 21), (22, 23), (18, 19), (12, 13), (10, 11), (8, 9), (14, 15)];
    let knobs = [
        Knob::FX1(FxKnob::DryWet),
        Knob::FX1(FxKnob::Param1),
        Knob::FX1(FxKnob::Param2),
        Knob::FX1(FxKnob::Param3),
        Knob::FX2(FxKnob::DryWet),
        Knob::FX2(FxKnob::Param1),
        Knob::FX2(FxKnob::Param2),
        Knob::FX2(FxKnob::Param3),
    ];
    for (k, (h, l)) in knobs.iter().zip(expected.iter()) {
        assert_eq!(state.read_knob(*k), (*h as u16) * 256 + *l as u16);
    }
    assert_eq!(all_knobs().len(), 8);
}

#[test]
fn status_bytes_and_knobs_decode_together() {
    let mut report = [0u8; 24];
    report[1] = 0x01;
    report[5] = 0x90;
    report[8] = 0xff;
    report[9] = 0xff;
    let state = X1State::new(report);
    assert!(state.is_button_pressed(Button::DeckA(DeckButton::Play)));
    assert!(state.is_button_pressed(Button::Shift));
    assert!(state.is_button_pressed(Button::Hotcue));
    assert!(!state.is_button_pressed(Button::DeckA(DeckButton::Cue)));
    assert_eq!(state.read_knob(Knob::FX2(FxKnob::Param2)), 65535);
}

#[test]
fn encoders_are_not_decoded() {
    let state = X1State::new([0xffu8; 24]);
    assert!(state.read_encoder(Encoder::DeckA(DeckEncoder::Browse)).is_none());
    assert!(state.read_encoder(Encoder::DeckB(DeckEncoder::Loop)).is_none());
}

#[test]
fn empty_writer_encodes_only_the_tag() {
    let w = LedWriter::new();
    let r = w.encode();
    assert_eq!(r[0], 0x0c);
    assert!(r[1..].iter().all(|b| *b == 0));
}

#[test]
fn single_led_lands_at_its_offset() {
    for b in all_buttons() {
        let Some(offset) = b.led_address() else { continue };
        for v in [0u8, 1, 64, 127, 128, 200, 255] {
            let mut w = LedWriter::new();
            w.set_led(b, v);
            let r = w.encode();
            assert_eq!(r[0], 0x0c);
            assert_eq!(r[offset], v.min(127));
            for i in 1..32 {
                if i != offset {
                    assert_eq!(r[i], 0);
                }
            }
        }
    }
}

#[test]
fn led_offsets_match_the_table() {
    let mut seen = Vec::new();
    for b in all_buttons() {
        if let Some(o) = b.led_address() {
            assert!((1..=30).contains(&o));
            assert!(!seen.contains(&o));
            seen.push(o);
        }
    }
    assert_eq!(seen.len(), 30);
    assert_eq!(Button::Shift.led_address(), Some(29));
    assert_eq!(Button::Hotcue.led_address(), Some(30));
    assert_eq!(Button::FX2(FxButton::Button3).led_address(), Some(1));
    assert_eq!(Button::DeckB(DeckButton::Sync).led_address(), Some(9));
    assert_eq!(Button::DeckA(DeckButton::Browse).led_address(), None);
    assert_eq!(Button::DeckB(DeckButton::Loop).led_address(), None);
}

#[test]
fn shift_led_is_clamped() {
    let mut w = LedWriter::new();
    w.set_led(Button::Shift, 200);
    let r = w.encode();
    assert_eq!(r[29], 127);
}

#[test]
fn last_set_led_wins() {
    let mut twice = LedWriter::new();
    twice.set_led(Button::Hotcue, 10).set_led(Button::Hotcue, 90);
    let mut once = LedWriter::new();
    once.set_led(Button::Hotcue, 90);
    assert_eq!(twice.encode(), once.encode());
    assert_eq!(twice.encode()[30], 90);
}

#[test]
fn leds_without_an_address_are_skipped() {
    let mut w = LedWriter::new();
    w.set_led(Button::DeckA(DeckButton::Browse), 100)
        .set_led(Button::DeckB(DeckButton::Loop), 100)
        .set_led(Button::DeckA(DeckButton::Play), 50);
    let r = w.encode();
    let mut expected = [0u8; 32];
    expected[0] = 0x0c;
    expected[24] = 50;
    assert_eq!(r, expected);
}

#[test]
fn many_leds_encode_independently_of_order() {
    let mut a = LedWriter::new();
    let mut b = LedWriter::new();
    let buttons = all_buttons();
    for (i, btn) in buttons.iter().enumerate() {
        a.set_led(*btn, (i * 7) as u8);
    }
    for (i, btn) in buttons.iter().enumerate().rev() {
        b.set_led(*btn, (i * 7) as u8);
    }
    assert_eq!(a.encode(), b.encode());
}

#[test]
fn confirmation_timeout_is_reported_as_timeout() {
    let written = transfer_outcome(Ok(32));
    assert!(matches!(written, Ok(32)));
    let confirmed = transfer_outcome(Err(rusb::Error::Timeout));
    assert!(matches!(confirmed, Err(X1Error::Timeout)));
}

#[test]
fn other_transfer_errors_keep_their_cause() {
    assert!(matches!(
        transfer_outcome(Err(rusb::Error::Pipe)),
        Err(X1Error::Libusb(rusb::Error::Pipe))
    ));
    assert!(matches!(
        transfer_outcome(Err(rusb::Error::NoDevice)),
        Err(X1Error::Libusb(rusb::Error::NoDevice))
    ));
    assert!(matches!(transfer_outcome(Ok(1)), Ok(1)));
}

#[test]
fn device_filter_matches_only_the_x1() {
    assert!(is_x1(0x17cc, 0x2305));
    assert!(!is_x1(0x17cc, 0x2306));
    assert!(!is_x1(0x17cd, 0x2305));
    assert!(!is_x1(0, 0));
}

#[test]
fn usb_error_sorts_timeouts_from_other_causes() {
    assert!(matches!(usb_error(rusb::Error::Timeout), X1Error::Timeout));
    assert!(matches!(usb_error(rusb::Error::Io), X1Error::Libusb(rusb::Error::Io)));
    assert!(matches!(usb_error(rusb::Error::Access), X1Error::Libusb(rusb::Error::Access)));
}

#[test]
fn full_read_is_decoded() {
    let mut report = [0u8; 24];
    report[5] = 0x10;
    report[12] = 0x02;
    report[13] = 0x00;
    let state = decode_read(Ok(24), report).unwrap();
    assert!(state.is_button_pressed(Button::Shift));
    assert_eq!(state.read_knob(Knob::FX2(FxKnob::DryWet)), 512);
}

#[test]
fn short_read_is_an_error() {
    assert!(matches!(decode_read(Ok(10), [0u8; 24]), Err(X1Error::ShortReport(10))));
    assert!(matches!(decode_read(Ok(0), [0u8; 24]), Err(X1Error::ShortReport(0))));
}

#[test]
fn failed_read_keeps_its_cause() {
    assert!(matches!(decode_read(Err(rusb::Error::Timeout), [0u8; 24]), Err(X1Error::Timeout)));
    assert!(matches!(
        decode_read(Err(rusb::Error::NoDevice), [0u8; 24]),
        Err(X1Error::Libusb(rusb::Error::NoDevice))
    ));
}

#[test]
fn writer_from_pairs_keeps_the_last_of_each_button() {
    let pairs = [
        (Button::Shift, 10u8),
        (Button::Hotcue, 255u8),
        (Button::Shift, 60u8),
        (Button::DeckA(DeckButton::Loop), 90u8),
    ];
    let r = LedWriter::from_pairs(&pairs).encode();
    let mut expected = [0u8; 32];
    expected[0] = 0x0c;
    expected[29] = 60;
    expected[30] = 127;
    assert_eq!(r, expected);
}
