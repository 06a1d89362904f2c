use maschine::button::MaschineButton;
use maschine::device::{
    button_report, pad_report, DecodeError, HwEvent, Light, Mikro, NoSuchPad, BUTTON_COUNT,
    DEFAULT_NOTE_BASE, LIGHT_REPORT_ID, LIGHT_REPORT_LEN, PAD_COUNT, SCREEN_BYTES,
    SCREEN_REPORT_ID,
};

fn pads_with(values: &[(usize, u16)]) -> Vec<u8> {
    let mut p = vec![0u16; PAD_COUNT];
    for &(i, v) in values {
        p[i] = v;
    }
    pad_report(&p)
}

fn buttons_with(values: &[(usize, u8)], encoder: u8) -> Vec<u8> {
    let mut b = vec![0u8; BUTTON_COUNT];
    for &(i, v) in values {
        b[i] = v;
    }
    button_report(&b, encoder)
}

#[test]
fn press_then_release_gives_one_event_each() {
    for i in 0..PAD_COUNT {
        let mut d = Mikro::new();
        let ev = d.decode_report(&pads_with(&[(i, 1234)])).unwrap();
        assert_eq!(ev, vec![HwEvent::PadPressed { pad: i, pressure: 1234 }]);
        assert_eq!(d.get_pad_pressure(i), Ok(1234));
        let ev = d.decode_report(&pads_with(&[])).unwrap();
        assert_eq!(ev, vec![HwEvent::PadReleased { pad: i }]);
        assert_eq!(d.get_pad_pressure(i), Ok(0));
    }
}

#[test]
fn aftertouch_needs_a_material_change() {
    let mut d = Mikro::new();
    d.decode_report(&pads_with(&[(5, 1000)])).unwrap();
    assert_eq!(d.decode_report(&pads_with(&[(5, 1010)])).unwrap(), vec![]);
    assert_eq!(d.get_pad_pressure(5), Ok(1000));
    assert_eq!(
        d.decode_report(&pads_with(&[(5, 1032)])).unwrap(),
        vec![HwEvent::PadAftertouch { pad: 5, pressure: 1032 }]
    );
    assert_eq!(
        d.decode_report(&pads_with(&[(5, 900)])).unwrap(),
        vec![HwEvent::PadAftertouch { pad: 5, pressure: 900 }]
    );
}

#[test]
fn pad_events_come_in_pad_order() {
    let mut d = Mikro::new();
    d.decode_report(&pads_with(&[(9, 500)])).unwrap();
    let ev = d.decode_report(&pads_with(&[(2, 7), (15, 4095)])).unwrap();
    assert_eq!(
        ev,
        vec![
            HwEvent::PadPressed { pad: 2, pressure: 7 },
            HwEvent::PadReleased { pad: 9 },
            HwEvent::PadPressed { pad: 15, pressure: 4095 },
        ]
    );
}

#[test]
fn pad_pressure_keeps_twelve_bits() {
    let mut r = pads_with(&[]);
    r[1] = 0x34;
    r[2] = 0xF2;
    let mut d = Mikro::new();
    assert_eq!(d.decode_report(&r).unwrap(), vec![HwEvent::PadPressed { pad: 0, pressure: 0x234 }]);
}

#[test]
fn pad_report_layout() {
    let r = pads_with(&[(0, 0x0ABC), (15, 4095)]);
    assert_eq!(r.len(), 33);
    assert_eq!(r[0], 0x20);
    assert_eq!(&r[1..3], &[0xBC, 0x0A]);
    assert_eq!(&r[31..33], &[0xFF, 0x0F]);
}

#[test]
fn buttons_pass_raw_bytes() {
    let mut d = Mikro::new();
    let ev = d.decode_report(&buttons_with(&[(4, 0x7F), (27, 1)], 0)).unwrap();
    assert_eq!(
        ev,
        vec![
            HwEvent::ButtonDown { button: MaschineButton::Play, value: 0x7F },
            HwEvent::ButtonDown { button: MaschineButton::Mute, value: 1 },
        ]
    );
    assert_eq!(d.decode_report(&buttons_with(&[(4, 0x20), (27, 1)], 0)).unwrap(), vec![]);
    let ev = d.decode_report(&buttons_with(&[(27, 1)], 0)).unwrap();
    assert_eq!(ev, vec![HwEvent::ButtonUp { button: MaschineButton::Play, value: 0 }]);
}

#[test]
fn encoder_steps_wrap() {
    let mut d = Mikro::new();
    assert_eq!(d.decode_report(&buttons_with(&[], 250)).unwrap(), vec![]);
    assert_eq!(
        d.decode_report(&buttons_with(&[], 3)).unwrap(),
        vec![HwEvent::EncoderStep { encoder: 0, delta: 9 }]
    );
    assert_eq!(
        d.decode_report(&buttons_with(&[], 250)).unwrap(),
        vec![HwEvent::EncoderStep { encoder: 0, delta: -9 }]
    );
    assert_eq!(d.decode_report(&buttons_with(&[], 250)).unwrap(), vec![]);
    assert_eq!(
        d.decode_report(&buttons_with(&[], 122)).unwrap(),
        vec![HwEvent::EncoderStep { encoder: 0, delta: -128 }]
    );
}

#[test]
fn round_trip_of_synthetic_reports() {
    let mut d = Mikro::new();
    let ev = d.decode_report(&buttons_with(&[(0, 9), (11, 200)], 17)).unwrap();
    assert_eq!(
        ev,
        vec![
            HwEvent::ButtonDown { button: MaschineButton::Restart, value: 9 },
            HwEvent::ButtonDown { button: MaschineButton::Encoder, value: 200 },
        ]
    );
    let ev = d.decode_report(&buttons_with(&[(0, 9), (11, 200)], 12)).unwrap();
    assert_eq!(ev, vec![HwEvent::EncoderStep { encoder: 0, delta: -5 }]);
    let ev = d.decode_report(&pads_with(&[(3, 1), (7, 2222)])).unwrap();
    assert_eq!(
        ev,
        vec![
            HwEvent::PadPressed { pad: 3, pressure: 1 },
            HwEvent::PadPressed { pad: 7, pressure: 2222 },
        ]
    );
}

#[test]
fn bad_reports_are_dropped() {
    let mut d = Mikro::new();
    d.decode_report(&pads_with(&[(1, 100)])).unwrap();
    let before = d.write_lights();
    assert_eq!(d.decode_report(&[]), Err(DecodeError::Empty));
    assert_eq!(d.decode_report(&[0x42, 1, 2]), Err(DecodeError::UnknownReport(0x42)));
    let short = &pads_with(&[])[..32];
    assert_eq!(d.decode_report(short), Err(DecodeError::ShortReport { expected: 33, got: 32 }));
    let short = &buttons_with(&[(0, 1)], 0)[..29];
    assert_eq!(d.decode_report(short), Err(DecodeError::ShortReport { expected: 30, got: 29 }));
    assert_eq!(d.get_pad_pressure(1), Ok(100));
    assert_eq!(d.write_lights(), before);
    let ev = d.decode_report(&buttons_with(&[(0, 1)], 0)).unwrap();
    assert_eq!(ev, vec![HwEvent::ButtonDown { button: MaschineButton::Restart, value: 1 }]);
}

#[test]
fn pad_pressure_out_of_range() {
    let d = Mikro::new();
    assert_eq!(d.get_pad_pressure(15), Ok(0));
    assert_eq!(d.get_pad_pressure(16), Err(NoSuchPad));
}

#[test]
fn flush_twice_gives_identical_reports() {
    let mut d = Mikro::new();
    d.set_pad_light(3, 0x123456, 700);
    d.set_button_light(MaschineButton::Shift, 0xFFFFFF, 250);
    let a = d.write_lights();
    let b = d.write_lights();
    assert_eq!(a, b);
    d.set_midi_note_base(60);
    d.decode_report(&pads_with(&[(2, 300)])).unwrap();
    assert_eq!(d.write_lights(), a);
}

#[test]
fn light_report_layout() {
    let mut d = Mikro::new();
    d.set_pad_light(3, 0xFF8001, 500);
    d.set_pad_light(15, 0x00FF00, 2000);
    d.set_pad_light(0, 0xFFFFFF, -5);
    d.set_button_light(MaschineButton::Mute, 0xFFFFFF, 1000);
    d.set_button_light(MaschineButton::GroupA, 0xFFFFFF, 1000);
    let r = d.write_lights();
    assert_eq!(r.len(), LIGHT_REPORT_LEN);
    assert_eq!(r[0], LIGHT_REPORT_ID);
    assert_eq!(r[28], 255);
    assert_eq!(&r[29..32], &[0, 0, 0]);
    assert_eq!(&r[38..41], &[127, 64, 0]);
    assert_eq!(&r[74..77], &[0, 255, 0]);
    assert_eq!(r.iter().filter(|&&x| x != 0).count(), 5);
    assert_eq!(d.button_light(MaschineButton::GroupA), None);
    assert_eq!(d.button_light(MaschineButton::Mute), Some(Light { color: 0xFFFFFF, brightness: 1000 }));
    assert_eq!(d.pad_light(15), Light { color: 0x00FF00, brightness: 2000 });
}

#[test]
fn fresh_device_and_screen() {
    let mut d = Mikro::new();
    assert_eq!(d.get_midi_note_base(), DEFAULT_NOTE_BASE);
    d.clear_screen();
    let s = d.write_screen();
    assert_eq!(s.len(), 1 + SCREEN_BYTES);
    assert_eq!(s[0], SCREEN_REPORT_ID);
    assert!(s[1..].iter().all(|&x| x == 0));
    assert!(d.write_lights()[1..].iter().all(|&x| x == 0));
}
