use maschine::button::MaschineButton;
use maschine::device::{button_report, pad_report, HwEvent, Light, Mikro, BUTTON_COUNT, PAD_COUNT};
use maschine::handler::{pack_rgb, MHandler, MidiMessage, OscArg, OscMessage, PAD_RELEASED_BRIGHTNESS};
use maschine::schedule::{plan_iteration, LoopStep};
use maschine::shaper::PressureShape;

fn handler() -> MHandler {
    MHandler {
        color: 0x994C00,
        pressure_shape: PressureShape::Exponential { num: 2, den: 5 },
        send_aftertouch: true,
    }
}

fn osc(path: &str, arguments: Vec<OscArg>) -> OscMessage {
    OscMessage { path: path.to_string(), arguments }
}

#[test]
fn osc_pad_sets_pad_light() {
    let h = handler();
    let mut d = Mikro::new();
    h.handle_osc_message(&mut d, &osc("/maschine/pad", vec![OscArg::Int(3), OscArg::Int(0xFF0000), OscArg::Float(500)]));
    assert_eq!(d.pad_light(3), Light { color: 0xFF0000, brightness: 500 });
    let r = d.write_lights();
    assert_eq!(&r[38..41], &[127, 0, 0]);
}

#[test]
fn osc_note_base_then_pad_press() {
    let h = handler();
    let mut d = Mikro::new();
    h.handle_osc_message(&mut d, &osc("/maschine/midi_note_base", vec![OscArg::Int(36)]));
    assert_eq!(d.get_midi_note_base(), 36);
    let m = h.pad_pressed(&mut d, 0, 4095);
    assert_eq!(m, MidiMessage::NoteOn { note: 48, velocity: 127 });
}

#[test]
fn group_c_sets_note_base_without_midi() {
    let h = handler();
    let mut d = Mikro::new();
    d.set_midi_note_base(0);
    let r = h.button_down(&mut d, MaschineButton::GroupC, 1);
    assert_eq!(r.midi, None);
    assert_eq!(d.get_midi_note_base(), 48);
    let o = r.osc.unwrap();
    assert_eq!(o.path, "/group_c");
    assert_eq!(o.arguments, vec![OscArg::Float(1000)]);
}

#[test]
fn unknown_osc_path_changes_nothing() {
    let h = handler();
    let mut d = Mikro::new();
    d.set_pad_light(2, 0x0000FF, 300);
    let lights = d.write_lights();
    let base = d.get_midi_note_base();
    for args in [vec![], vec![OscArg::Int(3), OscArg::Int(0xFF0000), OscArg::Float(500)], vec![OscArg::Int(36)], vec![OscArg::Unsupported]] {
        h.handle_osc_message(&mut d, &osc("/foo/bar", args));
    }
    assert_eq!(d.write_lights(), lights);
    assert_eq!(d.get_midi_note_base(), base);
}

#[test]
fn malformed_osc_commands_are_ignored() {
    let h = handler();
    let mut d = Mikro::new();
    let lights = d.write_lights();
    h.handle_osc_message(&mut d, &osc("/maschine/pad", vec![OscArg::Int(16), OscArg::Int(0xFF0000), OscArg::Float(500)]));
    h.handle_osc_message(&mut d, &osc("/maschine/pad", vec![OscArg::Int(-1), OscArg::Int(0xFF0000), OscArg::Float(500)]));
    h.handle_osc_message(&mut d, &osc("/maschine/pad", vec![OscArg::Int(3), OscArg::Float(1), OscArg::Float(500)]));
    h.handle_osc_message(&mut d, &osc("/maschine/pad", vec![OscArg::Int(3), OscArg::Int(1)]));
    h.handle_osc_message(&mut d, &osc("/maschine/button", vec![OscArg::Int(1)]));
    h.handle_osc_message(&mut d, &osc("/maschine/button/nonesuch", vec![OscArg::Int(1)]));
    h.handle_osc_message(&mut d, &osc("/maschine/button/play", vec![OscArg::Float(1), OscArg::Float(1)]));
    h.handle_osc_message(&mut d, &osc("/maschine/button/play", vec![OscArg::Unsupported]));
    h.handle_osc_message(&mut d, &osc("/maschine/midi_note_base", vec![OscArg::Float(36000)]));
    h.handle_osc_message(&mut d, &osc("/maschine/midi_note_base", vec![OscArg::Int(1), OscArg::Int(2)]));
    assert_eq!(d.write_lights(), lights);
    assert_eq!(d.get_midi_note_base(), 36);
}

#[test]
fn osc_button_light_commands() {
    let h = handler();
    let mut d = Mikro::new();
    h.handle_osc_message(&mut d, &osc("/maschine/button/play", vec![OscArg::Int(1)]));
    assert_eq!(d.button_light(MaschineButton::Play), Some(Light { color: 0xFFFFFF, brightness: 1000 }));
    h.handle_osc_message(&mut d, &osc("/maschine/button/stop", vec![OscArg::Float(250)]));
    assert_eq!(d.button_light(MaschineButton::Erase), Some(Light { color: 0xFFFFFF, brightness: 250 }));
    h.handle_osc_message(&mut d, &osc("/maschine/button/rec", vec![OscArg::Int(0x12345678), OscArg::Float(750)]));
    assert_eq!(d.button_light(MaschineButton::Rec), Some(Light { color: 0x345678, brightness: 750 }));
    h.handle_osc_message(&mut d, &osc("/maschine/button/A1", vec![OscArg::Int(1)]));
    assert_eq!(d.button_light(MaschineButton::A1), None);
    h.handle_osc_message(&mut d, &osc("/maschine/midi_note_base", vec![OscArg::Int(300)]));
    assert_eq!(d.get_midi_note_base(), 44);
}

#[test]
fn button_events_are_mirrored_over_osc() {
    let h = handler();
    let mut d = Mikro::new();
    let r = h.button_down(&mut d, MaschineButton::Play, 1);
    assert_eq!(r.midi, Some(MidiMessage::Rpn7 { index: 1, value: 1 }));
    let o = r.osc.unwrap();
    assert_eq!(o.path, "/play");
    assert_eq!(o.arguments, vec![OscArg::Float(1000)]);
    let r = h.button_up(&mut d, MaschineButton::Play, 0);
    assert_eq!(r.midi, None);
    let o = r.osc.unwrap();
    assert_eq!(o.path, "/play");
    assert_eq!(o.arguments, vec![OscArg::Float(0)]);
    let r = h.button_up(&mut d, MaschineButton::A8, 0);
    assert_eq!(r.midi, Some(MidiMessage::Rpn7 { index: 40, value: 0 }));
    assert_eq!(r.osc.unwrap().path, "/A8");
    let r = h.button_down(&mut d, MaschineButton::Swing, 9);
    assert_eq!(r.midi, None);
    assert_eq!(r.osc.unwrap().arguments, vec![OscArg::Float(9000)]);
    let r = h.button_down(&mut d, MaschineButton::FF7, 3);
    assert_eq!(r.midi, Some(MidiMessage::Rpn7 { index: 43, value: 3 }));
    assert_eq!(r.osc.unwrap().path, "/FF7");
    assert_eq!(d.get_midi_note_base(), 36);
}

#[test]
fn pads_play_notes_and_light_up() {
    let h = handler();
    let mut d = Mikro::new();
    d.set_midi_note_base(36);
    assert_eq!(h.pad_pressed(&mut d, 12, 1024), MidiMessage::NoteOn { note: 36, velocity: 73 });
    assert_eq!(d.pad_light(12), Light { color: 0x994C00, brightness: 500 });
    assert_eq!(h.pad_pressed(&mut d, 5, 2048), MidiMessage::NoteOn { note: 45, velocity: 96 });
    assert_eq!(h.pad_released(&mut d, 12), MidiMessage::NoteOff { note: 36, velocity: 0 });
    assert_eq!(d.pad_light(12), Light { color: 0x994C00, brightness: PAD_RELEASED_BRIGHTNESS });
    d.set_midi_note_base(120);
    assert_eq!(h.pad_released(&mut d, 3), MidiMessage::NoteOff { note: 7, velocity: 0 });
}

#[test]
fn aftertouch_follows_settings() {
    let mut h = handler();
    let mut d = Mikro::new();
    assert_eq!(h.pad_aftertouch(&mut d, 1, 4095), Some(MidiMessage::PolyphonicPressure { note: 49, pressure: 127 }));
    assert_eq!(d.pad_light(1), Light { color: 0x994C00, brightness: 1000 });
    h.send_aftertouch = false;
    let before = d.write_lights();
    assert_eq!(h.pad_aftertouch(&mut d, 2, 4095), None);
    assert_eq!(d.write_lights(), before);
    h.send_aftertouch = true;
    h.pressure_shape = PressureShape::Constant(4095);
    assert_eq!(h.pad_aftertouch(&mut d, 2, 4095), None);
    assert_eq!(d.write_lights(), before);
    assert_eq!(h.pad_aftertouch(&mut d, 99, 9999), None);
    assert_eq!(d.write_lights(), before);
    assert_eq!(h.pad_pressed(&mut d, 2, 1), MidiMessage::NoteOn { note: 50, velocity: 127 });
}

#[test]
fn decoded_press_and_release_reach_midi() {
    let h = handler();
    let mut d = Mikro::new();
    let mut p = vec![0u16; PAD_COUNT];
    p[0] = 4095;
    let ev = d.decode_report(&pad_report(&p)).unwrap();
    assert_eq!(ev.len(), 1);
    let r = h.handle_event(&mut d, ev[0]);
    assert_eq!(r.midi, Some(MidiMessage::NoteOn { note: 48, velocity: 127 }));
    assert!(r.osc.is_none());
    p[0] = 0;
    let ev = d.decode_report(&pad_report(&p)).unwrap();
    let r = h.handle_event(&mut d, ev[0]);
    assert_eq!(r.midi, Some(MidiMessage::NoteOff { note: 48, velocity: 0 }));
}

#[test]
fn decoded_buttons_and_encoder_reach_osc() {
    let h = handler();
    let mut d = Mikro::new();
    let mut b = vec![0u8; BUTTON_COUNT];
    b[4] = 1;
    d.decode_report(&button_report(&b, 10)).unwrap();
    let ev = d.decode_report(&button_report(&b, 13)).unwrap();
    assert_eq!(ev, vec![HwEvent::EncoderStep { encoder: 0, delta: 3 }]);
    let r = h.handle_event(&mut d, ev[0]);
    assert_eq!(r.midi, None);
    let o = r.osc.unwrap();
    assert_eq!(o.path, "/maschine/encoder");
    assert_eq!(o.arguments, vec![OscArg::Int(3)]);
    let o = h.encoder_step(0, -2);
    assert_eq!(o.arguments, vec![OscArg::Int(-2)]);
}

#[test]
fn out_of_range_events_are_ignored() {
    let h = handler();
    let mut d = Mikro::new();
    let before = d.write_lights();
    let r = h.handle_event(&mut d, HwEvent::PadPressed { pad: 16, pressure: 5 });
    assert!(r.midi.is_none() && r.osc.is_none());
    let r = h.handle_event(&mut d, HwEvent::PadAftertouch { pad: 1, pressure: 5000 });
    assert!(r.midi.is_none() && r.osc.is_none());
    assert_eq!(d.write_lights(), before);
}

#[test]
fn idle_pads_glow() {
    let h = handler();
    let mut d = Mikro::new();
    let mut p = vec![0u16; PAD_COUNT];
    p[6] = 1024;
    d.decode_report(&pad_report(&p)).unwrap();
    h.update_pad_colors(&mut d);
    assert_eq!(d.pad_light(0), Light { color: 0x994C00, brightness: 15 });
    assert_eq!(d.pad_light(6), Light { color: 0x994C00, brightness: 500 });
}

#[test]
fn rgb_packing() {
    assert_eq!(pack_rgb(0x99, 0x4C, 0x00), 0x994C00);
    assert_eq!(pack_rgb(0xFF, 0xFF, 0xFF), 0xFFFFFF);
    let h = handler();
    assert_eq!(h.pad_color(), 0x994C00);
}

#[test]
fn loop_plan() {
    assert_eq!(plan_iteration(true, false, 3), LoopStep { read_device: true, read_osc: false, flush_lights: false });
    assert_eq!(plan_iteration(false, true, 16), LoopStep { read_device: false, read_osc: true, flush_lights: true });
    assert_eq!(plan_iteration(false, false, 15).flush_lights, false);
}
