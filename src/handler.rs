//! The translator between hardware events, MIDI and OSC.
//!
//! Nothing here performs I/O: each handler returns the MIDI message and the
//! OSC message that the event calls for, and the caller sends them. OSC
//! floats are carried as thousandths.
use vstd::prelude::*;
use crate::button::{
    btn_to_osc_button_map,
    button_action,
    button_for_name,
    button_name,
    midi_action,
    osc_button_to_btn_map,
    ButtonAction,
    MaschineButton,
};
use crate::device::{
    button_event,
    button_events,
    opt_seq,
    pad_event,
    decode,
    pad_events,
    report_buttons,
    report_pressures,
    with_button_light,
    with_note_base,
    with_pad_light,
    HwEvent,
    Mikro,
    MikroView,
    BUTTON_COUNT,
    PAD_COUNT,
    PAD_REPORT_ID,
};
use crate::shaper::{shape_pressure, shaped_value, PressureShape, PRESSURE_MAX};
use crate::text::{has_prefix, starts_with};

verus! {

/// The brightness of a released pad, in thousandths: a dim idle glow.
pub const PAD_RELEASED_BRIGHTNESS: i64 = 15;

/// A full brightness, in thousandths.
pub const FULL_BRIGHTNESS: i64 = 1000;

/// A MIDI message on channel 1.
#[derive(Clone, Copy, PartialEq, Eq, Structural, Debug)]
pub enum MidiMessage {
    NoteOn { note: u8, velocity: u8 },
    NoteOff { note: u8, velocity: u8 },
    PolyphonicPressure { note: u8, pressure: u8 },
    Rpn7 { index: u16, value: u8 },
}

/// An OSC argument; a float is carried as thousandths.
#[derive(Clone, Copy, PartialEq, Eq, Structural, Debug)]
pub enum OscArg {
    Int(i32),
    Float(i64),
    Unsupported,
}

/// An OSC message: an address and its arguments.
pub struct OscMessage {
    pub path: String,
    pub arguments: Vec<OscArg>,
}

/// What one hardware event sends out.
pub struct Reply {
    pub midi: Option<MidiMessage>,
    pub osc: Option<OscMessage>,
}

/// Whether an OSC message has this address and these arguments.
pub open spec fn osc_is(m: OscMessage, path: Seq<char>, args: Seq<OscArg>) -> bool {
    m.path@ == path && m.arguments@ == args
}

/// Whether a reply holds no OSC message, or exactly this one.
pub open spec fn reply_osc_is(o: Option<OscMessage>, path: Seq<char>, args: Seq<OscArg>) -> bool {
    match o {
        Some(m) => osc_is(m, path, args),
        None => false,
    }
}

/// The note offset of each pad: the bottom row plays the lowest notes.
pub open spec fn pad_note_offset(pad: int) -> int {
    4 * (3 - pad / 4) + pad % 4
}

/// The MIDI note of a pad, kept to seven bits.
pub open spec fn pad_note(base: u8, pad: int) -> u8 {
    ((base + pad_note_offset(pad)) % 128) as u8
}

/// The largest level `s <= n` whose square, in thousandths, is at most the
/// pressure `p`; from `n = 1000` it is `floor(1000 * sqrt(p / PRESSURE_MAX))`.
pub open spec fn sqrt_level_from(n: int, p: int) -> int
    decreases n,
{
    if n <= 0 {
        0
    } else if n * n * PRESSURE_MAX <= p * 1_000_000 {
        n
    } else {
        sqrt_level_from(n - 1, p)
    }
}

/// The brightness of a pad held at pressure `p`: its square root.
pub open spec fn pressed_brightness(p: int) -> i64 {
    sqrt_level_from(FULL_BRIGHTNESS as int, p) as i64
}

/// The brightness that a pad shows at its last pressure.
pub open spec fn idle_or_pressed(p: u16) -> i64 {
    if p == 0 {
        PAD_RELEASED_BRIGHTNESS
    } else {
        pressed_brightness(p as int)
    }
}

/// The MIDI controller message of a button, if its role and `status` call
/// for one.
pub open spec fn button_midi(b: MaschineButton, status: u8) -> Option<MidiMessage> {
    match button_action(b) {
        ButtonAction::Controller { index, down_only } => if !down_only || status > 0 {
            Some(MidiMessage::Rpn7 { index, value: status })
        } else {
            None
        },
        _ => None,
    }
}

/// A device state after a button's event.
pub open spec fn button_effect(d: MikroView, b: MaschineButton) -> MikroView {
    match button_action(b) {
        ButtonAction::NoteBase(n) => with_note_base(d, n),
        _ => d,
    }
}

/// The address at which a button's events are mirrored.
pub open spec fn button_path(b: MaschineButton) -> Seq<char> {
    seq!['/'] + button_name(b)
}

/// A brightness given as an OSC argument, in thousandths.
pub open spec fn arg_brightness(a: OscArg) -> Option<i64> {
    match a {
        OscArg::Int(v) => Some((v * 1000) as i64),
        OscArg::Float(m) => Some(m),
        OscArg::Unsupported => None,
    }
}

/// A colour given as an OSC integer, kept to 24 bits.
pub open spec fn arg_color(c: i32) -> u32 {
    ((c as u32) % 0x1000000) as u32
}

/// What `/maschine/button/<name>` does to a device.
pub open spec fn button_command(d: MikroView, name: Seq<char>, args: Seq<OscArg>) -> MikroView {
    match button_for_name(name) {
        None => d,
        Some(b) => if args.len() == 1 {
            match arg_brightness(args[0]) {
                Some(m) => with_button_light(d, b, 0xFFFFFF, m),
                None => d,
            }
        } else if args.len() == 2 {
            match (args[0], args[1]) {
                (OscArg::Int(c), OscArg::Float(m)) => with_button_light(d, b, arg_color(c), m),
                _ => d,
            }
        } else {
            d
        },
    }
}

/// What `/maschine/pad` does to a device.
pub open spec fn pad_command(d: MikroView, args: Seq<OscArg>) -> MikroView {
    if args.len() == 3 {
        match (args[0], args[1], args[2]) {
            (OscArg::Int(pad), OscArg::Int(c), OscArg::Float(m)) => if 0 <= pad < PAD_COUNT {
                with_pad_light(d, pad as int, arg_color(c), m)
            } else {
                d
            },
            _ => d,
        }
    } else {
        d
    }
}

/// What `/maschine/midi_note_base` does to a device.
pub open spec fn note_base_command(d: MikroView, args: Seq<OscArg>) -> MikroView {
    if args.len() == 1 {
        match args[0] {
            OscArg::Int(n) => with_note_base(d, n as u8),
            _ => d,
        }
    } else {
        d
    }
}

/// What an inbound OSC message does to a device; anything that does not
/// fit one of the three commands is ignored.
pub open spec fn osc_effect(d: MikroView, path: Seq<char>, args: Seq<OscArg>) -> MikroView {
    if has_prefix(path, "/maschine/button"@) {
        if path.len() >= 17 {
            button_command(d, path.subrange(17, path.len() as int), args)
        } else {
            d
        }
    } else if has_prefix(path, "/maschine/pad"@) {
        pad_command(d, args)
    } else if has_prefix(path, "/maschine/midi_note_base"@) {
        note_base_command(d, args)
    } else {
        d
    }
}

/// Whether held pads send polyphonic pressure: never under a constant curve.
pub open spec fn aftertouch_enabled(h: MHandler) -> bool {
    h.send_aftertouch && !(h.pressure_shape is Constant)
}

/// The velocity, or pressure, that a handler gives to pad pressure `p`.
pub open spec fn velocity_of(h: MHandler, p: u16) -> u8 {
    shaped_value(h.pressure_shape, p as int) as u8
}

/// A constant curve sends no aftertouch, whatever the other settings.
pub proof fn lemma_constant_shape_mutes_aftertouch(h: MHandler)
    requires
        h.pressure_shape is Constant,
    ensures
        !aftertouch_enabled(h),
{
}

/// Whether an event's pad and pressure are in range.
pub open spec fn event_in_range(ev: HwEvent) -> bool {
    match ev {
        HwEvent::PadPressed { pad, pressure } => pad < PAD_COUNT && pressure <= PRESSURE_MAX,
        HwEvent::PadAftertouch { pad, pressure } => pad < PAD_COUNT && pressure <= PRESSURE_MAX,
        HwEvent::PadReleased { pad } => pad < PAD_COUNT,
        _ => true,
    }
}

/// An inbound message whose address lies outside `/maschine/` changes
/// nothing, whatever its arguments.
pub proof fn lemma_foreign_path_ignored(d: MikroView, path: Seq<char>, args: Seq<OscArg>)
    requires
        !has_prefix(path, "/maschine/"@),
    ensures
        osc_effect(d, path, args) == d,
{
    reveal_strlit("/maschine/");
    reveal_strlit("/maschine/button");
    reveal_strlit("/maschine/pad");
    reveal_strlit("/maschine/midi_note_base");
    let short = "/maschine/"@;
    assert forall|q: Seq<char>|
        q.len() >= 10 && #[trigger] q.subrange(0, 10) == short && has_prefix(path, q) implies has_prefix(
        path,
        short,
    ) by {
        assert(path.subrange(0, 10) =~= path.subrange(0, q.len() as int).subrange(0, 10));
    }
    assert("/maschine/button"@.subrange(0, 10) =~= short);
    assert("/maschine/pad"@.subrange(0, 10) =~= short);
    assert("/maschine/midi_note_base"@.subrange(0, 10) =~= short);
}

proof fn lemma_pad_events_in_range(prev: Seq<u16>, cur: Seq<u16>, n: nat)
    requires
        n <= PAD_COUNT,
        forall|i: int| 0 <= i < n ==> #[trigger] cur[i] <= PRESSURE_MAX,
    ensures
        forall|k: int|
            0 <= k < pad_events(prev, cur, n).len() ==> event_in_range(
                #[trigger] pad_events(prev, cur, n)[k],
            ),
    decreases n,
{
    if n > 0 {
        let m = (n - 1) as nat;
        lemma_pad_events_in_range(prev, cur, m);
        let a = pad_events(prev, cur, m);
        let b = opt_seq(pad_event(m as int, prev[m as int], cur[m as int]));
        assert(pad_events(prev, cur, n) == a + b);
        assert forall|k: int| 0 <= k < (a + b).len() implies event_in_range(#[trigger] (a + b)[k]) by {
            if k >= a.len() {
                assert((a + b)[k] == b[k - a.len()]);
            } else {
                assert((a + b)[k] == a[k]);
            }
        }
    }
}

proof fn lemma_button_events_in_range(prev: Seq<u8>, cur: Seq<u8>, n: nat)
    ensures
        forall|k: int|
            0 <= k < button_events(prev, cur, n).len() ==> event_in_range(
                #[trigger] button_events(prev, cur, n)[k],
            ),
    decreases n,
{
    if n > 0 {
        let m = (n - 1) as nat;
        lemma_button_events_in_range(prev, cur, m);
        let a = button_events(prev, cur, m);
        let b = opt_seq(button_event(m as int, prev[m as int], cur[m as int]));
        assert(button_events(prev, cur, n) == a + b);
        assert forall|k: int| 0 <= k < (a + b).len() implies event_in_range(#[trigger] (a + b)[k]) by {
            if k >= a.len() {
                assert((a + b)[k] == b[k - a.len()]);
            } else {
                assert((a + b)[k] == a[k]);
            }
        }
    }
}

/// Every event that decoding yields is in range, so `handle_event` acts on
/// each of them.
pub proof fn lemma_decoded_events_in_range(d: MikroView, r: Seq<u8>)
    requires
        d.wf(),
        decode(d, r) is Ok,
    ensures
        forall|k: int|
            0 <= k < decode(d, r)->Ok_0.0.len() ==> event_in_range(
                #[trigger] decode(d, r)->Ok_0.0[k],
            ),
{
    if r[0] == PAD_REPORT_ID {
        let cur = report_pressures(r);
        assert forall|i: int| 0 <= i < PAD_COUNT implies #[trigger] cur[i] <= PRESSURE_MAX by {
            assert(r[1 + 2 * i] + (r[2 + 2 * i] % 16) * 256 <= 4095);
        }
        lemma_pad_events_in_range(d.pads, cur, PAD_COUNT as nat);
    } else {
        let cur = report_buttons(r);
        lemma_button_events_in_range(d.buttons, cur, BUTTON_COUNT as nat);
    }
}

/// Packs 8-bit red, green and blue into `0xRRGGBB`.
pub fn pack_rgb(r: u8, g: u8, b: u8) -> (c: u32)
    ensures
        c == r as int * 0x10000 + g as int * 0x100 + b as int,
{
    r as u32 * 0x10000 + g as u32 * 0x100 + b as u32
}

/// The translator's settings.
pub struct MHandler {
    /// The colour of the pads, `0xRRGGBB`.
    pub color: u32,
    pub pressure_shape: PressureShape,
    /// Whether held pads send polyphonic pressure.
    pub send_aftertouch: bool,
}

fn pad_note_exec(base: u8, pad: usize) -> (r: u8)
    requires
        pad < PAD_COUNT,
    ensures
        r == pad_note(base, pad as int),
{
    let off: u32 = 4 * (3 - pad as u32 / 4) + pad as u32 % 4;
    ((base as u32 + off) % 128) as u8
}

fn pressed_brightness_exec(p: u16) -> (r: i64)
    requires
        p <= PRESSURE_MAX,
    ensures
        r == pressed_brightness(p as int),
{
    let mut n: u64 = FULL_BRIGHTNESS as u64;
    while n > 0
        invariant
            n <= 1000,
            p <= PRESSURE_MAX,
            sqrt_level_from(FULL_BRIGHTNESS as int, p as int) == sqrt_level_from(n as int, p as int),
        decreases n,
    {
        assert(n * n <= 1000 * 1000) by (nonlinear_arith)
            requires
                n <= 1000,
        ;
        if n * n * (PRESSURE_MAX as u64) <= (p as u64) * 1_000_000 {
            return n as i64;
        }
        n = n - 1;
    }
    0
}

impl MHandler {
    pub open spec fn wf(&self) -> bool {
        self.pressure_shape.wf()
    }

    /// The colour of the pads.
    pub fn pad_color(&self) -> (r: u32)
        ensures
            r == self.color,
    {
        self.color
    }

    /// The velocity that a pad pressure gives.
    pub fn pressure_to_vel(&self, pressure: u16) -> (r: u8)
        requires
            self.wf(),
            pressure <= PRESSURE_MAX,
        ensures
            r as int == shaped_value(self.pressure_shape, pressure as int),
            r <= 127,
    {
        shape_pressure(&self.pressure_shape, pressure)
    }

    /// Lights every pad at the brightness of its last pressure.
    pub fn update_pad_colors(&self, maschine: &mut Mikro)
        requires
            old(maschine).wf(),
        ensures
            final(maschine).wf(),
            final(maschine)@ == (MikroView {
                pad_lights: Seq::new(
                    PAD_COUNT as nat,
                    |i: int|
                        crate::device::Light {
                            color: self.color,
                            brightness: idle_or_pressed(old(maschine)@.pads[i]),
                        },
                ),
                ..old(maschine)@
            }),
    {
        let ghost d = maschine@;
        let mut i: usize = 0;
        while i < PAD_COUNT
            invariant
                i <= PAD_COUNT,
                maschine.wf(),
                maschine@ == (MikroView { pad_lights: maschine@.pad_lights, ..d }),
                forall|k: int|
                    0 <= k < PAD_COUNT ==> #[trigger] maschine@.pad_lights[k] == if k < i {
                        crate::device::Light {
                            color: self.color,
                            brightness: idle_or_pressed(d.pads[k]),
                        }
                    } else {
                        d.pad_lights[k]
                    },
            decreases PAD_COUNT - i,
        {
            let p = match maschine.get_pad_pressure(i) {
                Ok(p) => p,
                Err(_) => 0,
            };
            let brightness = if p == 0 {
                PAD_RELEASED_BRIGHTNESS
            } else {
                pressed_brightness_exec(p)
            };
            maschine.set_pad_light(i, self.color, brightness);
            i = i + 1;
        }
        assert(maschine@.pad_lights =~= Seq::new(
            PAD_COUNT as nat,
            |i: int|
                crate::device::Light {
                    color: self.color,
                    brightness: idle_or_pressed(d.pads[i]),
                },
        ));
    }

    /// A pad was pressed: a note on at the shaped velocity, and the pad lit
    /// at the square root of its pressure.
    pub fn pad_pressed(&self, maschine: &mut Mikro, pad_idx: usize, pressure: u16) -> (r:
        MidiMessage)
        requires
            self.wf(),
            old(maschine).wf(),
            pad_idx < PAD_COUNT,
            pressure <= PRESSURE_MAX,
        ensures
            final(maschine).wf(),
            r == (MidiMessage::NoteOn {
                note: pad_note(old(maschine)@.note_base, pad_idx as int),
                velocity: velocity_of(*self, pressure),
            }),
            final(maschine)@ == with_pad_light(
                old(maschine)@,
                pad_idx as int,
                self.color,
                pressed_brightness(pressure as int),
            ),
    {
        let note = pad_note_exec(maschine.get_midi_note_base(), pad_idx);
        let velocity = self.pressure_to_vel(pressure);
        maschine.set_pad_light(pad_idx, self.pad_color(), pressed_brightness_exec(pressure));
        MidiMessage::NoteOn { note, velocity }
    }

    /// A held pad's pressure changed: polyphonic pressure and a relit pad,
    /// unless aftertouch is off or the curve is constant.
    pub fn pad_aftertouch(&self, maschine: &mut Mikro, pad_idx: usize, pressure: u16) -> (r:
        Option<MidiMessage>)
        requires
            self.wf(),
            old(maschine).wf(),
            aftertouch_enabled(*self) ==> pad_idx < PAD_COUNT && pressure <= PRESSURE_MAX,
        ensures
            final(maschine).wf(),
            aftertouch_enabled(*self) ==> r == Some(
                MidiMessage::PolyphonicPressure {
                    note: pad_note(old(maschine)@.note_base, pad_idx as int),
                    pressure: velocity_of(*self, pressure),
                },
            ) && final(maschine)@ == with_pad_light(
                old(maschine)@,
                pad_idx as int,
                self.color,
                pressed_brightness(pressure as int),
            ),
            !aftertouch_enabled(*self) ==> r is None && final(maschine)@ == old(maschine)@,
    {
        if let PressureShape::Constant(_) = self.pressure_shape {
            return None;
        }
        if !self.send_aftertouch {
            return None;
        }
        let note = pad_note_exec(maschine.get_midi_note_base(), pad_idx);
        let value = self.pressure_to_vel(pressure);
        maschine.set_pad_light(pad_idx, self.pad_color(), pressed_brightness_exec(pressure));
        Some(MidiMessage::PolyphonicPressure { note, pressure: value })
    }

    /// A pad was released: a note off at velocity zero, and the pad dimmed
    /// to its idle glow.
    pub fn pad_released(&self, maschine: &mut Mikro, pad_idx: usize) -> (r: MidiMessage)
        requires
            old(maschine).wf(),
            pad_idx < PAD_COUNT,
        ensures
            final(maschine).wf(),
            r == (MidiMessage::NoteOff {
                note: pad_note(old(maschine)@.note_base, pad_idx as int),
                velocity: 0,
            }),
            final(maschine)@ == with_pad_light(
                old(maschine)@,
                pad_idx as int,
                self.color,
                PAD_RELEASED_BRIGHTNESS,
            ),
    {
        let note = pad_note_exec(maschine.get_midi_note_base(), pad_idx);
        maschine.set_pad_light(pad_idx, self.pad_color(), PAD_RELEASED_BRIGHTNESS);
        MidiMessage::NoteOff { note, velocity: 0 }
    }

    /// The OSC message of an encoder step.
    pub fn send_osc_encoder_msg(&self, delta: i32) -> (r: OscMessage)
        ensures
            osc_is(r, "/maschine/encoder"@, seq![OscArg::Int(delta)]),
    {
        let mut arguments: Vec<OscArg> = Vec::new();
        arguments.push(OscArg::Int(delta));
        assert(arguments@ =~= seq![OscArg::Int(delta)]);
        OscMessage { path: String::from_str("/maschine/encoder"), arguments }
    }

    /// An encoder turned: its step goes out over OSC, and nothing to MIDI.
    pub fn encoder_step(&self, encoder: usize, delta: i32) -> (r: OscMessage)
        ensures
            osc_is(r, "/maschine/encoder"@, seq![OscArg::Int(delta)]),
    {
        self.send_osc_encoder_msg(delta)
    }

    /// A button's event: the MIDI controller message or group selection of
    /// its role, and in every case its raw value mirrored at `/<name>`.
    pub fn send_osc_button_msg(&self, maschine: &mut Mikro, btn: MaschineButton, status: u8) -> (r:
        Reply)
        requires
            old(maschine).wf(),
        ensures
            final(maschine).wf(),
            r.midi == button_midi(btn, status),
            reply_osc_is(r.osc, button_path(btn), seq![OscArg::Float((status * 1000) as i64)]),
            final(maschine)@ == button_effect(old(maschine)@, btn),
    {
        let midi = match midi_action(btn) {
            ButtonAction::Controller { index, down_only } => {
                if !down_only || status > 0 {
                    Some(MidiMessage::Rpn7 { index, value: status })
                } else {
                    None
                }
            },
            ButtonAction::NoteBase(n) => {
                maschine.set_midi_note_base(n);
                None
            },
            ButtonAction::Nothing => None,
        };
        proof {
            reveal_strlit("/");
        }
        let path = String::from_str("/").concat(btn_to_osc_button_map(btn));
        let mut arguments: Vec<OscArg> = Vec::new();
        arguments.push(OscArg::Float(status as i64 * 1000));
        assert(arguments@ =~= seq![OscArg::Float((status * 1000) as i64)]);
        assert(path@ == button_path(btn));
        Reply { midi, osc: Some(OscMessage { path, arguments }) }
    }

    pub fn button_down(&self, maschine: &mut Mikro, btn: MaschineButton, byte: u8) -> (r: Reply)
        requires
            old(maschine).wf(),
        ensures
            final(maschine).wf(),
            r.midi == button_midi(btn, byte),
            reply_osc_is(r.osc, button_path(btn), seq![OscArg::Float((byte * 1000) as i64)]),
            final(maschine)@ == button_effect(old(maschine)@, btn),
    {
        self.send_osc_button_msg(maschine, btn, byte)
    }

    pub fn button_up(&self, maschine: &mut Mikro, btn: MaschineButton, byte: u8) -> (r: Reply)
        requires
            old(maschine).wf(),
        ensures
            final(maschine).wf(),
            r.midi == button_midi(btn, byte),
            reply_osc_is(r.osc, button_path(btn), seq![OscArg::Float((byte * 1000) as i64)]),
            final(maschine)@ == button_effect(old(maschine)@, btn),
    {
        self.send_osc_button_msg(maschine, btn, byte)
    }

    /// Dispatches one decoded event to its handler. An event whose pad or
    /// pressure is out of range is ignored.
    pub fn handle_event(&self, maschine: &mut Mikro, ev: HwEvent) -> (r: Reply)
        requires
            self.wf(),
            old(maschine).wf(),
        ensures
            final(maschine).wf(),
            !event_in_range(ev) ==> r.midi is None && r.osc is None && final(maschine)@ == old(
                maschine,
            )@,
            event_in_range(ev) ==> match ev {
                HwEvent::PadPressed { pad, pressure } => r.osc is None && r.midi == Some(
                    MidiMessage::NoteOn {
                        note: pad_note(old(maschine)@.note_base, pad as int),
                        velocity: velocity_of(*self, pressure),
                    },
                ) && final(maschine)@ == with_pad_light(
                    old(maschine)@,
                    pad as int,
                    self.color,
                    pressed_brightness(pressure as int),
                ),
                HwEvent::PadAftertouch { pad, pressure } => r.osc is None && if aftertouch_enabled(
                    *self,
                ) {
                    r.midi == Some(
                        MidiMessage::PolyphonicPressure {
                            note: pad_note(old(maschine)@.note_base, pad as int),
                            pressure: velocity_of(*self, pressure),
                        },
                    ) && final(maschine)@ == with_pad_light(
                        old(maschine)@,
                        pad as int,
                        self.color,
                        pressed_brightness(pressure as int),
                    )
                } else {
                    r.midi is None && final(maschine)@ == old(maschine)@
                },
                HwEvent::PadReleased { pad } => r.osc is None && r.midi == Some(
                    MidiMessage::NoteOff {
                        note: pad_note(old(maschine)@.note_base, pad as int),
                        velocity: 0,
                    },
                ) && final(maschine)@ == with_pad_light(
                    old(maschine)@,
                    pad as int,
                    self.color,
                    PAD_RELEASED_BRIGHTNESS,
                ),
                HwEvent::ButtonDown { button, value } => r.midi == button_midi(button, value)
                    && reply_osc_is(r.osc, button_path(button), seq![OscArg::Float((value * 1000) as i64)])
                    && final(maschine)@ == button_effect(old(maschine)@, button),
                HwEvent::ButtonUp { button, value } => r.midi == button_midi(button, value)
                    && reply_osc_is(r.osc, button_path(button), seq![OscArg::Float((value * 1000) as i64)])
                    && final(maschine)@ == button_effect(old(maschine)@, button),
                HwEvent::EncoderStep { encoder, delta } => r.midi is None && reply_osc_is(
                    r.osc,
                    "/maschine/encoder"@,
                    seq![OscArg::Int(delta)],
                ) && final(maschine)@ == old(maschine)@,
            },
    {
        match ev {
            HwEvent::PadPressed { pad, pressure } => {
                if pad >= PAD_COUNT || pressure > PRESSURE_MAX {
                    return Reply { midi: None, osc: None };
                }
                Reply { midi: Some(self.pad_pressed(maschine, pad, pressure)), osc: None }
            },
            HwEvent::PadAftertouch { pad, pressure } => {
                if pad >= PAD_COUNT || pressure > PRESSURE_MAX {
                    return Reply { midi: None, osc: None };
                }
                Reply { midi: self.pad_aftertouch(maschine, pad, pressure), osc: None }
            },
            HwEvent::PadReleased { pad } => {
                if pad >= PAD_COUNT {
                    return Reply { midi: None, osc: None };
                }
                Reply { midi: Some(self.pad_released(maschine, pad)), osc: None }
            },
            HwEvent::ButtonDown { button, value } => self.button_down(maschine, button, value),
            HwEvent::ButtonUp { button, value } => self.button_up(maschine, button, value),
            HwEvent::EncoderStep { encoder, delta } => Reply {
                midi: None,
                osc: Some(self.encoder_step(encoder, delta)),
            },
        }
    }

    /// Applies an inbound OSC message to the device's lights or note base.
    /// A message with another address, or with arguments of another count
    /// or type, is ignored.
    pub fn handle_osc_message(&self, maschine: &mut Mikro, msg: &OscMessage)
        requires
            old(maschine).wf(),
        ensures
            final(maschine).wf(),
            final(maschine)@ == osc_effect(old(maschine)@, msg.path@, msg.arguments@),
    {
        let path = msg.path.as_str();
        let args = &msg.arguments;
        if starts_with(path, "/maschine/button") {
            let n = path.unicode_len();
            if n < 17 {
                return;
            }
            let btn = match osc_button_to_btn_map(path.substring_char(17, n)) {
                Some(b) => b,
                None => return,
            };
            if args.len() == 1 {
                let brightness = match args[0] {
                    OscArg::Int(v) => v as i64 * 1000,
                    OscArg::Float(m) => m,
                    OscArg::Unsupported => return,
                };
                maschine.set_button_light(btn, 0xFFFFFF, brightness);
            } else if args.len() == 2 {
                if let (OscArg::Int(c), OscArg::Float(m)) = (args[0], args[1]) {
                    maschine.set_button_light(btn, (c as u32) % 0x1000000, m);
                }
            }
        } else if starts_with(path, "/maschine/pad") {
            if args.len() == 3 {
                if let (OscArg::Int(pad), OscArg::Int(c), OscArg::Float(m)) = (
                    args[0],
                    args[1],
                    args[2],
                ) {
                    if 0 <= pad && pad < PAD_COUNT as i32 {
                        maschine.set_pad_light(pad as usize, (c as u32) % 0x1000000, m);
                    }
                }
            }
        } else if starts_with(path, "/maschine/midi_note_base") {
            if args.len() == 1 {
                if let OscArg::Int(base) = args[0] {
                    maschine.set_midi_note_base(base as u8);
                }
            }
        }
    }
}

} // verus!
