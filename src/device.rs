//! The Mikro model: its input reports, its light and screen reports, and
//! the state that the driver keeps between reports.
//!
//! Input reports, byte 0 being the report id:
//! - pad report (`PAD_REPORT_ID`, `PAD_REPORT_LEN` bytes): for each of the
//!   16 pads a little-endian 16-bit word whose low 12 bits are the pressure;
//! - button report (`BUTTON_REPORT_ID`, `BUTTON_REPORT_LEN` bytes): one raw
//!   byte per button slot, then the encoder's 8-bit counter.
//!
//! The light report (`LIGHT_REPORT_ID`) holds one level byte per button slot,
//! then red, green and blue for each pad, each scaled by the brightness.
use vstd::prelude::*;
use crate::button::MaschineButton;

verus! {

pub const PAD_COUNT: usize = 16;

/// The buttons that the Mikro has, each in its slot of the reports.
pub const BUTTON_COUNT: usize = 28;

pub const PAD_REPORT_ID: u8 = 0x20;

pub const PAD_REPORT_LEN: usize = 33;

pub const BUTTON_REPORT_ID: u8 = 0x01;

pub const BUTTON_REPORT_LEN: usize = 30;

pub const LIGHT_REPORT_ID: u8 = 0x80;

pub const LIGHT_REPORT_LEN: usize = 77;

pub const SCREEN_REPORT_ID: u8 = 0xE0;

/// A 128 by 64 monochrome framebuffer, one bit per pixel.
pub const SCREEN_BYTES: usize = 1024;

/// The smallest change of a held pad's pressure that is reported.
pub const AFTERTOUCH_STEP: u16 = 32;

/// The brightness of a fully lit light, in thousandths.
pub const BRIGHTNESS_FULL: i64 = 1000;

/// The note base of a freshly opened device.
pub const DEFAULT_NOTE_BASE: u8 = 36;

/// The button in slot `i` of the Mikro's reports.
pub open spec fn slot_button(i: int) -> MaschineButton {
        if i == 0 {
        MaschineButton::Restart
    } else if i == 1 {
        MaschineButton::Stepleft
    } else if i == 2 {
        MaschineButton::Stepright
    } else if i == 3 {
        MaschineButton::Grid
    } else if i == 4 {
        MaschineButton::Play
    } else if i == 5 {
        MaschineButton::Rec
    } else if i == 6 {
        MaschineButton::Erase
    } else if i == 7 {
        MaschineButton::Shift
    } else if i == 8 {
        MaschineButton::Browse
    } else if i == 9 {
        MaschineButton::Sampling
    } else if i == 10 {
        MaschineButton::Noterepeat
    } else if i == 11 {
        MaschineButton::Encoder
    } else if i == 12 {
        MaschineButton::F1
    } else if i == 13 {
        MaschineButton::F2
    } else if i == 14 {
        MaschineButton::F3
    } else if i == 15 {
        MaschineButton::Control
    } else if i == 16 {
        MaschineButton::Nav
    } else if i == 17 {
        MaschineButton::Navleft
    } else if i == 18 {
        MaschineButton::Navright
    } else if i == 19 {
        MaschineButton::Main
    } else if i == 20 {
        MaschineButton::Scene
    } else if i == 21 {
        MaschineButton::Pattern
    } else if i == 22 {
        MaschineButton::Padmode
    } else if i == 23 {
        MaschineButton::View
    } else if i == 24 {
        MaschineButton::Duplicate
    } else if i == 25 {
        MaschineButton::Select
    } else if i == 26 {
        MaschineButton::Solo
    } else {
        MaschineButton::Mute
    }
}

fn slot_button_at(i: usize) -> (r: MaschineButton)
    requires
        i < BUTTON_COUNT,
    ensures
        r == slot_button(i as int),
{
        if i == 0 {
        MaschineButton::Restart
    } else if i == 1 {
        MaschineButton::Stepleft
    } else if i == 2 {
        MaschineButton::Stepright
    } else if i == 3 {
        MaschineButton::Grid
    } else if i == 4 {
        MaschineButton::Play
    } else if i == 5 {
        MaschineButton::Rec
    } else if i == 6 {
        MaschineButton::Erase
    } else if i == 7 {
        MaschineButton::Shift
    } else if i == 8 {
        MaschineButton::Browse
    } else if i == 9 {
        MaschineButton::Sampling
    } else if i == 10 {
        MaschineButton::Noterepeat
    } else if i == 11 {
        MaschineButton::Encoder
    } else if i == 12 {
        MaschineButton::F1
    } else if i == 13 {
        MaschineButton::F2
    } else if i == 14 {
        MaschineButton::F3
    } else if i == 15 {
        MaschineButton::Control
    } else if i == 16 {
        MaschineButton::Nav
    } else if i == 17 {
        MaschineButton::Navleft
    } else if i == 18 {
        MaschineButton::Navright
    } else if i == 19 {
        MaschineButton::Main
    } else if i == 20 {
        MaschineButton::Scene
    } else if i == 21 {
        MaschineButton::Pattern
    } else if i == 22 {
        MaschineButton::Padmode
    } else if i == 23 {
        MaschineButton::View
    } else if i == 24 {
        MaschineButton::Duplicate
    } else if i == 25 {
        MaschineButton::Select
    } else if i == 26 {
        MaschineButton::Solo
    } else {
        MaschineButton::Mute
    }
}

/// The slot of a button on the Mikro, if it has that button.
pub open spec fn button_slot(b: MaschineButton) -> Option<usize> {
    match b {
        MaschineButton::Restart => Some(0usize),
        MaschineButton::Stepleft => Some(1usize),
        MaschineButton::Stepright => Some(2usize),
        MaschineButton::Grid => Some(3usize),
        MaschineButton::Play => Some(4usize),
        MaschineButton::Rec => Some(5usize),
        MaschineButton::Erase => Some(6usize),
        MaschineButton::Shift => Some(7usize),
        MaschineButton::Browse => Some(8usize),
        MaschineButton::Sampling => Some(9usize),
        MaschineButton::Noterepeat => Some(10usize),
        MaschineButton::Encoder => Some(11usize),
        MaschineButton::F1 => Some(12usize),
        MaschineButton::F2 => Some(13usize),
        MaschineButton::F3 => Some(14usize),
        MaschineButton::Control => Some(15usize),
        MaschineButton::Nav => Some(16usize),
        MaschineButton::Navleft => Some(17usize),
        MaschineButton::Navright => Some(18usize),
        MaschineButton::Main => Some(19usize),
        MaschineButton::Scene => Some(20usize),
        MaschineButton::Pattern => Some(21usize),
        MaschineButton::Padmode => Some(22usize),
        MaschineButton::View => Some(23usize),
        MaschineButton::Duplicate => Some(24usize),
        MaschineButton::Select => Some(25usize),
        MaschineButton::Solo => Some(26usize),
        MaschineButton::Mute => Some(27usize),
        _ => None,
    }
}

fn button_slot_of(b: MaschineButton) -> (r: Option<usize>)
    ensures
        r == button_slot(b),
        r matches Some(k) ==> k < BUTTON_COUNT,
{
    match b {
        MaschineButton::Restart => Some(0usize),
        MaschineButton::Stepleft => Some(1usize),
        MaschineButton::Stepright => Some(2usize),
        MaschineButton::Grid => Some(3usize),
        MaschineButton::Play => Some(4usize),
        MaschineButton::Rec => Some(5usize),
        MaschineButton::Erase => Some(6usize),
        MaschineButton::Shift => Some(7usize),
        MaschineButton::Browse => Some(8usize),
        MaschineButton::Sampling => Some(9usize),
        MaschineButton::Noterepeat => Some(10usize),
        MaschineButton::Encoder => Some(11usize),
        MaschineButton::F1 => Some(12usize),
        MaschineButton::F2 => Some(13usize),
        MaschineButton::F3 => Some(14usize),
        MaschineButton::Control => Some(15usize),
        MaschineButton::Nav => Some(16usize),
        MaschineButton::Navleft => Some(17usize),
        MaschineButton::Navright => Some(18usize),
        MaschineButton::Main => Some(19usize),
        MaschineButton::Scene => Some(20usize),
        MaschineButton::Pattern => Some(21usize),
        MaschineButton::Padmode => Some(22usize),
        MaschineButton::View => Some(23usize),
        MaschineButton::Duplicate => Some(24usize),
        MaschineButton::Select => Some(25usize),
        MaschineButton::Solo => Some(26usize),
        MaschineButton::Mute => Some(27usize),
        _ => None,
    }
}

/// A light's colour, `0xRRGGBB`, and its brightness in thousandths.
/// Brightness is kept as given; encoding clamps it to `0..=BRIGHTNESS_FULL`.
#[derive(Clone, Copy, PartialEq, Eq, Structural, Debug)]
pub struct Light {
    pub color: u32,
    pub brightness: i64,
}

/// A decoded hardware event.
#[derive(Clone, Copy, PartialEq, Eq, Structural, Debug)]
pub enum HwEvent {
    PadPressed { pad: usize, pressure: u16 },
    PadAftertouch { pad: usize, pressure: u16 },
    PadReleased { pad: usize },
    ButtonDown { button: MaschineButton, value: u8 },
    ButtonUp { button: MaschineButton, value: u8 },
    EncoderStep { encoder: usize, delta: i32 },
}

/// Why an input report was dropped.
#[derive(Clone, Copy, PartialEq, Eq, Structural, Debug)]
pub enum DecodeError {
    Empty,
    UnknownReport(u8),
    ShortReport { expected: usize, got: usize },
}

/// A pad index outside `0..PAD_COUNT`.
#[derive(Clone, Copy, PartialEq, Eq, Structural, Debug)]
pub struct NoSuchPad;

/// What the driver holds between reports.
pub struct MikroView {
    pub pads: Seq<u16>,
    pub buttons: Seq<u8>,
    pub encoder: Option<u8>,
    pub pad_lights: Seq<Light>,
    pub button_lights: Seq<Light>,
    pub note_base: u8,
    pub screen: Seq<u8>,
}

impl MikroView {
    pub open spec fn wf(&self) -> bool {
        &&& self.pads.len() == PAD_COUNT
        &&& forall|i: int| 0 <= i < PAD_COUNT ==> #[trigger] self.pads[i] <= 4095
        &&& self.buttons.len() == BUTTON_COUNT
        &&& self.pad_lights.len() == PAD_COUNT
        &&& self.button_lights.len() == BUTTON_COUNT
        &&& self.screen.len() == SCREEN_BYTES
    }
}

/// The pressure that a report gives to pad `i`.
pub open spec fn report_pressure(r: Seq<u8>, i: int) -> u16 {
    (r[1 + 2 * i] + (r[2 + 2 * i] % 16) * 256) as u16
}

/// The pressures that a pad report holds.
pub open spec fn report_pressures(r: Seq<u8>) -> Seq<u16> {
    Seq::new(PAD_COUNT as nat, |i: int| report_pressure(r, i))
}

/// The raw button bytes that a button report holds.
pub open spec fn report_buttons(r: Seq<u8>) -> Seq<u8> {
    r.subrange(1, 1 + BUTTON_COUNT)
}

/// Whether a pad's change from `prev` to `cur` is reported.
pub open spec fn pad_reported(prev: u16, cur: u16) -> bool {
    if prev == 0 {
        cur > 0
    } else if cur == 0 {
        true
    } else {
        cur >= prev + AFTERTOUCH_STEP || prev >= cur + AFTERTOUCH_STEP
    }
}

/// The event, if any, of pad `i` going from `prev` to `cur`.
pub open spec fn pad_event(i: int, prev: u16, cur: u16) -> Option<HwEvent> {
    if !pad_reported(prev, cur) {
        None
    } else if prev == 0 {
        Some(HwEvent::PadPressed { pad: i as usize, pressure: cur })
    } else if cur == 0 {
        Some(HwEvent::PadReleased { pad: i as usize })
    } else {
        Some(HwEvent::PadAftertouch { pad: i as usize, pressure: cur })
    }
}

/// The pressure that the driver keeps: the last one reported.
pub open spec fn pad_next(prev: u16, cur: u16) -> u16 {
    if pad_reported(prev, cur) {
        cur
    } else {
        prev
    }
}

/// The event, if any, of button slot `i` going from `prev` to `cur`.
pub open spec fn button_event(i: int, prev: u8, cur: u8) -> Option<HwEvent> {
    if prev == 0 && cur != 0 {
        Some(HwEvent::ButtonDown { button: slot_button(i), value: cur })
    } else if prev != 0 && cur == 0 {
        Some(HwEvent::ButtonUp { button: slot_button(i), value: cur })
    } else {
        None
    }
}

pub open spec fn opt_seq(e: Option<HwEvent>) -> Seq<HwEvent> {
    match e {
        Some(x) => seq![x],
        None => Seq::empty(),
    }
}

/// The events of the first `n` pads, in pad order.
pub open spec fn pad_events(prev: Seq<u16>, cur: Seq<u16>, n: nat) -> Seq<HwEvent>
    decreases n,
{
    if n == 0 {
        Seq::empty()
    } else {
        pad_events(prev, cur, (n - 1) as nat) + opt_seq(
            pad_event(n - 1, prev[n - 1], cur[n - 1]),
        )
    }
}

/// The events of the first `n` button slots, in slot order.
pub open spec fn button_events(prev: Seq<u8>, cur: Seq<u8>, n: nat) -> Seq<HwEvent>
    decreases n,
{
    if n == 0 {
        Seq::empty()
    } else {
        button_events(prev, cur, (n - 1) as nat) + opt_seq(
            button_event(n - 1, prev[n - 1], cur[n - 1]),
        )
    }
}

/// The signed step between two readings of an 8-bit counter that wraps.
pub open spec fn wrap_delta(prev: u8, cur: u8) -> int {
    let d = cur - prev;
    if d > 127 {
        d - 256
    } else if d < -128 {
        d + 256
    } else {
        d
    }
}

/// The encoder's event: none on its first reading or when it has not moved.
pub open spec fn encoder_event(prev: Option<u8>, cur: u8) -> Option<HwEvent> {
    match prev {
        Some(p) => if wrap_delta(p, cur) != 0 {
            Some(HwEvent::EncoderStep { encoder: 0, delta: wrap_delta(p, cur) as i32 })
        } else {
            None
        },
        None => None,
    }
}

/// The events of an input report, and the state after it.
pub open spec fn decode(d: MikroView, r: Seq<u8>) -> Result<(Seq<HwEvent>, MikroView), DecodeError> {
    if r.len() == 0 {
        Err(DecodeError::Empty)
    } else if r[0] == PAD_REPORT_ID {
        if r.len() < PAD_REPORT_LEN {
            Err(DecodeError::ShortReport { expected: PAD_REPORT_LEN, got: r.len() as usize })
        } else {
            let cur = report_pressures(r);
            Ok(
                (
                    pad_events(d.pads, cur, PAD_COUNT as nat),
                    MikroView {
                        pads: Seq::new(PAD_COUNT as nat, |i: int| pad_next(d.pads[i], cur[i])),
                        ..d
                    },
                ),
            )
        }
    } else if r[0] == BUTTON_REPORT_ID {
        if r.len() < BUTTON_REPORT_LEN {
            Err(DecodeError::ShortReport { expected: BUTTON_REPORT_LEN, got: r.len() as usize })
        } else {
            let cur = report_buttons(r);
            let enc = r[BUTTON_REPORT_LEN - 1];
            Ok(
                (
                    button_events(d.buttons, cur, BUTTON_COUNT as nat) + opt_seq(
                        encoder_event(d.encoder, enc),
                    ),
                    MikroView { buttons: cur, encoder: Some(enc), ..d },
                ),
            )
        }
    } else {
        Err(DecodeError::UnknownReport(r[0]))
    }
}

/// A brightness clamped to `0..=BRIGHTNESS_FULL`.
pub open spec fn clamp_brightness(b: i64) -> int {
    if b < 0 {
        0
    } else if b > BRIGHTNESS_FULL {
        BRIGHTNESS_FULL as int
    } else {
        b as int
    }
}

/// Channel `ch` of a colour: 0 red, 1 green, 2 blue.
pub open spec fn color_channel(color: u32, ch: int) -> int {
    if ch == 0 {
        (color as int / 0x10000) % 0x100
    } else if ch == 1 {
        (color as int / 0x100) % 0x100
    } else {
        color as int % 0x100
    }
}

/// A level `full` dimmed by a light's brightness.
pub open spec fn dim(full: int, l: Light) -> int {
    full * clamp_brightness(l.brightness) / BRIGHTNESS_FULL as int
}

/// Byte `j` of the light report.
pub open spec fn light_byte(d: MikroView, j: int) -> u8 {
    if j == 0 {
        LIGHT_REPORT_ID
    } else if j <= BUTTON_COUNT {
        dim(255, d.button_lights[j - 1]) as u8
    } else {
        let k = j - 1 - BUTTON_COUNT;
        let l = d.pad_lights[k / 3];
        dim(color_channel(l.color, k % 3), l) as u8
    }
}

/// The light report of a state: it depends on the lights alone.
pub open spec fn light_report(d: MikroView) -> Seq<u8> {
    Seq::new(LIGHT_REPORT_LEN as nat, |j: int| light_byte(d, j))
}

/// A state with pad `pad`'s light set.
pub open spec fn with_pad_light(d: MikroView, pad: int, color: u32, brightness: i64) -> MikroView {
    MikroView { pad_lights: d.pad_lights.update(pad, Light { color, brightness }), ..d }
}

/// A state with a button's light set, if the Mikro has that button.
pub open spec fn with_button_light(
    d: MikroView,
    button: MaschineButton,
    color: u32,
    brightness: i64,
) -> MikroView {
    match button_slot(button) {
        Some(k) => MikroView {
            button_lights: d.button_lights.update(k as int, Light { color, brightness }),
            ..d
        },
        None => d,
    }
}

/// A state with another note base.
pub open spec fn with_note_base(d: MikroView, base: u8) -> MikroView {
    MikroView { note_base: base, ..d }
}

/// The pad report that carries the given pressures.
pub open spec fn pad_report_bytes(p: Seq<u16>) -> Seq<u8> {
    Seq::new(
        PAD_REPORT_LEN as nat,
        |j: int|
            if j == 0 {
                PAD_REPORT_ID
            } else if (j - 1) % 2 == 0 {
                (p[(j - 1) / 2] % 256) as u8
            } else {
                (p[(j - 1) / 2] / 256) as u8
            },
    )
}

/// The button report that carries the given raw bytes and encoder counter.
pub open spec fn button_report_bytes(b: Seq<u8>, encoder: u8) -> Seq<u8> {
    seq![BUTTON_REPORT_ID] + b + seq![encoder]
}

/// The pad that an event concerns, if any.
pub open spec fn event_pad(e: HwEvent) -> Option<usize> {
    match e {
        HwEvent::PadPressed { pad, .. } => Some(pad),
        HwEvent::PadAftertouch { pad, .. } => Some(pad),
        HwEvent::PadReleased { pad } => Some(pad),
        _ => None,
    }
}

/// The events of a sequence that concern pad `i`, in order.
pub open spec fn events_of_pad(evs: Seq<HwEvent>, i: usize) -> Seq<HwEvent>
    decreases evs.len(),
{
    if evs.len() == 0 {
        Seq::empty()
    } else {
        events_of_pad(evs.drop_last(), i) + if event_pad(evs.last()) == Some(i) {
            seq![evs.last()]
        } else {
            Seq::<HwEvent>::empty()
        }
    }
}

proof fn lemma_events_of_pad_append(a: Seq<HwEvent>, b: Seq<HwEvent>, i: usize)
    ensures
        events_of_pad(a + b, i) == events_of_pad(a, i) + events_of_pad(b, i),
    decreases b.len(),
{
    if b.len() == 0 {
        assert(a + b =~= a);
        assert(events_of_pad(b, i) =~= Seq::<HwEvent>::empty());
        assert(events_of_pad(a, i) + events_of_pad(b, i) =~= events_of_pad(a, i));
    } else {
        lemma_events_of_pad_append(a, b.drop_last(), i);
        assert((a + b).drop_last() =~= a + b.drop_last());
        assert((a + b).last() == b.last());
    }
}

proof fn lemma_events_of_pad_opt(e: Option<HwEvent>, i: usize)
    ensures
        events_of_pad(opt_seq(e), i) == match e {
            Some(x) => if event_pad(x) == Some(i) {
                seq![x]
            } else {
                Seq::<HwEvent>::empty()
            },
            None => Seq::<HwEvent>::empty(),
        },
{
    match e {
        Some(x) => {
            assert(opt_seq(e).drop_last() =~= Seq::<HwEvent>::empty());
            assert(events_of_pad(Seq::<HwEvent>::empty(), i) =~= Seq::<HwEvent>::empty());
            assert(Seq::<HwEvent>::empty() + seq![x] =~= seq![x]);
            assert(Seq::<HwEvent>::empty() + Seq::<HwEvent>::empty() =~= Seq::<HwEvent>::empty());
        },
        None => {},
    }
}

proof fn lemma_pad_events_of_pad(prev: Seq<u16>, cur: Seq<u16>, n: nat, i: usize)
    requires
        n <= PAD_COUNT,
        i < PAD_COUNT,
    ensures
        events_of_pad(pad_events(prev, cur, n), i) == if i < n {
            opt_seq(pad_event(i as int, prev[i as int], cur[i as int]))
        } else {
            Seq::<HwEvent>::empty()
        },
    decreases n,
{
    if n > 0 {
        let m = (n - 1) as nat;
        lemma_pad_events_of_pad(prev, cur, m, i);
        let e = pad_event(m as int, prev[m as int], cur[m as int]);
        lemma_events_of_pad_append(pad_events(prev, cur, m), opt_seq(e), i);
        lemma_events_of_pad_opt(e, i);
        let own = opt_seq(pad_event(i as int, prev[i as int], cur[i as int]));
        assert(Seq::<HwEvent>::empty() + Seq::<HwEvent>::empty() =~= Seq::<HwEvent>::empty());
        assert(own + Seq::<HwEvent>::empty() =~= own);
        assert(Seq::<HwEvent>::empty() + own =~= own);
    }
}

/// In a pad report, a pad whose pressure goes from zero to `p > 0` yields
/// exactly one event of its own, `PadPressed` with `p`; one whose pressure
/// goes to zero yields exactly one, `PadReleased`.
pub proof fn lemma_pad_transitions(d: MikroView, r: Seq<u8>, i: usize)
    requires
        d.wf(),
        r.len() >= PAD_REPORT_LEN,
        r[0] == PAD_REPORT_ID,
        i < PAD_COUNT,
    ensures
        decode(d, r) is Ok,
        d.pads[i as int] == 0 && report_pressure(r, i as int) > 0 ==> events_of_pad(
            decode(d, r)->Ok_0.0,
            i,
        ) == seq![HwEvent::PadPressed { pad: i, pressure: report_pressure(r, i as int) }],
        d.pads[i as int] > 0 && report_pressure(r, i as int) == 0 ==> events_of_pad(
            decode(d, r)->Ok_0.0,
            i,
        ) == seq![HwEvent::PadReleased { pad: i }],
{
    lemma_pad_events_of_pad(d.pads, report_pressures(r), PAD_COUNT as nat, i);
}

/// The light report depends on the lights alone: decoding input or moving
/// the note base leaves it as it was, so flushing twice with no change of
/// the lights in between writes the same bytes twice.
pub proof fn lemma_light_report_depends_on_lights(d1: MikroView, d2: MikroView)
    requires
        d1.pad_lights == d2.pad_lights,
        d1.button_lights == d2.button_lights,
    ensures
        light_report(d1) == light_report(d2),
{
    assert(light_report(d1) =~= light_report(d2));
}

proof fn lemma_pad_report_pressures(p: Seq<u16>)
    requires
        p.len() == PAD_COUNT,
        forall|i: int| 0 <= i < PAD_COUNT ==> #[trigger] p[i] <= 4095,
    ensures
        report_pressures(pad_report_bytes(p)) == p,
{
    let r = pad_report_bytes(p);
    assert forall|i: int| 0 <= i < PAD_COUNT implies #[trigger] report_pressures(r)[i] == p[i] by {
        assert((1 + 2 * i - 1) % 2 == 0 && (1 + 2 * i - 1) / 2 == i);
        assert((2 + 2 * i - 1) % 2 == 1 && (2 + 2 * i - 1) / 2 == i);
        let x = p[i] as int;
        assert((x / 256) % 16 == x / 256 && x % 256 + (x / 256) * 256 == x) by (nonlinear_arith)
            requires
                0 <= x <= 4095,
        ;
    }
    assert(report_pressures(r) =~= p);
}

/// Decoding a pad report built from pressures yields exactly the events of
/// a change from the kept pressures to those pressures.
pub proof fn lemma_pad_report_round_trip(d: MikroView, p: Seq<u16>)
    requires
        d.wf(),
        p.len() == PAD_COUNT,
        forall|i: int| 0 <= i < PAD_COUNT ==> #[trigger] p[i] <= 4095,
    ensures
        decode(d, pad_report_bytes(p)) == Ok::<(Seq<HwEvent>, MikroView), DecodeError>(
            (
                pad_events(d.pads, p, PAD_COUNT as nat),
                MikroView {
                    pads: Seq::new(PAD_COUNT as nat, |i: int| pad_next(d.pads[i], p[i])),
                    ..d
                },
            ),
        ),
{
    lemma_pad_report_pressures(p);
}

/// Decoding a button report built from raw bytes and an encoder counter
/// yields exactly the events of a change to those bytes and that counter.
pub proof fn lemma_button_report_round_trip(d: MikroView, b: Seq<u8>, encoder: u8)
    requires
        d.wf(),
        b.len() == BUTTON_COUNT,
    ensures
        decode(d, button_report_bytes(b, encoder)) == Ok::<
            (Seq<HwEvent>, MikroView),
            DecodeError,
        >(
            (
                button_events(d.buttons, b, BUTTON_COUNT as nat) + opt_seq(
                    encoder_event(d.encoder, encoder),
                ),
                MikroView { buttons: b, encoder: Some(encoder), ..d },
            ),
        ),
{
    let r = button_report_bytes(b, encoder);
    assert(report_buttons(r) =~= b);
    assert(r[BUTTON_REPORT_LEN - 1] == encoder);
}

/// The driver state of a Mikro.
pub struct Mikro {
    pads: Vec<u16>,
    buttons: Vec<u8>,
    encoder: Option<u8>,
    pad_lights: Vec<Light>,
    button_lights: Vec<Light>,
    note_base: u8,
    screen: Vec<u8>,
}

impl View for Mikro {
    type V = MikroView;

    closed spec fn view(&self) -> MikroView {
        MikroView {
            pads: self.pads@,
            buttons: self.buttons@,
            encoder: self.encoder,
            pad_lights: self.pad_lights@,
            button_lights: self.button_lights@,
            note_base: self.note_base,
            screen: self.screen@,
        }
    }
}

fn filled<T: Copy>(n: usize, x: T) -> (r: Vec<T>)
    ensures
        r@ == Seq::new(n as nat, |i: int| x),
{
    let mut r: Vec<T> = Vec::new();
    let mut i: usize = 0;
    while i < n
        invariant
            i <= n,
            r@ == Seq::new(i as nat, |k: int| x),
        decreases n - i,
    {
        r.push(x);
        i = i + 1;
    }
    r
}

impl Mikro {
    pub open spec fn wf(&self) -> bool {
        self@.wf()
    }

    /// A device with every pad released, every button up, every light off,
    /// a blank screen and the default note base.
    pub fn new() -> (r: Mikro)
        ensures
            r.wf(),
            r@.pads == Seq::new(PAD_COUNT as nat, |i: int| 0u16),
            r@.buttons == Seq::new(BUTTON_COUNT as nat, |i: int| 0u8),
            r@.encoder is None,
            r@.pad_lights == Seq::new(PAD_COUNT as nat, |i: int| Light { color: 0, brightness: 0 }),
            r@.button_lights == Seq::new(
                BUTTON_COUNT as nat,
                |i: int| Light { color: 0, brightness: 0 },
            ),
            r@.note_base == DEFAULT_NOTE_BASE,
            r@.screen == Seq::new(SCREEN_BYTES as nat, |i: int| 0u8),
    {
        let off = Light { color: 0, brightness: 0 };
        Mikro {
            pads: filled(PAD_COUNT, 0u16),
            buttons: filled(BUTTON_COUNT, 0u8),
            encoder: None,
            pad_lights: filled(PAD_COUNT, off),
            button_lights: filled(BUTTON_COUNT, off),
            note_base: DEFAULT_NOTE_BASE,
            screen: filled(SCREEN_BYTES, 0u8),
        }
    }
}

impl Mikro {
    /// Decodes one input report and updates the driver's state. A report
    /// that is empty, of an unknown kind or too short is dropped whole: no
    /// event and no change of state.
    pub fn decode_report(&mut self, report: &[u8]) -> (r: Result<Vec<HwEvent>, DecodeError>)
        requires
            old(self).wf(),
        ensures
            final(self).wf(),
            match decode(old(self)@, report@) {
                Ok(res) => match r {
                    Ok(v) => v@ == res.0 && final(self)@ == res.1,
                    Err(_) => false,
                },
                Err(e) => r == Err::<Vec<HwEvent>, DecodeError>(e) && final(self)@ == old(self)@,
            },
    {
        let n = report.len();
        if n == 0 {
            return Err(DecodeError::Empty);
        }
        if report[0] == PAD_REPORT_ID {
            if n < PAD_REPORT_LEN {
                return Err(DecodeError::ShortReport { expected: PAD_REPORT_LEN, got: n });
            }
            Ok(self.decode_pads(report))
        } else if report[0] == BUTTON_REPORT_ID {
            if n < BUTTON_REPORT_LEN {
                return Err(DecodeError::ShortReport { expected: BUTTON_REPORT_LEN, got: n });
            }
            Ok(self.decode_buttons(report))
        } else {
            Err(DecodeError::UnknownReport(report[0]))
        }
    }

    fn decode_pads(&mut self, report: &[u8]) -> (r: Vec<HwEvent>)
        requires
            old(self).wf(),
            report@.len() >= PAD_REPORT_LEN,
            report@[0] == PAD_REPORT_ID,
        ensures
            decode(old(self)@, report@) == Ok::<(Seq<HwEvent>, MikroView), DecodeError>(
                (r@, final(self)@),
            ),
    {
        let ghost cur = report_pressures(report@);
        let ghost prev = self@.pads;
        let mut events: Vec<HwEvent> = Vec::new();
        let mut next: Vec<u16> = Vec::new();
        let mut i: usize = 0;
        while i < PAD_COUNT
            invariant
                i <= PAD_COUNT,
                report@.len() >= PAD_REPORT_LEN,
                cur == report_pressures(report@),
                prev == self@.pads,
                self.wf(),
                events@ == pad_events(prev, cur, i as nat),
                next@.len() == i,
                forall|k: int| 0 <= k < i ==> #[trigger] next@[k] == pad_next(prev[k], cur[k]),
            decreases PAD_COUNT - i,
        {
            let lo = report[1 + 2 * i];
            let hi = report[2 + 2 * i];
            let p: u16 = lo as u16 + ((hi % 16) as u16) * 256;
            assert(p == cur[i as int]);
            let q = self.pads[i];
            let reported = if q == 0 {
                p > 0
            } else if p == 0 {
                true
            } else {
                p >= q + AFTERTOUCH_STEP || q >= p + AFTERTOUCH_STEP
            };
            assert(reported == pad_reported(q, p));
            proof {
                reveal_with_fuel(pad_events, 2);
            }
            if reported {
                if q == 0 {
                    events.push(HwEvent::PadPressed { pad: i, pressure: p });
                } else if p == 0 {
                    events.push(HwEvent::PadReleased { pad: i });
                } else {
                    events.push(HwEvent::PadAftertouch { pad: i, pressure: p });
                }
                next.push(p);
            } else {
                next.push(q);
            }
            assert(pad_events(prev, cur, (i + 1) as nat) == pad_events(prev, cur, i as nat)
                + opt_seq(pad_event(i as int, prev[i as int], cur[i as int])));
            i = i + 1;
        }
        assert(next@ =~= Seq::new(PAD_COUNT as nat, |k: int| pad_next(prev[k], cur[k])));
        self.pads = next;
        events
    }

    fn decode_buttons(&mut self, report: &[u8]) -> (r: Vec<HwEvent>)
        requires
            old(self).wf(),
            report@.len() >= BUTTON_REPORT_LEN,
            report@[0] == BUTTON_REPORT_ID,
        ensures
            final(self).wf(),
            decode(old(self)@, report@) == Ok::<(Seq<HwEvent>, MikroView), DecodeError>(
                (r@, final(self)@),
            ),
    {
        let ghost cur = report_buttons(report@);
        let ghost prev = self@.buttons;
        let mut events: Vec<HwEvent> = Vec::new();
        let mut next: Vec<u8> = Vec::new();
        let mut i: usize = 0;
        while i < BUTTON_COUNT
            invariant
                i <= BUTTON_COUNT,
                report@.len() >= BUTTON_REPORT_LEN,
                cur == report_buttons(report@),
                prev == self@.buttons,
                self.wf(),
                events@ == button_events(prev, cur, i as nat),
                next@ == cur.subrange(0, i as int),
            decreases BUTTON_COUNT - i,
        {
            let v = report[1 + i];
            assert(v == cur[i as int]);
            let q = self.buttons[i];
            proof {
                reveal_with_fuel(button_events, 2);
            }
            if q == 0 && v != 0 {
                events.push(HwEvent::ButtonDown { button: slot_button_at(i), value: v });
            } else if q != 0 && v == 0 {
                events.push(HwEvent::ButtonUp { button: slot_button_at(i), value: v });
            }
            next.push(v);
            assert(button_events(prev, cur, (i + 1) as nat) == button_events(prev, cur, i as nat)
                + opt_seq(button_event(i as int, prev[i as int], cur[i as int])));
            assert(next@ =~= cur.subrange(0, i + 1));
            i = i + 1;
        }
        assert(next@ =~= cur);
        let enc = report[BUTTON_REPORT_LEN - 1];
        if let Some(p) = self.encoder {
            let d: i32 = enc as i32 - p as i32;
            let delta: i32 = if d > 127 {
                d - 256
            } else if d < -128 {
                d + 256
            } else {
                d
            };
            if delta != 0 {
                events.push(HwEvent::EncoderStep { encoder: 0, delta });
            }
        }
        assert(events@ =~= button_events(prev, cur, BUTTON_COUNT as nat) + opt_seq(
            encoder_event(old(self)@.encoder, enc),
        ));
        self.buttons = next;
        self.encoder = Some(enc);
        events
    }

    /// The last reported pressure of a pad.
    pub fn get_pad_pressure(&self, pad: usize) -> (r: Result<u16, NoSuchPad>)
        requires
            self.wf(),
        ensures
            pad < PAD_COUNT ==> r == Ok::<u16, NoSuchPad>(self@.pads[pad as int]),
            pad >= PAD_COUNT ==> r == Err::<u16, NoSuchPad>(NoSuchPad),
    {
        if pad < PAD_COUNT {
            Ok(self.pads[pad])
        } else {
            Err(NoSuchPad)
        }
    }

    /// Sets a pad's light, to be shown at the next flush.
    pub fn set_pad_light(&mut self, pad: usize, color: u32, brightness: i64)
        requires
            old(self).wf(),
            pad < PAD_COUNT,
        ensures
            final(self).wf(),
            final(self)@ == with_pad_light(old(self)@, pad as int, color, brightness),
    {
        self.pad_lights.set(pad, Light { color, brightness });
    }

    /// Sets a button's light, to be shown at the next flush; a button that
    /// the Mikro does not have is left alone.
    pub fn set_button_light(&mut self, button: MaschineButton, color: u32, brightness: i64)
        requires
            old(self).wf(),
        ensures
            final(self).wf(),
            final(self)@ == with_button_light(old(self)@, button, color, brightness),
    {
        match button_slot_of(button) {
            Some(k) => {
                self.button_lights.set(k, Light { color, brightness });
            },
            None => {},
        }
    }

    /// A pad's light as it will be flushed.
    pub fn pad_light(&self, pad: usize) -> (r: Light)
        requires
            self.wf(),
            pad < PAD_COUNT,
        ensures
            r == self@.pad_lights[pad as int],
    {
        self.pad_lights[pad]
    }

    /// A button's light as it will be flushed, if the Mikro has the button.
    pub fn button_light(&self, button: MaschineButton) -> (r: Option<Light>)
        requires
            self.wf(),
        ensures
            r == match button_slot(button) {
                Some(k) => Some(self@.button_lights[k as int]),
                None => None,
            },
    {
        match button_slot_of(button) {
            Some(k) => Some(self.button_lights[k]),
            None => None,
        }
    }

    /// The offset added to each pad's note.
    pub fn get_midi_note_base(&self) -> (r: u8)
        ensures
            r == self@.note_base,
    {
        self.note_base
    }

    pub fn set_midi_note_base(&mut self, base: u8)
        requires
            old(self).wf(),
        ensures
            final(self).wf(),
            final(self)@ == with_note_base(old(self)@, base),
    {
        self.note_base = base;
    }

    /// The light report of the current lights.
    pub fn write_lights(&self) -> (r: Vec<u8>)
        requires
            self.wf(),
        ensures
            r@ == light_report(self@),
    {
        let mut out: Vec<u8> = Vec::new();
        out.push(LIGHT_REPORT_ID);
        let mut i: usize = 0;
        while i < BUTTON_COUNT
            invariant
                self.wf(),
                i <= BUTTON_COUNT,
                out@.len() == 1 + i,
                forall|j: int| 0 <= j < out@.len() ==> #[trigger] out@[j] == light_byte(self@, j),
            decreases BUTTON_COUNT - i,
        {
            let l = self.button_lights[i];
            out.push(dim_exec(255, l));
            i = i + 1;
        }
        let mut k: usize = 0;
        while k < 3 * PAD_COUNT
            invariant
                self.wf(),
                k <= 3 * PAD_COUNT,
                out@.len() == 1 + BUTTON_COUNT + k,
                forall|j: int| 0 <= j < out@.len() ==> #[trigger] out@[j] == light_byte(self@, j),
            decreases 3 * PAD_COUNT - k,
        {
            let l = self.pad_lights[k / 3];
            let c = k % 3;
            let full: u32 = if c == 0 {
                (l.color / 0x10000) % 0x100
            } else if c == 1 {
                (l.color / 0x100) % 0x100
            } else {
                l.color % 0x100
            };
            out.push(dim_exec(full, l));
            k = k + 1;
        }
        assert(out@ =~= light_report(self@));
        out
    }

    /// Blanks the screen's framebuffer.
    pub fn clear_screen(&mut self)
        requires
            old(self).wf(),
        ensures
            final(self).wf(),
            final(self)@ == (MikroView {
                screen: Seq::new(SCREEN_BYTES as nat, |i: int| 0u8),
                ..old(self)@
            }),
    {
        self.screen = filled(SCREEN_BYTES, 0u8);
    }

    /// The screen report of the current framebuffer.
    pub fn write_screen(&self) -> (r: Vec<u8>)
        requires
            self.wf(),
        ensures
            r@ == seq![SCREEN_REPORT_ID] + self@.screen,
    {
        let mut out: Vec<u8> = Vec::new();
        out.push(SCREEN_REPORT_ID);
        let mut i: usize = 0;
        while i < SCREEN_BYTES
            invariant
                self.wf(),
                i <= SCREEN_BYTES,
                out@ == seq![SCREEN_REPORT_ID] + self@.screen.subrange(0, i as int),
            decreases SCREEN_BYTES - i,
        {
            out.push(self.screen[i]);
            assert(self@.screen.subrange(0, i + 1) =~= self@.screen.subrange(0, i as int).push(
                self@.screen[i as int],
            ));
            i = i + 1;
        }
        assert(self@.screen.subrange(0, SCREEN_BYTES as int) =~= self@.screen);
        out
    }
}

fn dim_exec(full: u32, l: Light) -> (r: u8)
    requires
        full <= 255,
    ensures
        r == dim(full as int, l) as u8,
        r as int == dim(full as int, l),
{
    let b: u32 = if l.brightness < 0 {
        0
    } else if l.brightness > BRIGHTNESS_FULL {
        BRIGHTNESS_FULL as u32
    } else {
        l.brightness as u32
    };
    assert(full * b <= 255 * 1000) by (nonlinear_arith)
        requires
            full <= 255,
            b <= 1000,
    ;
    assert(full * b / 1000 <= 255) by (nonlinear_arith)
        requires
            full * b <= 255 * 1000,
    ;
    (full * b / 1000) as u8
}

/// A pad report carrying the given pressures.
pub fn pad_report(pressures: &Vec<u16>) -> (r: Vec<u8>)
    requires
        pressures@.len() == PAD_COUNT,
    ensures
        r@ == pad_report_bytes(pressures@),
{
    let mut out: Vec<u8> = Vec::new();
    out.push(PAD_REPORT_ID);
    let mut i: usize = 0;
    while i < PAD_COUNT
        invariant
            pressures@.len() == PAD_COUNT,
            i <= PAD_COUNT,
            out@.len() == 1 + 2 * i,
            forall|j: int|
                0 <= j < out@.len() ==> #[trigger] out@[j] == pad_report_bytes(pressures@)[j],
        decreases PAD_COUNT - i,
    {
        let p = pressures[i];
        out.push((p % 256) as u8);
        out.push((p / 256) as u8);
        i = i + 1;
    }
    assert(out@ =~= pad_report_bytes(pressures@));
    out
}

/// A button report carrying the given raw bytes and encoder counter.
pub fn button_report(values: &Vec<u8>, encoder: u8) -> (r: Vec<u8>)
    requires
        values@.len() == BUTTON_COUNT,
    ensures
        r@ == button_report_bytes(values@, encoder),
{
    let mut out: Vec<u8> = Vec::new();
    out.push(BUTTON_REPORT_ID);
    let mut i: usize = 0;
    while i < BUTTON_COUNT
        invariant
            values@.len() == BUTTON_COUNT,
            i <= BUTTON_COUNT,
            out@ == seq![BUTTON_REPORT_ID] + values@.subrange(0, i as int),
        decreases BUTTON_COUNT - i,
    {
        out.push(values[i]);
        assert(values@.subrange(0, i + 1) =~= values@.subrange(0, i as int).push(values@[i as int]));
        i = i + 1;
    }
    out.push(encoder);
    assert(values@.subrange(0, BUTTON_COUNT as int) =~= values@);
    assert(out@ =~= button_report_bytes(values@, encoder));
    out
}

} // verus!
