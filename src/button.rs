//! The buttons of the control surface, the names under which they are
//! addressed over OSC, and the MIDI role that each of them plays.
use vstd::prelude::*;
use crate::text::str_eq;

verus! {

/// One physical or virtual button of the control surface.
#[derive(Clone, Copy, PartialEq, Eq, Structural, Debug)]
pub enum MaschineButton {
    Restart,
    Stepleft,
    Stepright,
    Grid,
    Play,
    Rec,
    Erase,
    Shift,
    Browse,
    Sampling,
    Noterepeat,
    Encoder,
    F1,
    F2,
    F3,
    F4,
    F5,
    F6,
    F7,
    F8,
    Swing,
    Step,
    Volume,
    Enter,
    Auto,
    All,
    Navigate,
    Tempo,
    Control,
    Nav,
    Navleft,
    Navright,
    Main,
    Scene,
    Pattern,
    Padmode,
    View,
    Duplicate,
    Select,
    Solo,
    Mute,
    GroupA,
    GroupB,
    GroupC,
    GroupD,
    GroupE,
    GroupF,
    GroupG,
    GroupH,
    Pageright,
    Pageleft,
    R1,
    R2,
    R3,
    R4,
    R5,
    R6,
    R7,
    R8,
    A1,
    A2,
    A3,
    A4,
    A5,
    A6,
    A7,
    A8,
    B1,
    B2,
    B3,
    B4,
    B5,
    B6,
    B7,
    B8,
    C1,
    C2,
    C3,
    C4,
    C5,
    C6,
    C7,
    C8,
    D1,
    D2,
    D3,
    D4,
    D5,
    D6,
    D7,
    D8,
    E1,
    E2,
    E3,
    E4,
    E5,
    E6,
    E7,
    E8,
    FF1,
    FF2,
    FF3,
    FF4,
    FF5,
    FF6,
    FF7,
    FF8,
    G1,
    G2,
    G3,
    G4,
    G5,
    G6,
    G7,
    G8,
    H1,
    H2,
    H3,
    H4,
    H5,
    H6,
    H7,
    H8,
    I1,
    I2,
    I3,
    I4,
    I5,
    I6,
    I7,
    I8,
    J1,
    J2,
    J3,
    J4,
    J5,
    J6,
    J7,
    J8,
    K1,
    K2,
    K3,
    K4,
    K5,
    K6,
    K7,
    K8,
    L1,
    L2,
    L3,
    L4,
    L5,
    L6,
    L7,
    L8,
    M1,
    M2,
    M3,
    M4,
    M5,
    M6,
    M7,
    M8,
    N1,
    N2,
    N3,
    N4,
    N5,
    N6,
    N7,
    N8,
    O1,
    O2,
    O3,
    O4,
    O5,
    O6,
    O7,
    O8,
    P1,
    P2,
    P3,
    P4,
    P5,
    P6,
    P7,
    P8,
}

/// The OSC address segment under which a button is mirrored. Each button
/// has its own (see `lemma_button_name_injective`).
pub open spec fn button_name(b: MaschineButton) -> Seq<char> {
    match b {
        MaschineButton::Restart => "restart"@,
        MaschineButton::Stepleft => "step_left"@,
        MaschineButton::Stepright => "step_right"@,
        MaschineButton::Grid => "grid"@,
        MaschineButton::Play => "play"@,
        MaschineButton::Rec => "rec"@,
        MaschineButton::Erase => "stop"@,
        MaschineButton::Shift => "shift"@,
        MaschineButton::Browse => "browse"@,
        MaschineButton::Sampling => "sampling"@,
        MaschineButton::Noterepeat => "note_repeat"@,
        MaschineButton::Encoder => "encoder"@,
        MaschineButton::F1 => "f1"@,
        MaschineButton::F2 => "f2"@,
        MaschineButton::F3 => "f3"@,
        MaschineButton::F4 => "f4"@,
        MaschineButton::F5 => "f5"@,
        MaschineButton::F6 => "f6"@,
        MaschineButton::F7 => "f7"@,
        MaschineButton::F8 => "f8"@,
        MaschineButton::Swing => "swing"@,
        MaschineButton::Step => "step"@,
        MaschineButton::Volume => "volume"@,
        MaschineButton::Enter => "enter"@,
        MaschineButton::Auto => "auto"@,
        MaschineButton::All => "all"@,
        MaschineButton::Navigate => "navigate"@,
        MaschineButton::Tempo => "tempo"@,
        MaschineButton::Control => "control"@,
        MaschineButton::Nav => "nav"@,
        MaschineButton::Navleft => "nav_left"@,
        MaschineButton::Navright => "nav_right"@,
        MaschineButton::Main => "main"@,
        MaschineButton::Scene => "scene"@,
        MaschineButton::Pattern => "pattern"@,
        MaschineButton::Padmode => "pad_mode"@,
        MaschineButton::View => "view"@,
        MaschineButton::Duplicate => "duplicate"@,
        MaschineButton::Select => "select"@,
        MaschineButton::Solo => "solo"@,
        MaschineButton::Mute => "mute"@,
        MaschineButton::GroupA => "group_a"@,
        MaschineButton::GroupB => "group_b"@,
        MaschineButton::GroupC => "group_c"@,
        MaschineButton::GroupD => "group_d"@,
        MaschineButton::GroupE => "group_e"@,
        MaschineButton::GroupF => "group_f"@,
        MaschineButton::GroupG => "group_g"@,
        MaschineButton::GroupH => "group_h"@,
        MaschineButton::Pageright => "page_right"@,
        MaschineButton::Pageleft => "page_left"@,
        MaschineButton::R1 => "R1"@,
        MaschineButton::R2 => "R2"@,
        MaschineButton::R3 => "R3"@,
        MaschineButton::R4 => "R4"@,
        MaschineButton::R5 => "R5"@,
        MaschineButton::R6 => "R6"@,
        MaschineButton::R7 => "R7"@,
        MaschineButton::R8 => "R8"@,
        MaschineButton::A1 => "A1"@,
        MaschineButton::A2 => "A2"@,
        MaschineButton::A3 => "A3"@,
        MaschineButton::A4 => "A4"@,
        MaschineButton::A5 => "A5"@,
        MaschineButton::A6 => "A6"@,
        MaschineButton::A7 => "A7"@,
        MaschineButton::A8 => "A8"@,
        MaschineButton::B1 => "B1"@,
        MaschineButton::B2 => "B2"@,
        MaschineButton::B3 => "B3"@,
        MaschineButton::B4 => "B4"@,
        MaschineButton::B5 => "B5"@,
        MaschineButton::B6 => "B6"@,
        MaschineButton::B7 => "B7"@,
        MaschineButton::B8 => "B8"@,
        MaschineButton::C1 => "C1"@,
        MaschineButton::C2 => "C2"@,
        MaschineButton::C3 => "C3"@,
        MaschineButton::C4 => "C4"@,
        MaschineButton::C5 => "C5"@,
        MaschineButton::C6 => "C6"@,
        MaschineButton::C7 => "C7"@,
        MaschineButton::C8 => "C8"@,
        MaschineButton::D1 => "D1"@,
        MaschineButton::D2 => "D2"@,
        MaschineButton::D3 => "D3"@,
        MaschineButton::D4 => "D4"@,
        MaschineButton::D5 => "D5"@,
        MaschineButton::D6 => "D6"@,
        MaschineButton::D7 => "D7"@,
        MaschineButton::D8 => "D8"@,
        MaschineButton::E1 => "E1"@,
        MaschineButton::E2 => "E2"@,
        MaschineButton::E3 => "E3"@,
        MaschineButton::E4 => "E4"@,
        MaschineButton::E5 => "E5"@,
        MaschineButton::E6 => "E6"@,
        MaschineButton::E7 => "E7"@,
        MaschineButton::E8 => "E8"@,
        MaschineButton::FF1 => "FF1"@,
        MaschineButton::FF2 => "FF2"@,
        MaschineButton::FF3 => "FF3"@,
        MaschineButton::FF4 => "FF4"@,
        MaschineButton::FF5 => "FF5"@,
        MaschineButton::FF6 => "FF6"@,
        MaschineButton::FF7 => "FF7"@,
        MaschineButton::FF8 => "FF8"@,
        MaschineButton::G1 => "G1"@,
        MaschineButton::G2 => "G2"@,
        MaschineButton::G3 => "G3"@,
        MaschineButton::G4 => "G4"@,
        MaschineButton::G5 => "G5"@,
        MaschineButton::G6 => "G6"@,
        MaschineButton::G7 => "G7"@,
        MaschineButton::G8 => "G8"@,
        MaschineButton::H1 => "H1"@,
        MaschineButton::H2 => "H2"@,
        MaschineButton::H3 => "H3"@,
        MaschineButton::H4 => "H4"@,
        MaschineButton::H5 => "H5"@,
        MaschineButton::H6 => "H6"@,
        MaschineButton::H7 => "H7"@,
        MaschineButton::H8 => "H8"@,
        MaschineButton::I1 => "I1"@,
        MaschineButton::I2 => "I2"@,
        MaschineButton::I3 => "I3"@,
        MaschineButton::I4 => "I4"@,
        MaschineButton::I5 => "I5"@,
        MaschineButton::I6 => "I6"@,
        MaschineButton::I7 => "I7"@,
        MaschineButton::I8 => "I8"@,
        MaschineButton::J1 => "J1"@,
        MaschineButton::J2 => "J2"@,
        MaschineButton::J3 => "J3"@,
        MaschineButton::J4 => "J4"@,
        MaschineButton::J5 => "J5"@,
        MaschineButton::J6 => "J6"@,
        MaschineButton::J7 => "J7"@,
        MaschineButton::J8 => "J8"@,
        MaschineButton::K1 => "K1"@,
        MaschineButton::K2 => "K2"@,
        MaschineButton::K3 => "K3"@,
        MaschineButton::K4 => "K4"@,
        MaschineButton::K5 => "K5"@,
        MaschineButton::K6 => "K6"@,
        MaschineButton::K7 => "K7"@,
        MaschineButton::K8 => "K8"@,
        MaschineButton::L1 => "L1"@,
        MaschineButton::L2 => "L2"@,
        MaschineButton::L3 => "L3"@,
        MaschineButton::L4 => "L4"@,
        MaschineButton::L5 => "L5"@,
        MaschineButton::L6 => "L6"@,
        MaschineButton::L7 => "L7"@,
        MaschineButton::L8 => "L8"@,
        MaschineButton::M1 => "M1"@,
        MaschineButton::M2 => "M2"@,
        MaschineButton::M3 => "M3"@,
        MaschineButton::M4 => "M4"@,
        MaschineButton::M5 => "M5"@,
        MaschineButton::M6 => "M6"@,
        MaschineButton::M7 => "M7"@,
        MaschineButton::M8 => "M8"@,
        MaschineButton::N1 => "N1"@,
        MaschineButton::N2 => "N2"@,
        MaschineButton::N3 => "N3"@,
        MaschineButton::N4 => "N4"@,
        MaschineButton::N5 => "N5"@,
        MaschineButton::N6 => "N6"@,
        MaschineButton::N7 => "N7"@,
        MaschineButton::N8 => "N8"@,
        MaschineButton::O1 => "O1"@,
        MaschineButton::O2 => "O2"@,
        MaschineButton::O3 => "O3"@,
        MaschineButton::O4 => "O4"@,
        MaschineButton::O5 => "O5"@,
        MaschineButton::O6 => "O6"@,
        MaschineButton::O7 => "O7"@,
        MaschineButton::O8 => "O8"@,
        MaschineButton::P1 => "P1"@,
        MaschineButton::P2 => "P2"@,
        MaschineButton::P3 => "P3"@,
        MaschineButton::P4 => "P4"@,
        MaschineButton::P5 => "P5"@,
        MaschineButton::P6 => "P6"@,
        MaschineButton::P7 => "P7"@,
        MaschineButton::P8 => "P8"@,
    }
}

/// The OSC address segment of a button.
pub fn btn_to_osc_button_map(btn: MaschineButton) -> (r: &'static str)
    ensures
        r@ == button_name(btn),
{
    match btn {
        MaschineButton::Restart => "restart",
        MaschineButton::Stepleft => "step_left",
        MaschineButton::Stepright => "step_right",
        MaschineButton::Grid => "grid",
        MaschineButton::Play => "play",
        MaschineButton::Rec => "rec",
        MaschineButton::Erase => "stop",
        MaschineButton::Shift => "shift",
        MaschineButton::Browse => "browse",
        MaschineButton::Sampling => "sampling",
        MaschineButton::Noterepeat => "note_repeat",
        MaschineButton::Encoder => "encoder",
        MaschineButton::F1 => "f1",
        MaschineButton::F2 => "f2",
        MaschineButton::F3 => "f3",
        MaschineButton::F4 => "f4",
        MaschineButton::F5 => "f5",
        MaschineButton::F6 => "f6",
        MaschineButton::F7 => "f7",
        MaschineButton::F8 => "f8",
        MaschineButton::Swing => "swing",
        MaschineButton::Step => "step",
        MaschineButton::Volume => "volume",
        MaschineButton::Enter => "enter",
        MaschineButton::Auto => "auto",
        MaschineButton::All => "all",
        MaschineButton::Navigate => "navigate",
        MaschineButton::Tempo => "tempo",
        MaschineButton::Control => "control",
        MaschineButton::Nav => "nav",
        MaschineButton::Navleft => "nav_left",
        MaschineButton::Navright => "nav_right",
        MaschineButton::Main => "main",
        MaschineButton::Scene => "scene",
        MaschineButton::Pattern => "pattern",
        MaschineButton::Padmode => "pad_mode",
        MaschineButton::View => "view",
        MaschineButton::Duplicate => "duplicate",
        MaschineButton::Select => "select",
        MaschineButton::Solo => "solo",
        MaschineButton::Mute => "mute",
        MaschineButton::GroupA => "group_a",
        MaschineButton::GroupB => "group_b",
        MaschineButton::GroupC => "group_c",
        MaschineButton::GroupD => "group_d",
        MaschineButton::GroupE => "group_e",
        MaschineButton::GroupF => "group_f",
        MaschineButton::GroupG => "group_g",
        MaschineButton::GroupH => "group_h",
        MaschineButton::Pageright => "page_right",
        MaschineButton::Pageleft => "page_left",
        MaschineButton::R1 => "R1",
        MaschineButton::R2 => "R2",
        MaschineButton::R3 => "R3",
        MaschineButton::R4 => "R4",
        MaschineButton::R5 => "R5",
        MaschineButton::R6 => "R6",
        MaschineButton::R7 => "R7",
        MaschineButton::R8 => "R8",
        MaschineButton::A1 => "A1",
        MaschineButton::A2 => "A2",
        MaschineButton::A3 => "A3",
        MaschineButton::A4 => "A4",
        MaschineButton::A5 => "A5",
        MaschineButton::A6 => "A6",
        MaschineButton::A7 => "A7",
        MaschineButton::A8 => "A8",
        MaschineButton::B1 => "B1",
        MaschineButton::B2 => "B2",
        MaschineButton::B3 => "B3",
        MaschineButton::B4 => "B4",
        MaschineButton::B5 => "B5",
        MaschineButton::B6 => "B6",
        MaschineButton::B7 => "B7",
        MaschineButton::B8 => "B8",
        MaschineButton::C1 => "C1",
        MaschineButton::C2 => "C2",
        MaschineButton::C3 => "C3",
        MaschineButton::C4 => "C4",
        MaschineButton::C5 => "C5",
        MaschineButton::C6 => "C6",
        MaschineButton::C7 => "C7",
        MaschineButton::C8 => "C8",
        MaschineButton::D1 => "D1",
        MaschineButton::D2 => "D2",
        MaschineButton::D3 => "D3",
        MaschineButton::D4 => "D4",
        MaschineButton::D5 => "D5",
        MaschineButton::D6 => "D6",
        MaschineButton::D7 => "D7",
        MaschineButton::D8 => "D8",
        MaschineButton::E1 => "E1",
        MaschineButton::E2 => "E2",
        MaschineButton::E3 => "E3",
        MaschineButton::E4 => "E4",
        MaschineButton::E5 => "E5",
        MaschineButton::E6 => "E6",
        MaschineButton::E7 => "E7",
        MaschineButton::E8 => "E8",
        MaschineButton::FF1 => "FF1",
        MaschineButton::FF2 => "FF2",
        MaschineButton::FF3 => "FF3",
        MaschineButton::FF4 => "FF4",
        MaschineButton::FF5 => "FF5",
        MaschineButton::FF6 => "FF6",
        MaschineButton::FF7 => "FF7",
        MaschineButton::FF8 => "FF8",
        MaschineButton::G1 => "G1",
        MaschineButton::G2 => "G2",
        MaschineButton::G3 => "G3",
        MaschineButton::G4 => "G4",
        MaschineButton::G5 => "G5",
        MaschineButton::G6 => "G6",
        MaschineButton::G7 => "G7",
        MaschineButton::G8 => "G8",
        MaschineButton::H1 => "H1",
        MaschineButton::H2 => "H2",
        MaschineButton::H3 => "H3",
        MaschineButton::H4 => "H4",
        MaschineButton::H5 => "H5",
        MaschineButton::H6 => "H6",
        MaschineButton::H7 => "H7",
        MaschineButton::H8 => "H8",
        MaschineButton::I1 => "I1",
        MaschineButton::I2 => "I2",
        MaschineButton::I3 => "I3",
        MaschineButton::I4 => "I4",
        MaschineButton::I5 => "I5",
        MaschineButton::I6 => "I6",
        MaschineButton::I7 => "I7",
        MaschineButton::I8 => "I8",
        MaschineButton::J1 => "J1",
        MaschineButton::J2 => "J2",
        MaschineButton::J3 => "J3",
        MaschineButton::J4 => "J4",
        MaschineButton::J5 => "J5",
        MaschineButton::J6 => "J6",
        MaschineButton::J7 => "J7",
        MaschineButton::J8 => "J8",
        MaschineButton::K1 => "K1",
        MaschineButton::K2 => "K2",
        MaschineButton::K3 => "K3",
        MaschineButton::K4 => "K4",
        MaschineButton::K5 => "K5",
        MaschineButton::K6 => "K6",
        MaschineButton::K7 => "K7",
        MaschineButton::K8 => "K8",
        MaschineButton::L1 => "L1",
        MaschineButton::L2 => "L2",
        MaschineButton::L3 => "L3",
        MaschineButton::L4 => "L4",
        MaschineButton::L5 => "L5",
        MaschineButton::L6 => "L6",
        MaschineButton::L7 => "L7",
        MaschineButton::L8 => "L8",
        MaschineButton::M1 => "M1",
        MaschineButton::M2 => "M2",
        MaschineButton::M3 => "M3",
        MaschineButton::M4 => "M4",
        MaschineButton::M5 => "M5",
        MaschineButton::M6 => "M6",
        MaschineButton::M7 => "M7",
        MaschineButton::M8 => "M8",
        MaschineButton::N1 => "N1",
        MaschineButton::N2 => "N2",
        MaschineButton::N3 => "N3",
        MaschineButton::N4 => "N4",
        MaschineButton::N5 => "N5",
        MaschineButton::N6 => "N6",
        MaschineButton::N7 => "N7",
        MaschineButton::N8 => "N8",
        MaschineButton::O1 => "O1",
        MaschineButton::O2 => "O2",
        MaschineButton::O3 => "O3",
        MaschineButton::O4 => "O4",
        MaschineButton::O5 => "O5",
        MaschineButton::O6 => "O6",
        MaschineButton::O7 => "O7",
        MaschineButton::O8 => "O8",
        MaschineButton::P1 => "P1",
        MaschineButton::P2 => "P2",
        MaschineButton::P3 => "P3",
        MaschineButton::P4 => "P4",
        MaschineButton::P5 => "P5",
        MaschineButton::P6 => "P6",
        MaschineButton::P7 => "P7",
        MaschineButton::P8 => "P8",
    }
}

/// How many buttons there are.
pub const BUTTON_VARIANTS: usize = 187;

/// The buttons in lookup order.
pub open spec fn nth_button(i: int) -> MaschineButton {
    if i == 0 {
        MaschineButton::Restart
    } else if i == 1 {
        MaschineButton::Stepleft
    } else if i == 2 {
        MaschineButton::Stepright
    } else if i == 3 {
        MaschineButton::Grid
    } else if i == 4 {
        MaschineButton::Play
    } else if i == 5 {
        MaschineButton::Rec
    } else if i == 6 {
        MaschineButton::Erase
    } else if i == 7 {
        MaschineButton::Shift
    } else if i == 8 {
        MaschineButton::Browse
    } else if i == 9 {
        MaschineButton::Sampling
    } else if i == 10 {
        MaschineButton::Noterepeat
    } else if i == 11 {
        MaschineButton::Encoder
    } else if i == 12 {
        MaschineButton::F1
    } else if i == 13 {
        MaschineButton::F2
    } else if i == 14 {
        MaschineButton::F3
    } else if i == 15 {
        MaschineButton::F4
    } else if i == 16 {
        MaschineButton::F5
    } else if i == 17 {
        MaschineButton::F6
    } else if i == 18 {
        MaschineButton::F7
    } else if i == 19 {
        MaschineButton::F8
    } else if i == 20 {
        MaschineButton::Swing
    } else if i == 21 {
        MaschineButton::Step
    } else if i == 22 {
        MaschineButton::Volume
    } else if i == 23 {
        MaschineButton::Enter
    } else if i == 24 {
        MaschineButton::Auto
    } else if i == 25 {
        MaschineButton::All
    } else if i == 26 {
        MaschineButton::Navigate
    } else if i == 27 {
        MaschineButton::Tempo
    } else if i == 28 {
        MaschineButton::Control
    } else if i == 29 {
        MaschineButton::Nav
    } else if i == 30 {
        MaschineButton::Navleft
    } else if i == 31 {
        MaschineButton::Navright
    } else if i == 32 {
        MaschineButton::Main
    } else if i == 33 {
        MaschineButton::Scene
    } else if i == 34 {
        MaschineButton::Pattern
    } else if i == 35 {
        MaschineButton::Padmode
    } else if i == 36 {
        MaschineButton::View
    } else if i == 37 {
        MaschineButton::Duplicate
    } else if i == 38 {
        MaschineButton::Select
    } else if i == 39 {
        MaschineButton::Solo
    } else if i == 40 {
        MaschineButton::Mute
    } else if i == 41 {
        MaschineButton::GroupA
    } else if i == 42 {
        MaschineButton::GroupB
    } else if i == 43 {
        MaschineButton::GroupC
    } else if i == 44 {
        MaschineButton::GroupD
    } else if i == 45 {
        MaschineButton::GroupE
    } else if i == 46 {
        MaschineButton::GroupF
    } else if i == 47 {
        MaschineButton::GroupG
    } else if i == 48 {
        MaschineButton::GroupH
    } else if i == 49 {
        MaschineButton::Pageright
    } else if i == 50 {
        MaschineButton::Pageleft
    } else if i == 51 {
        MaschineButton::R1
    } else if i == 52 {
        MaschineButton::R2
    } else if i == 53 {
        MaschineButton::R3
    } else if i == 54 {
        MaschineButton::R4
    } else if i == 55 {
        MaschineButton::R5
    } else if i == 56 {
        MaschineButton::R6
    } else if i == 57 {
        MaschineButton::R7
    } else if i == 58 {
        MaschineButton::R8
    } else if i == 59 {
        MaschineButton::A1
    } else if i == 60 {
        MaschineButton::A2
    } else if i == 61 {
        MaschineButton::A3
    } else if i == 62 {
        MaschineButton::A4
    } else if i == 63 {
        MaschineButton::A5
    } else if i == 64 {
        MaschineButton::A6
    } else if i == 65 {
        MaschineButton::A7
    } else if i == 66 {
        MaschineButton::A8
    } else if i == 67 {
        MaschineButton::B1
    } else if i == 68 {
        MaschineButton::B2
    } else if i == 69 {
        MaschineButton::B3
    } else if i == 70 {
        MaschineButton::B4
    } else if i == 71 {
        MaschineButton::B5
    } else if i == 72 {
        MaschineButton::B6
    } else if i == 73 {
        MaschineButton::B7
    } else if i == 74 {
        MaschineButton::B8
    } else if i == 75 {
        MaschineButton::C1
    } else if i == 76 {
        MaschineButton::C2
    } else if i == 77 {
        MaschineButton::C3
    } else if i == 78 {
        MaschineButton::C4
    } else if i == 79 {
        MaschineButton::C5
    } else if i == 80 {
        MaschineButton::C6
    } else if i == 81 {
        MaschineButton::C7
    } else if i == 82 {
        MaschineButton::C8
    } else if i == 83 {
        MaschineButton::D1
    } else if i == 84 {
        MaschineButton::D2
    } else if i == 85 {
        MaschineButton::D3
    } else if i == 86 {
        MaschineButton::D4
    } else if i == 87 {
        MaschineButton::D5
    } else if i == 88 {
        MaschineButton::D6
    } else if i == 89 {
        MaschineButton::D7
    } else if i == 90 {
        MaschineButton::D8
    } else if i == 91 {
        MaschineButton::E1
    } else if i == 92 {
        MaschineButton::E2
    } else if i == 93 {
        MaschineButton::E3
    } else if i == 94 {
        MaschineButton::E4
    } else if i == 95 {
        MaschineButton::E5
    } else if i == 96 {
        MaschineButton::E6
    } else if i == 97 {
        MaschineButton::E7
    } else if i == 98 {
        MaschineButton::E8
    } else if i == 99 {
        MaschineButton::FF1
    } else if i == 100 {
        MaschineButton::FF2
    } else if i == 101 {
        MaschineButton::FF3
    } else if i == 102 {
        MaschineButton::FF4
    } else if i == 103 {
        MaschineButton::FF5
    } else if i == 104 {
        MaschineButton::FF6
    } else if i == 105 {
        MaschineButton::FF7
    } else if i == 106 {
        MaschineButton::FF8
    } else if i == 107 {
        MaschineButton::G1
    } else if i == 108 {
        MaschineButton::G2
    } else if i == 109 {
        MaschineButton::G3
    } else if i == 110 {
        MaschineButton::G4
    } else if i == 111 {
        MaschineButton::G5
    } else if i == 112 {
        MaschineButton::G6
    } else if i == 113 {
        MaschineButton::G7
    } else if i == 114 {
        MaschineButton::G8
    } else if i == 115 {
        MaschineButton::H1
    } else if i == 116 {
        MaschineButton::H2
    } else if i == 117 {
        MaschineButton::H3
    } else if i == 118 {
        MaschineButton::H4
    } else if i == 119 {
        MaschineButton::H5
    } else if i == 120 {
        MaschineButton::H6
    } else if i == 121 {
        MaschineButton::H7
    } else if i == 122 {
        MaschineButton::H8
    } else if i == 123 {
        MaschineButton::I1
    } else if i == 124 {
        MaschineButton::I2
    } else if i == 125 {
        MaschineButton::I3
    } else if i == 126 {
        MaschineButton::I4
    } else if i == 127 {
        MaschineButton::I5
    } else if i == 128 {
        MaschineButton::I6
    } else if i == 129 {
        MaschineButton::I7
    } else if i == 130 {
        MaschineButton::I8
    } else if i == 131 {
        MaschineButton::J1
    } else if i == 132 {
        MaschineButton::J2
    } else if i == 133 {
        MaschineButton::J3
    } else if i == 134 {
        MaschineButton::J4
    } else if i == 135 {
        MaschineButton::J5
    } else if i == 136 {
        MaschineButton::J6
    } else if i == 137 {
        MaschineButton::J7
    } else if i == 138 {
        MaschineButton::J8
    } else if i == 139 {
        MaschineButton::K1
    } else if i == 140 {
        MaschineButton::K2
    } else if i == 141 {
        MaschineButton::K3
    } else if i == 142 {
        MaschineButton::K4
    } else if i == 143 {
        MaschineButton::K5
    } else if i == 144 {
        MaschineButton::K6
    } else if i == 145 {
        MaschineButton::K7
    } else if i == 146 {
        MaschineButton::K8
    } else if i == 147 {
        MaschineButton::L1
    } else if i == 148 {
        MaschineButton::L2
    } else if i == 149 {
        MaschineButton::L3
    } else if i == 150 {
        MaschineButton::L4
    } else if i == 151 {
        MaschineButton::L5
    } else if i == 152 {
        MaschineButton::L6
    } else if i == 153 {
        MaschineButton::L7
    } else if i == 154 {
        MaschineButton::L8
    } else if i == 155 {
        MaschineButton::M1
    } else if i == 156 {
        MaschineButton::M2
    } else if i == 157 {
        MaschineButton::M3
    } else if i == 158 {
        MaschineButton::M4
    } else if i == 159 {
        MaschineButton::M5
    } else if i == 160 {
        MaschineButton::M6
    } else if i == 161 {
        MaschineButton::M7
    } else if i == 162 {
        MaschineButton::M8
    } else if i == 163 {
        MaschineButton::N1
    } else if i == 164 {
        MaschineButton::N2
    } else if i == 165 {
        MaschineButton::N3
    } else if i == 166 {
        MaschineButton::N4
    } else if i == 167 {
        MaschineButton::N5
    } else if i == 168 {
        MaschineButton::N6
    } else if i == 169 {
        MaschineButton::N7
    } else if i == 170 {
        MaschineButton::N8
    } else if i == 171 {
        MaschineButton::O1
    } else if i == 172 {
        MaschineButton::O2
    } else if i == 173 {
        MaschineButton::O3
    } else if i == 174 {
        MaschineButton::O4
    } else if i == 175 {
        MaschineButton::O5
    } else if i == 176 {
        MaschineButton::O6
    } else if i == 177 {
        MaschineButton::O7
    } else if i == 178 {
        MaschineButton::O8
    } else if i == 179 {
        MaschineButton::P1
    } else if i == 180 {
        MaschineButton::P2
    } else if i == 181 {
        MaschineButton::P3
    } else if i == 182 {
        MaschineButton::P4
    } else if i == 183 {
        MaschineButton::P5
    } else if i == 184 {
        MaschineButton::P6
    } else if i == 185 {
        MaschineButton::P7
    } else {
        MaschineButton::P8
    }
}

/// The position of a button in lookup order.
pub open spec fn button_index(b: MaschineButton) -> int {
    match b {
        MaschineButton::Restart => 0,
        MaschineButton::Stepleft => 1,
        MaschineButton::Stepright => 2,
        MaschineButton::Grid => 3,
        MaschineButton::Play => 4,
        MaschineButton::Rec => 5,
        MaschineButton::Erase => 6,
        MaschineButton::Shift => 7,
        MaschineButton::Browse => 8,
        MaschineButton::Sampling => 9,
        MaschineButton::Noterepeat => 10,
        MaschineButton::Encoder => 11,
        MaschineButton::F1 => 12,
        MaschineButton::F2 => 13,
        MaschineButton::F3 => 14,
        MaschineButton::F4 => 15,
        MaschineButton::F5 => 16,
        MaschineButton::F6 => 17,
        MaschineButton::F7 => 18,
        MaschineButton::F8 => 19,
        MaschineButton::Swing => 20,
        MaschineButton::Step => 21,
        MaschineButton::Volume => 22,
        MaschineButton::Enter => 23,
        MaschineButton::Auto => 24,
        MaschineButton::All => 25,
        MaschineButton::Navigate => 26,
        MaschineButton::Tempo => 27,
        MaschineButton::Control => 28,
        MaschineButton::Nav => 29,
        MaschineButton::Navleft => 30,
        MaschineButton::Navright => 31,
        MaschineButton::Main => 32,
        MaschineButton::Scene => 33,
        MaschineButton::Pattern => 34,
        MaschineButton::Padmode => 35,
        MaschineButton::View => 36,
        MaschineButton::Duplicate => 37,
        MaschineButton::Select => 38,
        MaschineButton::Solo => 39,
        MaschineButton::Mute => 40,
        MaschineButton::GroupA => 41,
        MaschineButton::GroupB => 42,
        MaschineButton::GroupC => 43,
        MaschineButton::GroupD => 44,
        MaschineButton::GroupE => 45,
        MaschineButton::GroupF => 46,
        MaschineButton::GroupG => 47,
        MaschineButton::GroupH => 48,
        MaschineButton::Pageright => 49,
        MaschineButton::Pageleft => 50,
        MaschineButton::R1 => 51,
        MaschineButton::R2 => 52,
        MaschineButton::R3 => 53,
        MaschineButton::R4 => 54,
        MaschineButton::R5 => 55,
        MaschineButton::R6 => 56,
        MaschineButton::R7 => 57,
        MaschineButton::R8 => 58,
        MaschineButton::A1 => 59,
        MaschineButton::A2 => 60,
        MaschineButton::A3 => 61,
        MaschineButton::A4 => 62,
        MaschineButton::A5 => 63,
        MaschineButton::A6 => 64,
        MaschineButton::A7 => 65,
        MaschineButton::A8 => 66,
        MaschineButton::B1 => 67,
        MaschineButton::B2 => 68,
        MaschineButton::B3 => 69,
        MaschineButton::B4 => 70,
        MaschineButton::B5 => 71,
        MaschineButton::B6 => 72,
        MaschineButton::B7 => 73,
        MaschineButton::B8 => 74,
        MaschineButton::C1 => 75,
        MaschineButton::C2 => 76,
        MaschineButton::C3 => 77,
        MaschineButton::C4 => 78,
        MaschineButton::C5 => 79,
        MaschineButton::C6 => 80,
        MaschineButton::C7 => 81,
        MaschineButton::C8 => 82,
        MaschineButton::D1 => 83,
        MaschineButton::D2 => 84,
        MaschineButton::D3 => 85,
        MaschineButton::D4 => 86,
        MaschineButton::D5 => 87,
        MaschineButton::D6 => 88,
        MaschineButton::D7 => 89,
        MaschineButton::D8 => 90,
        MaschineButton::E1 => 91,
        MaschineButton::E2 => 92,
        MaschineButton::E3 => 93,
        MaschineButton::E4 => 94,
        MaschineButton::E5 => 95,
        MaschineButton::E6 => 96,
        MaschineButton::E7 => 97,
        MaschineButton::E8 => 98,
        MaschineButton::FF1 => 99,
        MaschineButton::FF2 => 100,
        MaschineButton::FF3 => 101,
        MaschineButton::FF4 => 102,
        MaschineButton::FF5 => 103,
        MaschineButton::FF6 => 104,
        MaschineButton::FF7 => 105,
        MaschineButton::FF8 => 106,
        MaschineButton::G1 => 107,
        MaschineButton::G2 => 108,
        MaschineButton::G3 => 109,
        MaschineButton::G4 => 110,
        MaschineButton::G5 => 111,
        MaschineButton::G6 => 112,
        MaschineButton::G7 => 113,
        MaschineButton::G8 => 114,
        MaschineButton::H1 => 115,
        MaschineButton::H2 => 116,
        MaschineButton::H3 => 117,
        MaschineButton::H4 => 118,
        MaschineButton::H5 => 119,
        MaschineButton::H6 => 120,
        MaschineButton::H7 => 121,
        MaschineButton::H8 => 122,
        MaschineButton::I1 => 123,
        MaschineButton::I2 => 124,
        MaschineButton::I3 => 125,
        MaschineButton::I4 => 126,
        MaschineButton::I5 => 127,
        MaschineButton::I6 => 128,
        MaschineButton::I7 => 129,
        MaschineButton::I8 => 130,
        MaschineButton::J1 => 131,
        MaschineButton::J2 => 132,
        MaschineButton::J3 => 133,
        MaschineButton::J4 => 134,
        MaschineButton::J5 => 135,
        MaschineButton::J6 => 136,
        MaschineButton::J7 => 137,
        MaschineButton::J8 => 138,
        MaschineButton::K1 => 139,
        MaschineButton::K2 => 140,
        MaschineButton::K3 => 141,
        MaschineButton::K4 => 142,
        MaschineButton::K5 => 143,
        MaschineButton::K6 => 144,
        MaschineButton::K7 => 145,
        MaschineButton::K8 => 146,
        MaschineButton::L1 => 147,
        MaschineButton::L2 => 148,
        MaschineButton::L3 => 149,
        MaschineButton::L4 => 150,
        MaschineButton::L5 => 151,
        MaschineButton::L6 => 152,
        MaschineButton::L7 => 153,
        MaschineButton::L8 => 154,
        MaschineButton::M1 => 155,
        MaschineButton::M2 => 156,
        MaschineButton::M3 => 157,
        MaschineButton::M4 => 158,
        MaschineButton::M5 => 159,
        MaschineButton::M6 => 160,
        MaschineButton::M7 => 161,
        MaschineButton::M8 => 162,
        MaschineButton::N1 => 163,
        MaschineButton::N2 => 164,
        MaschineButton::N3 => 165,
        MaschineButton::N4 => 166,
        MaschineButton::N5 => 167,
        MaschineButton::N6 => 168,
        MaschineButton::N7 => 169,
        MaschineButton::N8 => 170,
        MaschineButton::O1 => 171,
        MaschineButton::O2 => 172,
        MaschineButton::O3 => 173,
        MaschineButton::O4 => 174,
        MaschineButton::O5 => 175,
        MaschineButton::O6 => 176,
        MaschineButton::O7 => 177,
        MaschineButton::O8 => 178,
        MaschineButton::P1 => 179,
        MaschineButton::P2 => 180,
        MaschineButton::P3 => 181,
        MaschineButton::P4 => 182,
        MaschineButton::P5 => 183,
        MaschineButton::P6 => 184,
        MaschineButton::P7 => 185,
        MaschineButton::P8 => 186,
    }
}

/// The `i`-th button in lookup order.
fn nth_button_at(i: usize) -> (r: MaschineButton)
    requires
        i < BUTTON_VARIANTS,
    ensures
        r == nth_button(i as int),
{
    if i == 0 {
        MaschineButton::Restart
    } else if i == 1 {
        MaschineButton::Stepleft
    } else if i == 2 {
        MaschineButton::Stepright
    } else if i == 3 {
        MaschineButton::Grid
    } else if i == 4 {
        MaschineButton::Play
    } else if i == 5 {
        MaschineButton::Rec
    } else if i == 6 {
        MaschineButton::Erase
    } else if i == 7 {
        MaschineButton::Shift
    } else if i == 8 {
        MaschineButton::Browse
    } else if i == 9 {
        MaschineButton::Sampling
    } else if i == 10 {
        MaschineButton::Noterepeat
    } else if i == 11 {
        MaschineButton::Encoder
    } else if i == 12 {
        MaschineButton::F1
    } else if i == 13 {
        MaschineButton::F2
    } else if i == 14 {
        MaschineButton::F3
    } else if i == 15 {
        MaschineButton::F4
    } else if i == 16 {
        MaschineButton::F5
    } else if i == 17 {
        MaschineButton::F6
    } else if i == 18 {
        MaschineButton::F7
    } else if i == 19 {
        MaschineButton::F8
    } else if i == 20 {
        MaschineButton::Swing
    } else if i == 21 {
        MaschineButton::Step
    } else if i == 22 {
        MaschineButton::Volume
    } else if i == 23 {
        MaschineButton::Enter
    } else if i == 24 {
        MaschineButton::Auto
    } else if i == 25 {
        MaschineButton::All
    } else if i == 26 {
        MaschineButton::Navigate
    } else if i == 27 {
        MaschineButton::Tempo
    } else if i == 28 {
        MaschineButton::Control
    } else if i == 29 {
        MaschineButton::Nav
    } else if i == 30 {
        MaschineButton::Navleft
    } else if i == 31 {
        MaschineButton::Navright
    } else if i == 32 {
        MaschineButton::Main
    } else if i == 33 {
        MaschineButton::Scene
    } else if i == 34 {
        MaschineButton::Pattern
    } else if i == 35 {
        MaschineButton::Padmode
    } else if i == 36 {
        MaschineButton::View
    } else if i == 37 {
        MaschineButton::Duplicate
    } else if i == 38 {
        MaschineButton::Select
    } else if i == 39 {
        MaschineButton::Solo
    } else if i == 40 {
        MaschineButton::Mute
    } else if i == 41 {
        MaschineButton::GroupA
    } else if i == 42 {
        MaschineButton::GroupB
    } else if i == 43 {
        MaschineButton::GroupC
    } else if i == 44 {
        MaschineButton::GroupD
    } else if i == 45 {
        MaschineButton::GroupE
    } else if i == 46 {
        MaschineButton::GroupF
    } else if i == 47 {
        MaschineButton::GroupG
    } else if i == 48 {
        MaschineButton::GroupH
    } else if i == 49 {
        MaschineButton::Pageright
    } else if i == 50 {
        MaschineButton::Pageleft
    } else if i == 51 {
        MaschineButton::R1
    } else if i == 52 {
        MaschineButton::R2
    } else if i == 53 {
        MaschineButton::R3
    } else if i == 54 {
        MaschineButton::R4
    } else if i == 55 {
        MaschineButton::R5
    } else if i == 56 {
        MaschineButton::R6
    } else if i == 57 {
        MaschineButton::R7
    } else if i == 58 {
        MaschineButton::R8
    } else if i == 59 {
        MaschineButton::A1
    } else if i == 60 {
        MaschineButton::A2
    } else if i == 61 {
        MaschineButton::A3
    } else if i == 62 {
        MaschineButton::A4
    } else if i == 63 {
        MaschineButton::A5
    } else if i == 64 {
        MaschineButton::A6
    } else if i == 65 {
        MaschineButton::A7
    } else if i == 66 {
        MaschineButton::A8
    } else if i == 67 {
        MaschineButton::B1
    } else if i == 68 {
        MaschineButton::B2
    } else if i == 69 {
        MaschineButton::B3
    } else if i == 70 {
        MaschineButton::B4
    } else if i == 71 {
        MaschineButton::B5
    } else if i == 72 {
        MaschineButton::B6
    } else if i == 73 {
        MaschineButton::B7
    } else if i == 74 {
        MaschineButton::B8
    } else if i == 75 {
        MaschineButton::C1
    } else if i == 76 {
        MaschineButton::C2
    } else if i == 77 {
        MaschineButton::C3
    } else if i == 78 {
        MaschineButton::C4
    } else if i == 79 {
        MaschineButton::C5
    } else if i == 80 {
        MaschineButton::C6
    } else if i == 81 {
        MaschineButton::C7
    } else if i == 82 {
        MaschineButton::C8
    } else if i == 83 {
        MaschineButton::D1
    } else if i == 84 {
        MaschineButton::D2
    } else if i == 85 {
        MaschineButton::D3
    } else if i == 86 {
        MaschineButton::D4
    } else if i == 87 {
        MaschineButton::D5
    } else if i == 88 {
        MaschineButton::D6
    } else if i == 89 {
        MaschineButton::D7
    } else if i == 90 {
        MaschineButton::D8
    } else if i == 91 {
        MaschineButton::E1
    } else if i == 92 {
        MaschineButton::E2
    } else if i == 93 {
        MaschineButton::E3
    } else if i == 94 {
        MaschineButton::E4
    } else if i == 95 {
        MaschineButton::E5
    } else if i == 96 {
        MaschineButton::E6
    } else if i == 97 {
        MaschineButton::E7
    } else if i == 98 {
        MaschineButton::E8
    } else if i == 99 {
        MaschineButton::FF1
    } else if i == 100 {
        MaschineButton::FF2
    } else if i == 101 {
        MaschineButton::FF3
    } else if i == 102 {
        MaschineButton::FF4
    } else if i == 103 {
        MaschineButton::FF5
    } else if i == 104 {
        MaschineButton::FF6
    } else if i == 105 {
        MaschineButton::FF7
    } else if i == 106 {
        MaschineButton::FF8
    } else if i == 107 {
        MaschineButton::G1
    } else if i == 108 {
        MaschineButton::G2
    } else if i == 109 {
        MaschineButton::G3
    } else if i == 110 {
        MaschineButton::G4
    } else if i == 111 {
        MaschineButton::G5
    } else if i == 112 {
        MaschineButton::G6
    } else if i == 113 {
        MaschineButton::G7
    } else if i == 114 {
        MaschineButton::G8
    } else if i == 115 {
        MaschineButton::H1
    } else if i == 116 {
        MaschineButton::H2
    } else if i == 117 {
        MaschineButton::H3
    } else if i == 118 {
        MaschineButton::H4
    } else if i == 119 {
        MaschineButton::H5
    } else if i == 120 {
        MaschineButton::H6
    } else if i == 121 {
        MaschineButton::H7
    } else if i == 122 {
        MaschineButton::H8
    } else if i == 123 {
        MaschineButton::I1
    } else if i == 124 {
        MaschineButton::I2
    } else if i == 125 {
        MaschineButton::I3
    } else if i == 126 {
        MaschineButton::I4
    } else if i == 127 {
        MaschineButton::I5
    } else if i == 128 {
        MaschineButton::I6
    } else if i == 129 {
        MaschineButton::I7
    } else if i == 130 {
        MaschineButton::I8
    } else if i == 131 {
        MaschineButton::J1
    } else if i == 132 {
        MaschineButton::J2
    } else if i == 133 {
        MaschineButton::J3
    } else if i == 134 {
        MaschineButton::J4
    } else if i == 135 {
        MaschineButton::J5
    } else if i == 136 {
        MaschineButton::J6
    } else if i == 137 {
        MaschineButton::J7
    } else if i == 138 {
        MaschineButton::J8
    } else if i == 139 {
        MaschineButton::K1
    } else if i == 140 {
        MaschineButton::K2
    } else if i == 141 {
        MaschineButton::K3
    } else if i == 142 {
        MaschineButton::K4
    } else if i == 143 {
        MaschineButton::K5
    } else if i == 144 {
        MaschineButton::K6
    } else if i == 145 {
        MaschineButton::K7
    } else if i == 146 {
        MaschineButton::K8
    } else if i == 147 {
        MaschineButton::L1
    } else if i == 148 {
        MaschineButton::L2
    } else if i == 149 {
        MaschineButton::L3
    } else if i == 150 {
        MaschineButton::L4
    } else if i == 151 {
        MaschineButton::L5
    } else if i == 152 {
        MaschineButton::L6
    } else if i == 153 {
        MaschineButton::L7
    } else if i == 154 {
        MaschineButton::L8
    } else if i == 155 {
        MaschineButton::M1
    } else if i == 156 {
        MaschineButton::M2
    } else if i == 157 {
        MaschineButton::M3
    } else if i == 158 {
        MaschineButton::M4
    } else if i == 159 {
        MaschineButton::M5
    } else if i == 160 {
        MaschineButton::M6
    } else if i == 161 {
        MaschineButton::M7
    } else if i == 162 {
        MaschineButton::M8
    } else if i == 163 {
        MaschineButton::N1
    } else if i == 164 {
        MaschineButton::N2
    } else if i == 165 {
        MaschineButton::N3
    } else if i == 166 {
        MaschineButton::N4
    } else if i == 167 {
        MaschineButton::N5
    } else if i == 168 {
        MaschineButton::N6
    } else if i == 169 {
        MaschineButton::N7
    } else if i == 170 {
        MaschineButton::N8
    } else if i == 171 {
        MaschineButton::O1
    } else if i == 172 {
        MaschineButton::O2
    } else if i == 173 {
        MaschineButton::O3
    } else if i == 174 {
        MaschineButton::O4
    } else if i == 175 {
        MaschineButton::O5
    } else if i == 176 {
        MaschineButton::O6
    } else if i == 177 {
        MaschineButton::O7
    } else if i == 178 {
        MaschineButton::O8
    } else if i == 179 {
        MaschineButton::P1
    } else if i == 180 {
        MaschineButton::P2
    } else if i == 181 {
        MaschineButton::P3
    } else if i == 182 {
        MaschineButton::P4
    } else if i == 183 {
        MaschineButton::P5
    } else if i == 184 {
        MaschineButton::P6
    } else if i == 185 {
        MaschineButton::P7
    } else {
        MaschineButton::P8
    }
}

/// The first button, from position `i` on, whose name is `name`.
pub open spec fn find_named_from(name: Seq<char>, i: int) -> Option<MaschineButton>
    decreases BUTTON_VARIANTS - i,
{
    if i < 0 || i >= BUTTON_VARIANTS {
        None
    } else if button_name(nth_button(i)) == name {
        Some(nth_button(i))
    } else {
        find_named_from(name, i + 1)
    }
}

/// The button that inbound OSC addresses by `name`, if any.
pub open spec fn button_for_name(name: Seq<char>) -> Option<MaschineButton> {
    find_named_from(name, 0)
}

/// The button that an OSC name addresses, if any.
pub fn osc_button_to_btn_map(osc_button: &str) -> (r: Option<MaschineButton>)
    ensures
        r == button_for_name(osc_button@),
{
    let mut i: usize = 0;
    while i < BUTTON_VARIANTS
        invariant
            i <= BUTTON_VARIANTS,
            button_for_name(osc_button@) == find_named_from(osc_button@, i as int),
        decreases BUTTON_VARIANTS - i,
    {
        let b = nth_button_at(i);
        if str_eq(btn_to_osc_button_map(b), osc_button) {
            return Some(b);
        }
        i = i + 1;
    }
    None
}

/// The first `n` characters of a name read as a base-256 number.
pub open spec fn name_code_upto(s: Seq<char>, n: int) -> int
    decreases n,
{
    if n <= 0 {
        0
    } else {
        name_code_upto(s, n - 1) * 256 + (s[n - 1] as u32) as int
    }
}

/// A name read as a base-256 number.
pub open spec fn name_code(s: Seq<char>) -> int {
    name_code_upto(s, s.len() as int)
}

/// The button whose name reads as the number `c`.
pub open spec fn button_of_code(c: int) -> Option<MaschineButton> {
    if c == 32199693893202548 {
        Some(MaschineButton::Restart)
    } else if c == 2129762801912788641396 {
        Some(MaschineButton::Stepleft)
    } else if c == 545219277289699729172596 {
        Some(MaschineButton::Stepright)
    } else if c == 1735551332 {
        Some(MaschineButton::Grid)
    } else if c == 1886151033 {
        Some(MaschineButton::Play)
    } else if c == 7497059 {
        Some(MaschineButton::Rec)
    } else if c == 1937010544 {
        Some(MaschineButton::Erase)
    } else if c == 495672977012 {
        Some(MaschineButton::Shift)
    } else if c == 108243635893093 {
        Some(MaschineButton::Browse)
    } else if c == 8314046716725259879 {
        Some(MaschineButton::Sampling)
    } else if c == 133508169964203190765576564 {
        Some(MaschineButton::Noterepeat)
    } else if c == 28550345997444466 {
        Some(MaschineButton::Encoder)
    } else if c == 26161 {
        Some(MaschineButton::F1)
    } else if c == 26162 {
        Some(MaschineButton::F2)
    } else if c == 26163 {
        Some(MaschineButton::F3)
    } else if c == 26164 {
        Some(MaschineButton::F4)
    } else if c == 26165 {
        Some(MaschineButton::F5)
    } else if c == 26166 {
        Some(MaschineButton::F6)
    } else if c == 26167 {
        Some(MaschineButton::F7)
    } else if c == 26168 {
        Some(MaschineButton::F8)
    } else if c == 495924637287 {
        Some(MaschineButton::Swing)
    } else if c == 1937007984 {
        Some(MaschineButton::Step)
    } else if c == 130220933082469 {
        Some(MaschineButton::Volume)
    } else if c == 435644818802 {
        Some(MaschineButton::Enter)
    } else if c == 1635087471 {
        Some(MaschineButton::Auto)
    } else if c == 6384748 {
        Some(MaschineButton::All)
    } else if c == 7953768611991090277 {
        Some(MaschineButton::Navigate)
    } else if c == 499917877359 {
        Some(MaschineButton::Tempo)
    } else if c == 27988542885097324 {
        Some(MaschineButton::Control)
    } else if c == 7233910 {
        Some(MaschineButton::Nav)
    } else if c == 7953768569125561972 {
        Some(MaschineButton::Navleft)
    } else if c == 2036164753721980840052 {
        Some(MaschineButton::Navright)
    } else if c == 1835100526 {
        Some(MaschineButton::Main)
    } else if c == 495588830821 {
        Some(MaschineButton::Scene)
    } else if c == 31632350188499566 {
        Some(MaschineButton::Pattern)
    } else if c == 8097863966009549925 {
        Some(MaschineButton::Padmode)
    } else if c == 1986618743 {
        Some(MaschineButton::View)
    } else if c == 1853136790270679020645 {
        Some(MaschineButton::Duplicate)
    } else if c == 126879447475060 {
        Some(MaschineButton::Select)
    } else if c == 1936682095 {
        Some(MaschineButton::Solo)
    } else if c == 1836414053 {
        Some(MaschineButton::Mute)
    } else if c == 29117745638432609 {
        Some(MaschineButton::GroupA)
    } else if c == 29117745638432610 {
        Some(MaschineButton::GroupB)
    } else if c == 29117745638432611 {
        Some(MaschineButton::GroupC)
    } else if c == 29117745638432612 {
        Some(MaschineButton::GroupD)
    } else if c == 29117745638432613 {
        Some(MaschineButton::GroupE)
    } else if c == 29117745638432614 {
        Some(MaschineButton::GroupF)
    } else if c == 29117745638432615 {
        Some(MaschineButton::GroupG)
    } else if c == 29117745638432616 {
        Some(MaschineButton::GroupH)
    } else if c == 530701830722653644089460 {
        Some(MaschineButton::Pageright)
    } else if c == 2073054026260264871540 {
        Some(MaschineButton::Pageleft)
    } else if c == 21041 {
        Some(MaschineButton::R1)
    } else if c == 21042 {
        Some(MaschineButton::R2)
    } else if c == 21043 {
        Some(MaschineButton::R3)
    } else if c == 21044 {
        Some(MaschineButton::R4)
    } else if c == 21045 {
        Some(MaschineButton::R5)
    } else if c == 21046 {
        Some(MaschineButton::R6)
    } else if c == 21047 {
        Some(MaschineButton::R7)
    } else if c == 21048 {
        Some(MaschineButton::R8)
    } else if c == 16689 {
        Some(MaschineButton::A1)
    } else if c == 16690 {
        Some(MaschineButton::A2)
    } else if c == 16691 {
        Some(MaschineButton::A3)
    } else if c == 16692 {
        Some(MaschineButton::A4)
    } else if c == 16693 {
        Some(MaschineButton::A5)
    } else if c == 16694 {
        Some(MaschineButton::A6)
    } else if c == 16695 {
        Some(MaschineButton::A7)
    } else if c == 16696 {
        Some(MaschineButton::A8)
    } else if c == 16945 {
        Some(MaschineButton::B1)
    } else if c == 16946 {
        Some(MaschineButton::B2)
    } else if c == 16947 {
        Some(MaschineButton::B3)
    } else if c == 16948 {
        Some(MaschineButton::B4)
    } else if c == 16949 {
        Some(MaschineButton::B5)
    } else if c == 16950 {
        Some(MaschineButton::B6)
    } else if c == 16951 {
        Some(MaschineButton::B7)
    } else if c == 16952 {
        Some(MaschineButton::B8)
    } else if c == 17201 {
        Some(MaschineButton::C1)
    } else if c == 17202 {
        Some(MaschineButton::C2)
    } else if c == 17203 {
        Some(MaschineButton::C3)
    } else if c == 17204 {
        Some(MaschineButton::C4)
    } else if c == 17205 {
        Some(MaschineButton::C5)
    } else if c == 17206 {
        Some(MaschineButton::C6)
    } else if c == 17207 {
        Some(MaschineButton::C7)
    } else if c == 17208 {
        Some(MaschineButton::C8)
    } else if c == 17457 {
        Some(MaschineButton::D1)
    } else if c == 17458 {
        Some(MaschineButton::D2)
    } else if c == 17459 {
        Some(MaschineButton::D3)
    } else if c == 17460 {
        Some(MaschineButton::D4)
    } else if c == 17461 {
        Some(MaschineButton::D5)
    } else if c == 17462 {
        Some(MaschineButton::D6)
    } else if c == 17463 {
        Some(MaschineButton::D7)
    } else if c == 17464 {
        Some(MaschineButton::D8)
    } else if c == 17713 {
        Some(MaschineButton::E1)
    } else if c == 17714 {
        Some(MaschineButton::E2)
    } else if c == 17715 {
        Some(MaschineButton::E3)
    } else if c == 17716 {
        Some(MaschineButton::E4)
    } else if c == 17717 {
        Some(MaschineButton::E5)
    } else if c == 17718 {
        Some(MaschineButton::E6)
    } else if c == 17719 {
        Some(MaschineButton::E7)
    } else if c == 17720 {
        Some(MaschineButton::E8)
    } else if c == 4605489 {
        Some(MaschineButton::FF1)
    } else if c == 4605490 {
        Some(MaschineButton::FF2)
    } else if c == 4605491 {
        Some(MaschineButton::FF3)
    } else if c == 4605492 {
        Some(MaschineButton::FF4)
    } else if c == 4605493 {
        Some(MaschineButton::FF5)
    } else if c == 4605494 {
        Some(MaschineButton::FF6)
    } else if c == 4605495 {
        Some(MaschineButton::FF7)
    } else if c == 4605496 {
        Some(MaschineButton::FF8)
    } else if c == 18225 {
        Some(MaschineButton::G1)
    } else if c == 18226 {
        Some(MaschineButton::G2)
    } else if c == 18227 {
        Some(MaschineButton::G3)
    } else if c == 18228 {
        Some(MaschineButton::G4)
    } else if c == 18229 {
        Some(MaschineButton::G5)
    } else if c == 18230 {
        Some(MaschineButton::G6)
    } else if c == 18231 {
        Some(MaschineButton::G7)
    } else if c == 18232 {
        Some(MaschineButton::G8)
    } else if c == 18481 {
        Some(MaschineButton::H1)
    } else if c == 18482 {
        Some(MaschineButton::H2)
    } else if c == 18483 {
        Some(MaschineButton::H3)
    } else if c == 18484 {
        Some(MaschineButton::H4)
    } else if c == 18485 {
        Some(MaschineButton::H5)
    } else if c == 18486 {
        Some(MaschineButton::H6)
    } else if c == 18487 {
        Some(MaschineButton::H7)
    } else if c == 18488 {
        Some(MaschineButton::H8)
    } else if c == 18737 {
        Some(MaschineButton::I1)
    } else if c == 18738 {
        Some(MaschineButton::I2)
    } else if c == 18739 {
        Some(MaschineButton::I3)
    } else if c == 18740 {
        Some(MaschineButton::I4)
    } else if c == 18741 {
        Some(MaschineButton::I5)
    } else if c == 18742 {
        Some(MaschineButton::I6)
    } else if c == 18743 {
        Some(MaschineButton::I7)
    } else if c == 18744 {
        Some(MaschineButton::I8)
    } else if c == 18993 {
        Some(MaschineButton::J1)
    } else if c == 18994 {
        Some(MaschineButton::J2)
    } else if c == 18995 {
        Some(MaschineButton::J3)
    } else if c == 18996 {
        Some(MaschineButton::J4)
    } else if c == 18997 {
        Some(MaschineButton::J5)
    } else if c == 18998 {
        Some(MaschineButton::J6)
    } else if c == 18999 {
        Some(MaschineButton::J7)
    } else if c == 19000 {
        Some(MaschineButton::J8)
    } else if c == 19249 {
        Some(MaschineButton::K1)
    } else if c == 19250 {
        Some(MaschineButton::K2)
    } else if c == 19251 {
        Some(MaschineButton::K3)
    } else if c == 19252 {
        Some(MaschineButton::K4)
    } else if c == 19253 {
        Some(MaschineButton::K5)
    } else if c == 19254 {
        Some(MaschineButton::K6)
    } else if c == 19255 {
        Some(MaschineButton::K7)
    } else if c == 19256 {
        Some(MaschineButton::K8)
    } else if c == 19505 {
        Some(MaschineButton::L1)
    } else if c == 19506 {
        Some(MaschineButton::L2)
    } else if c == 19507 {
        Some(MaschineButton::L3)
    } else if c == 19508 {
        Some(MaschineButton::L4)
    } else if c == 19509 {
        Some(MaschineButton::L5)
    } else if c == 19510 {
        Some(MaschineButton::L6)
    } else if c == 19511 {
        Some(MaschineButton::L7)
    } else if c == 19512 {
        Some(MaschineButton::L8)
    } else if c == 19761 {
        Some(MaschineButton::M1)
    } else if c == 19762 {
        Some(MaschineButton::M2)
    } else if c == 19763 {
        Some(MaschineButton::M3)
    } else if c == 19764 {
        Some(MaschineButton::M4)
    } else if c == 19765 {
        Some(MaschineButton::M5)
    } else if c == 19766 {
        Some(MaschineButton::M6)
    } else if c == 19767 {
        Some(MaschineButton::M7)
    } else if c == 19768 {
        Some(MaschineButton::M8)
    } else if c == 20017 {
        Some(MaschineButton::N1)
    } else if c == 20018 {
        Some(MaschineButton::N2)
    } else if c == 20019 {
        Some(MaschineButton::N3)
    } else if c == 20020 {
        Some(MaschineButton::N4)
    } else if c == 20021 {
        Some(MaschineButton::N5)
    } else if c == 20022 {
        Some(MaschineButton::N6)
    } else if c == 20023 {
        Some(MaschineButton::N7)
    } else if c == 20024 {
        Some(MaschineButton::N8)
    } else if c == 20273 {
        Some(MaschineButton::O1)
    } else if c == 20274 {
        Some(MaschineButton::O2)
    } else if c == 20275 {
        Some(MaschineButton::O3)
    } else if c == 20276 {
        Some(MaschineButton::O4)
    } else if c == 20277 {
        Some(MaschineButton::O5)
    } else if c == 20278 {
        Some(MaschineButton::O6)
    } else if c == 20279 {
        Some(MaschineButton::O7)
    } else if c == 20280 {
        Some(MaschineButton::O8)
    } else if c == 20529 {
        Some(MaschineButton::P1)
    } else if c == 20530 {
        Some(MaschineButton::P2)
    } else if c == 20531 {
        Some(MaschineButton::P3)
    } else if c == 20532 {
        Some(MaschineButton::P4)
    } else if c == 20533 {
        Some(MaschineButton::P5)
    } else if c == 20534 {
        Some(MaschineButton::P6)
    } else if c == 20535 {
        Some(MaschineButton::P7)
    } else if c == 20536 {
        Some(MaschineButton::P8)
    } else {
        None
    }
}

#[verifier::spinoff_prover]
proof fn lemma_name_decodes(b: MaschineButton)
    ensures
        button_of_code(name_code(button_name(b))) == Some(b),
{
    reveal_with_fuel(name_code_upto, 12);
    match b {
        MaschineButton::Restart => {
            reveal_strlit("restart");
        },
        MaschineButton::Stepleft => {
            reveal_strlit("step_left");
        },
        MaschineButton::Stepright => {
            reveal_strlit("step_right");
        },
        MaschineButton::Grid => {
            reveal_strlit("grid");
        },
        MaschineButton::Play => {
            reveal_strlit("play");
        },
        MaschineButton::Rec => {
            reveal_strlit("rec");
        },
        MaschineButton::Erase => {
            reveal_strlit("stop");
        },
        MaschineButton::Shift => {
            reveal_strlit("shift");
        },
        MaschineButton::Browse => {
            reveal_strlit("browse");
        },
        MaschineButton::Sampling => {
            reveal_strlit("sampling");
        },
        MaschineButton::Noterepeat => {
            reveal_strlit("note_repeat");
        },
        MaschineButton::Encoder => {
            reveal_strlit("encoder");
        },
        MaschineButton::F1 => {
            reveal_strlit("f1");
        },
        MaschineButton::F2 => {
            reveal_strlit("f2");
        },
        MaschineButton::F3 => {
            reveal_strlit("f3");
        },
        MaschineButton::F4 => {
            reveal_strlit("f4");
        },
        MaschineButton::F5 => {
            reveal_strlit("f5");
        },
        MaschineButton::F6 => {
            reveal_strlit("f6");
        },
        MaschineButton::F7 => {
            reveal_strlit("f7");
        },
        MaschineButton::F8 => {
            reveal_strlit("f8");
        },
        MaschineButton::Swing => {
            reveal_strlit("swing");
        },
        MaschineButton::Step => {
            reveal_strlit("step");
        },
        MaschineButton::Volume => {
            reveal_strlit("volume");
        },
        MaschineButton::Enter => {
            reveal_strlit("enter");
        },
        MaschineButton::Auto => {
            reveal_strlit("auto");
        },
        MaschineButton::All => {
            reveal_strlit("all");
        },
        MaschineButton::Navigate => {
            reveal_strlit("navigate");
        },
        MaschineButton::Tempo => {
            reveal_strlit("tempo");
        },
        MaschineButton::Control => {
            reveal_strlit("control");
        },
        MaschineButton::Nav => {
            reveal_strlit("nav");
        },
        MaschineButton::Navleft => {
            reveal_strlit("nav_left");
        },
        MaschineButton::Navright => {
            reveal_strlit("nav_right");
        },
        MaschineButton::Main => {
            reveal_strlit("main");
        },
        MaschineButton::Scene => {
            reveal_strlit("scene");
        },
        MaschineButton::Pattern => {
            reveal_strlit("pattern");
        },
        MaschineButton::Padmode => {
            reveal_strlit("pad_mode");
        },
        MaschineButton::View => {
            reveal_strlit("view");
        },
        MaschineButton::Duplicate => {
            reveal_strlit("duplicate");
        },
        MaschineButton::Select => {
            reveal_strlit("select");
        },
        MaschineButton::Solo => {
            reveal_strlit("solo");
        },
        MaschineButton::Mute => {
            reveal_strlit("mute");
        },
        MaschineButton::GroupA => {
            reveal_strlit("group_a");
        },
        MaschineButton::GroupB => {
            reveal_strlit("group_b");
        },
        MaschineButton::GroupC => {
            reveal_strlit("group_c");
        },
        MaschineButton::GroupD => {
            reveal_strlit("group_d");
        },
        MaschineButton::GroupE => {
            reveal_strlit("group_e");
        },
        MaschineButton::GroupF => {
            reveal_strlit("group_f");
        },
        MaschineButton::GroupG => {
            reveal_strlit("group_g");
        },
        MaschineButton::GroupH => {
            reveal_strlit("group_h");
        },
        MaschineButton::Pageright => {
            reveal_strlit("page_right");
        },
        MaschineButton::Pageleft => {
            reveal_strlit("page_left");
        },
        MaschineButton::R1 => {
            reveal_strlit("R1");
        },
        MaschineButton::R2 => {
            reveal_strlit("R2");
        },
        MaschineButton::R3 => {
            reveal_strlit("R3");
        },
        MaschineButton::R4 => {
            reveal_strlit("R4");
        },
        MaschineButton::R5 => {
            reveal_strlit("R5");
        },
        MaschineButton::R6 => {
            reveal_strlit("R6");
        },
        MaschineButton::R7 => {
            reveal_strlit("R7");
        },
        MaschineButton::R8 => {
            reveal_strlit("R8");
        },
        MaschineButton::A1 => {
            reveal_strlit("A1");
        },
        MaschineButton::A2 => {
            reveal_strlit("A2");
        },
        MaschineButton::A3 => {
            reveal_strlit("A3");
        },
        MaschineButton::A4 => {
            reveal_strlit("A4");
        },
        MaschineButton::A5 => {
            reveal_strlit("A5");
        },
        MaschineButton::A6 => {
            reveal_strlit("A6");
        },
        MaschineButton::A7 => {
            reveal_strlit("A7");
        },
        MaschineButton::A8 => {
            reveal_strlit("A8");
        },
        MaschineButton::B1 => {
            reveal_strlit("B1");
        },
        MaschineButton::B2 => {
            reveal_strlit("B2");
        },
        MaschineButton::B3 => {
            reveal_strlit("B3");
        },
        MaschineButton::B4 => {
            reveal_strlit("B4");
        },
        MaschineButton::B5 => {
            reveal_strlit("B5");
        },
        MaschineButton::B6 => {
            reveal_strlit("B6");
        },
        MaschineButton::B7 => {
            reveal_strlit("B7");
        },
        MaschineButton::B8 => {
            reveal_strlit("B8");
        },
        MaschineButton::C1 => {
            reveal_strlit("C1");
        },
        MaschineButton::C2 => {
            reveal_strlit("C2");
        },
        MaschineButton::C3 => {
            reveal_strlit("C3");
        },
        MaschineButton::C4 => {
            reveal_strlit("C4");
        },
        MaschineButton::C5 => {
            reveal_strlit("C5");
        },
        MaschineButton::C6 => {
            reveal_strlit("C6");
        },
        MaschineButton::C7 => {
            reveal_strlit("C7");
        },
        MaschineButton::C8 => {
            reveal_strlit("C8");
        },
        MaschineButton::D1 => {
            reveal_strlit("D1");
        },
        MaschineButton::D2 => {
            reveal_strlit("D2");
        },
        MaschineButton::D3 => {
            reveal_strlit("D3");
        },
        MaschineButton::D4 => {
            reveal_strlit("D4");
        },
        MaschineButton::D5 => {
            reveal_strlit("D5");
        },
        MaschineButton::D6 => {
            reveal_strlit("D6");
        },
        MaschineButton::D7 => {
            reveal_strlit("D7");
        },
        MaschineButton::D8 => {
            reveal_strlit("D8");
        },
        MaschineButton::E1 => {
            reveal_strlit("E1");
        },
        MaschineButton::E2 => {
            reveal_strlit("E2");
        },
        MaschineButton::E3 => {
            reveal_strlit("E3");
        },
        MaschineButton::E4 => {
            reveal_strlit("E4");
        },
        MaschineButton::E5 => {
            reveal_strlit("E5");
        },
        MaschineButton::E6 => {
            reveal_strlit("E6");
        },
        MaschineButton::E7 => {
            reveal_strlit("E7");
        },
        MaschineButton::E8 => {
            reveal_strlit("E8");
        },
        MaschineButton::FF1 => {
            reveal_strlit("FF1");
        },
        MaschineButton::FF2 => {
            reveal_strlit("FF2");
        },
        MaschineButton::FF3 => {
            reveal_strlit("FF3");
        },
        MaschineButton::FF4 => {
            reveal_strlit("FF4");
        },
        MaschineButton::FF5 => {
            reveal_strlit("FF5");
        },
        MaschineButton::FF6 => {
            reveal_strlit("FF6");
        },
        MaschineButton::FF7 => {
            reveal_strlit("FF7");
        },
        MaschineButton::FF8 => {
            reveal_strlit("FF8");
        },
        MaschineButton::G1 => {
            reveal_strlit("G1");
        },
        MaschineButton::G2 => {
            reveal_strlit("G2");
        },
        MaschineButton::G3 => {
            reveal_strlit("G3");
        },
        MaschineButton::G4 => {
            reveal_strlit("G4");
        },
        MaschineButton::G5 => {
            reveal_strlit("G5");
        },
        MaschineButton::G6 => {
            reveal_strlit("G6");
        },
        MaschineButton::G7 => {
            reveal_strlit("G7");
        },
        MaschineButton::G8 => {
            reveal_strlit("G8");
        },
        MaschineButton::H1 => {
            reveal_strlit("H1");
        },
        MaschineButton::H2 => {
            reveal_strlit("H2");
        },
        MaschineButton::H3 => {
            reveal_strlit("H3");
        },
        MaschineButton::H4 => {
            reveal_strlit("H4");
        },
        MaschineButton::H5 => {
            reveal_strlit("H5");
        },
        MaschineButton::H6 => {
            reveal_strlit("H6");
        },
        MaschineButton::H7 => {
            reveal_strlit("H7");
        },
        MaschineButton::H8 => {
            reveal_strlit("H8");
        },
        MaschineButton::I1 => {
            reveal_strlit("I1");
        },
        MaschineButton::I2 => {
            reveal_strlit("I2");
        },
        MaschineButton::I3 => {
            reveal_strlit("I3");
        },
        MaschineButton::I4 => {
            reveal_strlit("I4");
        },
        MaschineButton::I5 => {
            reveal_strlit("I5");
        },
        MaschineButton::I6 => {
            reveal_strlit("I6");
        },
        MaschineButton::I7 => {
            reveal_strlit("I7");
        },
        MaschineButton::I8 => {
            reveal_strlit("I8");
        },
        MaschineButton::J1 => {
            reveal_strlit("J1");
        },
        MaschineButton::J2 => {
            reveal_strlit("J2");
        },
        MaschineButton::J3 => {
            reveal_strlit("J3");
        },
        MaschineButton::J4 => {
            reveal_strlit("J4");
        },
        MaschineButton::J5 => {
            reveal_strlit("J5");
        },
        MaschineButton::J6 => {
            reveal_strlit("J6");
        },
        MaschineButton::J7 => {
            reveal_strlit("J7");
        },
        MaschineButton::J8 => {
            reveal_strlit("J8");
        },
        MaschineButton::K1 => {
            reveal_strlit("K1");
        },
        MaschineButton::K2 => {
            reveal_strlit("K2");
        },
        MaschineButton::K3 => {
            reveal_strlit("K3");
        },
        MaschineButton::K4 => {
            reveal_strlit("K4");
        },
        MaschineButton::K5 => {
            reveal_strlit("K5");
        },
        MaschineButton::K6 => {
            reveal_strlit("K6");
        },
        MaschineButton::K7 => {
            reveal_strlit("K7");
        },
        MaschineButton::K8 => {
            reveal_strlit("K8");
        },
        MaschineButton::L1 => {
            reveal_strlit("L1");
        },
        MaschineButton::L2 => {
            reveal_strlit("L2");
        },
        MaschineButton::L3 => {
            reveal_strlit("L3");
        },
        MaschineButton::L4 => {
            reveal_strlit("L4");
        },
        MaschineButton::L5 => {
            reveal_strlit("L5");
        },
        MaschineButton::L6 => {
            reveal_strlit("L6");
        },
        MaschineButton::L7 => {
            reveal_strlit("L7");
        },
        MaschineButton::L8 => {
            reveal_strlit("L8");
        },
        MaschineButton::M1 => {
            reveal_strlit("M1");
        },
        MaschineButton::M2 => {
            reveal_strlit("M2");
        },
        MaschineButton::M3 => {
            reveal_strlit("M3");
        },
        MaschineButton::M4 => {
            reveal_strlit("M4");
        },
        MaschineButton::M5 => {
            reveal_strlit("M5");
        },
        MaschineButton::M6 => {
            reveal_strlit("M6");
        },
        MaschineButton::M7 => {
            reveal_strlit("M7");
        },
        MaschineButton::M8 => {
            reveal_strlit("M8");
        },
        MaschineButton::N1 => {
            reveal_strlit("N1");
        },
        MaschineButton::N2 => {
            reveal_strlit("N2");
        },
        MaschineButton::N3 => {
            reveal_strlit("N3");
        },
        MaschineButton::N4 => {
            reveal_strlit("N4");
        },
        MaschineButton::N5 => {
            reveal_strlit("N5");
        },
        MaschineButton::N6 => {
            reveal_strlit("N6");
        },
        MaschineButton::N7 => {
            reveal_strlit("N7");
        },
        MaschineButton::N8 => {
            reveal_strlit("N8");
        },
        MaschineButton::O1 => {
            reveal_strlit("O1");
        },
        MaschineButton::O2 => {
            reveal_strlit("O2");
        },
        MaschineButton::O3 => {
            reveal_strlit("O3");
        },
        MaschineButton::O4 => {
            reveal_strlit("O4");
        },
        MaschineButton::O5 => {
            reveal_strlit("O5");
        },
        MaschineButton::O6 => {
            reveal_strlit("O6");
        },
        MaschineButton::O7 => {
            reveal_strlit("O7");
        },
        MaschineButton::O8 => {
            reveal_strlit("O8");
        },
        MaschineButton::P1 => {
            reveal_strlit("P1");
        },
        MaschineButton::P2 => {
            reveal_strlit("P2");
        },
        MaschineButton::P3 => {
            reveal_strlit("P3");
        },
        MaschineButton::P4 => {
            reveal_strlit("P4");
        },
        MaschineButton::P5 => {
            reveal_strlit("P5");
        },
        MaschineButton::P6 => {
            reveal_strlit("P6");
        },
        MaschineButton::P7 => {
            reveal_strlit("P7");
        },
        MaschineButton::P8 => {
            reveal_strlit("P8");
        },
    }
}

/// Every name is a single, non-empty address segment.
#[verifier::spinoff_prover]
pub proof fn lemma_button_name_is_segment(b: MaschineButton)
    ensures
        button_name(b).len() > 0,
        !button_name(b).contains('/'),
{
    match b {
        MaschineButton::Restart => {
            reveal_strlit("restart");
        },
        MaschineButton::Stepleft => {
            reveal_strlit("step_left");
        },
        MaschineButton::Stepright => {
            reveal_strlit("step_right");
        },
        MaschineButton::Grid => {
            reveal_strlit("grid");
        },
        MaschineButton::Play => {
            reveal_strlit("play");
        },
        MaschineButton::Rec => {
            reveal_strlit("rec");
        },
        MaschineButton::Erase => {
            reveal_strlit("stop");
        },
        MaschineButton::Shift => {
            reveal_strlit("shift");
        },
        MaschineButton::Browse => {
            reveal_strlit("browse");
        },
        MaschineButton::Sampling => {
            reveal_strlit("sampling");
        },
        MaschineButton::Noterepeat => {
            reveal_strlit("note_repeat");
        },
        MaschineButton::Encoder => {
            reveal_strlit("encoder");
        },
        MaschineButton::F1 => {
            reveal_strlit("f1");
        },
        MaschineButton::F2 => {
            reveal_strlit("f2");
        },
        MaschineButton::F3 => {
            reveal_strlit("f3");
        },
        MaschineButton::F4 => {
            reveal_strlit("f4");
        },
        MaschineButton::F5 => {
            reveal_strlit("f5");
        },
        MaschineButton::F6 => {
            reveal_strlit("f6");
        },
        MaschineButton::F7 => {
            reveal_strlit("f7");
        },
        MaschineButton::F8 => {
            reveal_strlit("f8");
        },
        MaschineButton::Swing => {
            reveal_strlit("swing");
        },
        MaschineButton::Step => {
            reveal_strlit("step");
        },
        MaschineButton::Volume => {
            reveal_strlit("volume");
        },
        MaschineButton::Enter => {
            reveal_strlit("enter");
        },
        MaschineButton::Auto => {
            reveal_strlit("auto");
        },
        MaschineButton::All => {
            reveal_strlit("all");
        },
        MaschineButton::Navigate => {
            reveal_strlit("navigate");
        },
        MaschineButton::Tempo => {
            reveal_strlit("tempo");
        },
        MaschineButton::Control => {
            reveal_strlit("control");
        },
        MaschineButton::Nav => {
            reveal_strlit("nav");
        },
        MaschineButton::Navleft => {
            reveal_strlit("nav_left");
        },
        MaschineButton::Navright => {
            reveal_strlit("nav_right");
        },
        MaschineButton::Main => {
            reveal_strlit("main");
        },
        MaschineButton::Scene => {
            reveal_strlit("scene");
        },
        MaschineButton::Pattern => {
            reveal_strlit("pattern");
        },
        MaschineButton::Padmode => {
            reveal_strlit("pad_mode");
        },
        MaschineButton::View => {
            reveal_strlit("view");
        },
        MaschineButton::Duplicate => {
            reveal_strlit("duplicate");
        },
        MaschineButton::Select => {
            reveal_strlit("select");
        },
        MaschineButton::Solo => {
            reveal_strlit("solo");
        },
        MaschineButton::Mute => {
            reveal_strlit("mute");
        },
        MaschineButton::GroupA => {
            reveal_strlit("group_a");
        },
        MaschineButton::GroupB => {
            reveal_strlit("group_b");
        },
        MaschineButton::GroupC => {
            reveal_strlit("group_c");
        },
        MaschineButton::GroupD => {
            reveal_strlit("group_d");
        },
        MaschineButton::GroupE => {
            reveal_strlit("group_e");
        },
        MaschineButton::GroupF => {
            reveal_strlit("group_f");
        },
        MaschineButton::GroupG => {
            reveal_strlit("group_g");
        },
        MaschineButton::GroupH => {
            reveal_strlit("group_h");
        },
        MaschineButton::Pageright => {
            reveal_strlit("page_right");
        },
        MaschineButton::Pageleft => {
            reveal_strlit("page_left");
        },
        MaschineButton::R1 => {
            reveal_strlit("R1");
        },
        MaschineButton::R2 => {
            reveal_strlit("R2");
        },
        MaschineButton::R3 => {
            reveal_strlit("R3");
        },
        MaschineButton::R4 => {
            reveal_strlit("R4");
        },
        MaschineButton::R5 => {
            reveal_strlit("R5");
        },
        MaschineButton::R6 => {
            reveal_strlit("R6");
        },
        MaschineButton::R7 => {
            reveal_strlit("R7");
        },
        MaschineButton::R8 => {
            reveal_strlit("R8");
        },
        MaschineButton::A1 => {
            reveal_strlit("A1");
        },
        MaschineButton::A2 => {
            reveal_strlit("A2");
        },
        MaschineButton::A3 => {
            reveal_strlit("A3");
        },
        MaschineButton::A4 => {
            reveal_strlit("A4");
        },
        MaschineButton::A5 => {
            reveal_strlit("A5");
        },
        MaschineButton::A6 => {
            reveal_strlit("A6");
        },
        MaschineButton::A7 => {
            reveal_strlit("A7");
        },
        MaschineButton::A8 => {
            reveal_strlit("A8");
        },
        MaschineButton::B1 => {
            reveal_strlit("B1");
        },
        MaschineButton::B2 => {
            reveal_strlit("B2");
        },
        MaschineButton::B3 => {
            reveal_strlit("B3");
        },
        MaschineButton::B4 => {
            reveal_strlit("B4");
        },
        MaschineButton::B5 => {
            reveal_strlit("B5");
        },
        MaschineButton::B6 => {
            reveal_strlit("B6");
        },
        MaschineButton::B7 => {
            reveal_strlit("B7");
        },
        MaschineButton::B8 => {
            reveal_strlit("B8");
        },
        MaschineButton::C1 => {
            reveal_strlit("C1");
        },
        MaschineButton::C2 => {
            reveal_strlit("C2");
        },
        MaschineButton::C3 => {
            reveal_strlit("C3");
        },
        MaschineButton::C4 => {
            reveal_strlit("C4");
        },
        MaschineButton::C5 => {
            reveal_strlit("C5");
        },
        MaschineButton::C6 => {
            reveal_strlit("C6");
        },
        MaschineButton::C7 => {
            reveal_strlit("C7");
        },
        MaschineButton::C8 => {
            reveal_strlit("C8");
        },
        MaschineButton::D1 => {
            reveal_strlit("D1");
        },
        MaschineButton::D2 => {
            reveal_strlit("D2");
        },
        MaschineButton::D3 => {
            reveal_strlit("D3");
        },
        MaschineButton::D4 => {
            reveal_strlit("D4");
        },
        MaschineButton::D5 => {
            reveal_strlit("D5");
        },
        MaschineButton::D6 => {
            reveal_strlit("D6");
        },
        MaschineButton::D7 => {
            reveal_strlit("D7");
        },
        MaschineButton::D8 => {
            reveal_strlit("D8");
        },
        MaschineButton::E1 => {
            reveal_strlit("E1");
        },
        MaschineButton::E2 => {
            reveal_strlit("E2");
        },
        MaschineButton::E3 => {
            reveal_strlit("E3");
        },
        MaschineButton::E4 => {
            reveal_strlit("E4");
        },
        MaschineButton::E5 => {
            reveal_strlit("E5");
        },
        MaschineButton::E6 => {
            reveal_strlit("E6");
        },
        MaschineButton::E7 => {
            reveal_strlit("E7");
        },
        MaschineButton::E8 => {
            reveal_strlit("E8");
        },
        MaschineButton::FF1 => {
            reveal_strlit("FF1");
        },
        MaschineButton::FF2 => {
            reveal_strlit("FF2");
        },
        MaschineButton::FF3 => {
            reveal_strlit("FF3");
        },
        MaschineButton::FF4 => {
            reveal_strlit("FF4");
        },
        MaschineButton::FF5 => {
            reveal_strlit("FF5");
        },
        MaschineButton::FF6 => {
            reveal_strlit("FF6");
        },
        MaschineButton::FF7 => {
            reveal_strlit("FF7");
        },
        MaschineButton::FF8 => {
            reveal_strlit("FF8");
        },
        MaschineButton::G1 => {
            reveal_strlit("G1");
        },
        MaschineButton::G2 => {
            reveal_strlit("G2");
        },
        MaschineButton::G3 => {
            reveal_strlit("G3");
        },
        MaschineButton::G4 => {
            reveal_strlit("G4");
        },
        MaschineButton::G5 => {
            reveal_strlit("G5");
        },
        MaschineButton::G6 => {
            reveal_strlit("G6");
        },
        MaschineButton::G7 => {
            reveal_strlit("G7");
        },
        MaschineButton::G8 => {
            reveal_strlit("G8");
        },
        MaschineButton::H1 => {
            reveal_strlit("H1");
        },
        MaschineButton::H2 => {
            reveal_strlit("H2");
        },
        MaschineButton::H3 => {
            reveal_strlit("H3");
        },
        MaschineButton::H4 => {
            reveal_strlit("H4");
        },
        MaschineButton::H5 => {
            reveal_strlit("H5");
        },
        MaschineButton::H6 => {
            reveal_strlit("H6");
        },
        MaschineButton::H7 => {
            reveal_strlit("H7");
        },
        MaschineButton::H8 => {
            reveal_strlit("H8");
        },
        MaschineButton::I1 => {
            reveal_strlit("I1");
        },
        MaschineButton::I2 => {
            reveal_strlit("I2");
        },
        MaschineButton::I3 => {
            reveal_strlit("I3");
        },
        MaschineButton::I4 => {
            reveal_strlit("I4");
        },
        MaschineButton::I5 => {
            reveal_strlit("I5");
        },
        MaschineButton::I6 => {
            reveal_strlit("I6");
        },
        MaschineButton::I7 => {
            reveal_strlit("I7");
        },
        MaschineButton::I8 => {
            reveal_strlit("I8");
        },
        MaschineButton::J1 => {
            reveal_strlit("J1");
        },
        MaschineButton::J2 => {
            reveal_strlit("J2");
        },
        MaschineButton::J3 => {
            reveal_strlit("J3");
        },
        MaschineButton::J4 => {
            reveal_strlit("J4");
        },
        MaschineButton::J5 => {
            reveal_strlit("J5");
        },
        MaschineButton::J6 => {
            reveal_strlit("J6");
        },
        MaschineButton::J7 => {
            reveal_strlit("J7");
        },
        MaschineButton::J8 => {
            reveal_strlit("J8");
        },
        MaschineButton::K1 => {
            reveal_strlit("K1");
        },
        MaschineButton::K2 => {
            reveal_strlit("K2");
        },
        MaschineButton::K3 => {
            reveal_strlit("K3");
        },
        MaschineButton::K4 => {
            reveal_strlit("K4");
        },
        MaschineButton::K5 => {
            reveal_strlit("K5");
        },
        MaschineButton::K6 => {
            reveal_strlit("K6");
        },
        MaschineButton::K7 => {
            reveal_strlit("K7");
        },
        MaschineButton::K8 => {
            reveal_strlit("K8");
        },
        MaschineButton::L1 => {
            reveal_strlit("L1");
        },
        MaschineButton::L2 => {
            reveal_strlit("L2");
        },
        MaschineButton::L3 => {
            reveal_strlit("L3");
        },
        MaschineButton::L4 => {
            reveal_strlit("L4");
        },
        MaschineButton::L5 => {
            reveal_strlit("L5");
        },
        MaschineButton::L6 => {
            reveal_strlit("L6");
        },
        MaschineButton::L7 => {
            reveal_strlit("L7");
        },
        MaschineButton::L8 => {
            reveal_strlit("L8");
        },
        MaschineButton::M1 => {
            reveal_strlit("M1");
        },
        MaschineButton::M2 => {
            reveal_strlit("M2");
        },
        MaschineButton::M3 => {
            reveal_strlit("M3");
        },
        MaschineButton::M4 => {
            reveal_strlit("M4");
        },
        MaschineButton::M5 => {
            reveal_strlit("M5");
        },
        MaschineButton::M6 => {
            reveal_strlit("M6");
        },
        MaschineButton::M7 => {
            reveal_strlit("M7");
        },
        MaschineButton::M8 => {
            reveal_strlit("M8");
        },
        MaschineButton::N1 => {
            reveal_strlit("N1");
        },
        MaschineButton::N2 => {
            reveal_strlit("N2");
        },
        MaschineButton::N3 => {
            reveal_strlit("N3");
        },
        MaschineButton::N4 => {
            reveal_strlit("N4");
        },
        MaschineButton::N5 => {
            reveal_strlit("N5");
        },
        MaschineButton::N6 => {
            reveal_strlit("N6");
        },
        MaschineButton::N7 => {
            reveal_strlit("N7");
        },
        MaschineButton::N8 => {
            reveal_strlit("N8");
        },
        MaschineButton::O1 => {
            reveal_strlit("O1");
        },
        MaschineButton::O2 => {
            reveal_strlit("O2");
        },
        MaschineButton::O3 => {
            reveal_strlit("O3");
        },
        MaschineButton::O4 => {
            reveal_strlit("O4");
        },
        MaschineButton::O5 => {
            reveal_strlit("O5");
        },
        MaschineButton::O6 => {
            reveal_strlit("O6");
        },
        MaschineButton::O7 => {
            reveal_strlit("O7");
        },
        MaschineButton::O8 => {
            reveal_strlit("O8");
        },
        MaschineButton::P1 => {
            reveal_strlit("P1");
        },
        MaschineButton::P2 => {
            reveal_strlit("P2");
        },
        MaschineButton::P3 => {
            reveal_strlit("P3");
        },
        MaschineButton::P4 => {
            reveal_strlit("P4");
        },
        MaschineButton::P5 => {
            reveal_strlit("P5");
        },
        MaschineButton::P6 => {
            reveal_strlit("P6");
        },
        MaschineButton::P7 => {
            reveal_strlit("P7");
        },
        MaschineButton::P8 => {
            reveal_strlit("P8");
        },
    }
}

/// No two buttons share a name.
pub proof fn lemma_button_name_injective(b1: MaschineButton, b2: MaschineButton)
    requires
        button_name(b1) == button_name(b2),
    ensures
        b1 == b2,
{
    lemma_name_decodes(b1);
    lemma_name_decodes(b2);
}

#[verifier::spinoff_prover]
proof fn lemma_button_index(b: MaschineButton)
    ensures
        0 <= button_index(b) < BUTTON_VARIANTS,
        nth_button(button_index(b)) == b,
{
}

proof fn lemma_find_sound(name: Seq<char>, i: int)
    ensures
        find_named_from(name, i) matches Some(b) ==> button_name(b) == name,
    decreases BUTTON_VARIANTS - i,
{
    if 0 <= i < BUTTON_VARIANTS && button_name(nth_button(i)) != name {
        lemma_find_sound(name, i + 1);
    }
}

proof fn lemma_find_complete(name: Seq<char>, i: int, j: int)
    requires
        0 <= i <= j < BUTTON_VARIANTS,
        button_name(nth_button(j)) == name,
    ensures
        find_named_from(name, i) is Some,
    decreases j - i,
{
    if button_name(nth_button(i)) != name {
        lemma_find_complete(name, i + 1, j);
    }
}

/// Looking a button's own name up gives that button back.
pub proof fn lemma_name_round_trip(b: MaschineButton)
    ensures
        button_for_name(button_name(b)) == Some(b),
{
    lemma_button_index(b);
    lemma_find_complete(button_name(b), 0, button_index(b));
    lemma_find_sound(button_name(b), 0);
    let found = button_for_name(button_name(b))->Some_0;
    lemma_button_name_injective(found, b);
}

/// What a button does on the MIDI side.
#[derive(Clone, Copy, PartialEq, Eq, Structural, Debug)]
pub enum ButtonAction {
    /// Send a 7-bit RPN controller message with this index; when
    /// `down_only` holds, only for a nonzero raw value.
    Controller { index: u16, down_only: bool },
    /// Select a pad group: overwrite the MIDI note base.
    NoteBase(u8),
    /// No MIDI effect.
    Nothing,
}

/// The MIDI role of a button. Several grid buttons share one controller.
pub open spec fn button_action(b: MaschineButton) -> ButtonAction {
    match b {
        MaschineButton::Restart => ButtonAction::Controller { index: 7, down_only: true },
        MaschineButton::Stepleft => ButtonAction::Controller { index: 5, down_only: true },
        MaschineButton::Stepright => ButtonAction::Controller { index: 6, down_only: true },
        MaschineButton::Grid => ButtonAction::Controller { index: 4, down_only: true },
        MaschineButton::Play => ButtonAction::Controller { index: 1, down_only: true },
        MaschineButton::Rec => ButtonAction::Controller { index: 3, down_only: true },
        MaschineButton::Erase => ButtonAction::Controller { index: 2, down_only: true },
        MaschineButton::Browse => ButtonAction::Controller { index: 8, down_only: true },
        MaschineButton::Sampling => ButtonAction::Controller { index: 9, down_only: true },
        MaschineButton::Noterepeat => ButtonAction::Controller { index: 10, down_only: true },
        MaschineButton::F1 => ButtonAction::Controller { index: 30, down_only: true },
        MaschineButton::F2 => ButtonAction::Controller { index: 31, down_only: true },
        MaschineButton::F3 => ButtonAction::Controller { index: 32, down_only: true },
        MaschineButton::F4 => ButtonAction::Controller { index: 33, down_only: true },
        MaschineButton::F5 => ButtonAction::Controller { index: 34, down_only: true },
        MaschineButton::F6 => ButtonAction::Controller { index: 35, down_only: true },
        MaschineButton::F7 => ButtonAction::Controller { index: 36, down_only: true },
        MaschineButton::F8 => ButtonAction::Controller { index: 37, down_only: true },
        MaschineButton::Step => ButtonAction::Controller { index: 23, down_only: true },
        MaschineButton::Enter => ButtonAction::Controller { index: 27, down_only: true },
        MaschineButton::Auto => ButtonAction::Controller { index: 28, down_only: true },
        MaschineButton::All => ButtonAction::Controller { index: 29, down_only: true },
        MaschineButton::Navigate => ButtonAction::Controller { index: 25, down_only: true },
        MaschineButton::Tempo => ButtonAction::Controller { index: 26, down_only: true },
        MaschineButton::Control => ButtonAction::Controller { index: 11, down_only: true },
        MaschineButton::Nav => ButtonAction::Controller { index: 12, down_only: true },
        MaschineButton::Navleft => ButtonAction::Controller { index: 13, down_only: true },
        MaschineButton::Navright => ButtonAction::Controller { index: 14, down_only: true },
        MaschineButton::Main => ButtonAction::Controller { index: 15, down_only: true },
        MaschineButton::Scene => ButtonAction::Controller { index: 16, down_only: true },
        MaschineButton::Pattern => ButtonAction::Controller { index: 17, down_only: true },
        MaschineButton::Padmode => ButtonAction::Controller { index: 18, down_only: true },
        MaschineButton::View => ButtonAction::Controller { index: 19, down_only: true },
        MaschineButton::Duplicate => ButtonAction::Controller { index: 20, down_only: true },
        MaschineButton::Select => ButtonAction::Controller { index: 21, down_only: true },
        MaschineButton::Solo => ButtonAction::Controller { index: 22, down_only: true },
        MaschineButton::Mute => ButtonAction::Controller { index: 24, down_only: true },
        MaschineButton::GroupA => ButtonAction::NoteBase(24),
        MaschineButton::GroupB => ButtonAction::NoteBase(36),
        MaschineButton::GroupC => ButtonAction::NoteBase(48),
        MaschineButton::GroupD => ButtonAction::NoteBase(60),
        MaschineButton::GroupE => ButtonAction::NoteBase(72),
        MaschineButton::GroupF => ButtonAction::NoteBase(84),
        MaschineButton::GroupG => ButtonAction::NoteBase(96),
        MaschineButton::GroupH => ButtonAction::NoteBase(108),
        MaschineButton::Pageright => ButtonAction::Controller { index: 38, down_only: true },
        MaschineButton::Pageleft => ButtonAction::Controller { index: 39, down_only: true },
        MaschineButton::A8 => ButtonAction::Controller { index: 40, down_only: false },
        MaschineButton::B5 | MaschineButton::B6 | MaschineButton::B7 | MaschineButton::B8 | MaschineButton::C8 => ButtonAction::Controller { index: 41, down_only: false },
        MaschineButton::D5 | MaschineButton::D6 | MaschineButton::D7 | MaschineButton::D8 | MaschineButton::E8 => ButtonAction::Controller { index: 42, down_only: false },
        MaschineButton::FF5 | MaschineButton::FF6 | MaschineButton::FF7 | MaschineButton::FF8 | MaschineButton::G8 => ButtonAction::Controller { index: 43, down_only: false },
        MaschineButton::H5 | MaschineButton::H6 | MaschineButton::H7 | MaschineButton::H8 | MaschineButton::I8 => ButtonAction::Controller { index: 44, down_only: false },
        MaschineButton::J5 | MaschineButton::J6 | MaschineButton::J7 | MaschineButton::J8 | MaschineButton::K8 => ButtonAction::Controller { index: 45, down_only: false },
        MaschineButton::L5 | MaschineButton::L6 | MaschineButton::L7 | MaschineButton::L8 | MaschineButton::M8 => ButtonAction::Controller { index: 46, down_only: false },
        MaschineButton::N5 | MaschineButton::N6 | MaschineButton::N7 | MaschineButton::N8 | MaschineButton::O8 => ButtonAction::Controller { index: 47, down_only: false },
        MaschineButton::P5 | MaschineButton::P6 => ButtonAction::Controller { index: 48, down_only: false },
        _ => ButtonAction::Nothing,
    }
}

/// The MIDI role of a button.
pub fn midi_action(btn: MaschineButton) -> (r: ButtonAction)
    ensures
        r == button_action(btn),
{
    match btn {
        MaschineButton::Restart => ButtonAction::Controller { index: 7, down_only: true },
        MaschineButton::Stepleft => ButtonAction::Controller { index: 5, down_only: true },
        MaschineButton::Stepright => ButtonAction::Controller { index: 6, down_only: true },
        MaschineButton::Grid => ButtonAction::Controller { index: 4, down_only: true },
        MaschineButton::Play => ButtonAction::Controller { index: 1, down_only: true },
        MaschineButton::Rec => ButtonAction::Controller { index: 3, down_only: true },
        MaschineButton::Erase => ButtonAction::Controller { index: 2, down_only: true },
        MaschineButton::Browse => ButtonAction::Controller { index: 8, down_only: true },
        MaschineButton::Sampling => ButtonAction::Controller { index: 9, down_only: true },
        MaschineButton::Noterepeat => ButtonAction::Controller { index: 10, down_only: true },
        MaschineButton::F1 => ButtonAction::Controller { index: 30, down_only: true },
        MaschineButton::F2 => ButtonAction::Controller { index: 31, down_only: true },
        MaschineButton::F3 => ButtonAction::Controller { index: 32, down_only: true },
        MaschineButton::F4 => ButtonAction::Controller { index: 33, down_only: true },
        MaschineButton::F5 => ButtonAction::Controller { index: 34, down_only: true },
        MaschineButton::F6 => ButtonAction::Controller { index: 35, down_only: true },
        MaschineButton::F7 => ButtonAction::Controller { index: 36, down_only: true },
        MaschineButton::F8 => ButtonAction::Controller { index: 37, down_only: true },
        MaschineButton::Step => ButtonAction::Controller { index: 23, down_only: true },
        MaschineButton::Enter => ButtonAction::Controller { index: 27, down_only: true },
        MaschineButton::Auto => ButtonAction::Controller { index: 28, down_only: true },
        MaschineButton::All => ButtonAction::Controller { index: 29, down_only: true },
        MaschineButton::Navigate => ButtonAction::Controller { index: 25, down_only: true },
        MaschineButton::Tempo => ButtonAction::Controller { index: 26, down_only: true },
        MaschineButton::Control => ButtonAction::Controller { index: 11, down_only: true },
        MaschineButton::Nav => ButtonAction::Controller { index: 12, down_only: true },
        MaschineButton::Navleft => ButtonAction::Controller { index: 13, down_only: true },
        MaschineButton::Navright => ButtonAction::Controller { index: 14, down_only: true },
        MaschineButton::Main => ButtonAction::Controller { index: 15, down_only: true },
        MaschineButton::Scene => ButtonAction::Controller { index: 16, down_only: true },
        MaschineButton::Pattern => ButtonAction::Controller { index: 17, down_only: true },
        MaschineButton::Padmode => ButtonAction::Controller { index: 18, down_only: true },
        MaschineButton::View => ButtonAction::Controller { index: 19, down_only: true },
        MaschineButton::Duplicate => ButtonAction::Controller { index: 20, down_only: true },
        MaschineButton::Select => ButtonAction::Controller { index: 21, down_only: true },
        MaschineButton::Solo => ButtonAction::Controller { index: 22, down_only: true },
        MaschineButton::Mute => ButtonAction::Controller { index: 24, down_only: true },
        MaschineButton::GroupA => ButtonAction::NoteBase(24),
        MaschineButton::GroupB => ButtonAction::NoteBase(36),
        MaschineButton::GroupC => ButtonAction::NoteBase(48),
        MaschineButton::GroupD => ButtonAction::NoteBase(60),
        MaschineButton::GroupE => ButtonAction::NoteBase(72),
        MaschineButton::GroupF => ButtonAction::NoteBase(84),
        MaschineButton::GroupG => ButtonAction::NoteBase(96),
        MaschineButton::GroupH => ButtonAction::NoteBase(108),
        MaschineButton::Pageright => ButtonAction::Controller { index: 38, down_only: true },
        MaschineButton::Pageleft => ButtonAction::Controller { index: 39, down_only: true },
        MaschineButton::A8 => ButtonAction::Controller { index: 40, down_only: false },
        MaschineButton::B5 | MaschineButton::B6 | MaschineButton::B7 | MaschineButton::B8 | MaschineButton::C8 => ButtonAction::Controller { index: 41, down_only: false },
        MaschineButton::D5 | MaschineButton::D6 | MaschineButton::D7 | MaschineButton::D8 | MaschineButton::E8 => ButtonAction::Controller { index: 42, down_only: false },
        MaschineButton::FF5 | MaschineButton::FF6 | MaschineButton::FF7 | MaschineButton::FF8 | MaschineButton::G8 => ButtonAction::Controller { index: 43, down_only: false },
        MaschineButton::H5 | MaschineButton::H6 | MaschineButton::H7 | MaschineButton::H8 | MaschineButton::I8 => ButtonAction::Controller { index: 44, down_only: false },
        MaschineButton::J5 | MaschineButton::J6 | MaschineButton::J7 | MaschineButton::J8 | MaschineButton::K8 => ButtonAction::Controller { index: 45, down_only: false },
        MaschineButton::L5 | MaschineButton::L6 | MaschineButton::L7 | MaschineButton::L8 | MaschineButton::M8 => ButtonAction::Controller { index: 46, down_only: false },
        MaschineButton::N5 | MaschineButton::N6 | MaschineButton::N7 | MaschineButton::N8 | MaschineButton::O8 => ButtonAction::Controller { index: 47, down_only: false },
        MaschineButton::P5 | MaschineButton::P6 => ButtonAction::Controller { index: 48, down_only: false },
        _ => ButtonAction::Nothing,
    }
}

} // verus!
