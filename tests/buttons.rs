use maschine::button::{btn_to_osc_button_map, midi_action, osc_button_to_btn_map, ButtonAction, MaschineButton};
use maschine::text::{starts_with, str_eq};

const NAMES: [&str; 51] = [
    "restart", "step_left", "step_right", "grid", "play", "rec", "stop", "shift", "browse",
    "sampling", "note_repeat", "encoder", "f1", "f2", "f3", "f4", "f5", "f6", "f7", "f8", "swing",
    "step", "volume", "enter", "auto", "all", "navigate", "tempo", "control", "nav", "nav_left",
    "nav_right", "main", "scene", "pattern", "pad_mode", "view", "duplicate", "select", "solo",
    "mute", "group_a", "group_b", "group_c", "group_d", "group_e", "group_f", "group_g", "group_h",
    "page_right", "page_left",
];

#[test]
fn every_osc_name_round_trips() {
    for name in NAMES {
        let b = osc_button_to_btn_map(name).expect(name);
        assert_eq!(btn_to_osc_button_map(b), name);
    }
}

#[test]
fn osc_names_are_distinct_buttons() {
    let buttons: Vec<MaschineButton> = NAMES.iter().map(|n| osc_button_to_btn_map(n).unwrap()).collect();
    for i in 0..buttons.len() {
        for j in 0..i {
            assert_ne!(buttons[i], buttons[j]);
        }
    }
}

#[test]
fn erase_is_named_stop() {
    assert_eq!(btn_to_osc_button_map(MaschineButton::Erase), "stop");
    assert_eq!(osc_button_to_btn_map("stop"), Some(MaschineButton::Erase));
}

#[test]
fn unknown_names_do_not_resolve() {
    assert_eq!(osc_button_to_btn_map("bar"), None);
    assert_eq!(osc_button_to_btn_map(""), None);
    assert_eq!(osc_button_to_btn_map("Play"), None);
    assert_eq!(osc_button_to_btn_map("a1"), None);
    assert_eq!(osc_button_to_btn_map("FF9"), None);
}

#[test]
fn grid_buttons_have_their_own_names() {
    assert_eq!(btn_to_osc_button_map(MaschineButton::A1), "A1");
    assert_eq!(btn_to_osc_button_map(MaschineButton::P8), "P8");
    assert_eq!(btn_to_osc_button_map(MaschineButton::FF7), "FF7");
    assert_eq!(btn_to_osc_button_map(MaschineButton::FF8), "FF8");
    assert_eq!(osc_button_to_btn_map("A1"), Some(MaschineButton::A1));
    assert_eq!(osc_button_to_btn_map("FF7"), Some(MaschineButton::FF7));
    assert_eq!(osc_button_to_btn_map("FF8"), Some(MaschineButton::FF8));
    assert_eq!(osc_button_to_btn_map("R3"), Some(MaschineButton::R3));
}

#[test]
fn every_grid_name_round_trips() {
    let mut seen: Vec<MaschineButton> = Vec::new();
    for row in ["R", "A", "B", "C", "D", "E", "FF", "G", "H", "I", "J", "K", "L", "M", "N", "O", "P"] {
        for col in 1..=8 {
            let name = format!("{}{}", row, col);
            let b = osc_button_to_btn_map(&name).expect("grid name resolves");
            assert_eq!(btn_to_osc_button_map(b), name);
            assert!(!seen.contains(&b));
            seen.push(b);
        }
    }
    for name in NAMES {
        assert!(!seen.contains(&osc_button_to_btn_map(name).unwrap()));
    }
    assert_eq!(seen.len() + NAMES.len(), 187);
}

#[test]
fn midi_roles() {
    assert_eq!(midi_action(MaschineButton::Play), ButtonAction::Controller { index: 1, down_only: true });
    assert_eq!(midi_action(MaschineButton::Erase), ButtonAction::Controller { index: 2, down_only: true });
    assert_eq!(midi_action(MaschineButton::Pageleft), ButtonAction::Controller { index: 39, down_only: true });
    assert_eq!(midi_action(MaschineButton::A8), ButtonAction::Controller { index: 40, down_only: false });
    assert_eq!(midi_action(MaschineButton::C8), ButtonAction::Controller { index: 41, down_only: false });
    assert_eq!(midi_action(MaschineButton::FF7), ButtonAction::Controller { index: 43, down_only: false });
    assert_eq!(midi_action(MaschineButton::P6), ButtonAction::Controller { index: 48, down_only: false });
    assert_eq!(midi_action(MaschineButton::GroupA), ButtonAction::NoteBase(24));
    assert_eq!(midi_action(MaschineButton::GroupH), ButtonAction::NoteBase(108));
    assert_eq!(midi_action(MaschineButton::Swing), ButtonAction::Nothing);
    assert_eq!(midi_action(MaschineButton::A1), ButtonAction::Nothing);
}

#[test]
fn string_helpers() {
    assert!(str_eq("play", "play"));
    assert!(!str_eq("play", "plays"));
    assert!(!str_eq("play", "pley"));
    assert!(starts_with("/maschine/pad", "/maschine/"));
    assert!(!starts_with("/maschine", "/maschine/"));
    assert!(!starts_with("/foo/bar", "/maschine/"));
}
