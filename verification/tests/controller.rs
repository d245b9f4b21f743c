use std::collections::BTreeSet;
use swb021bk_driver::controller::{ButtonId, Controller};
use swb021bk_driver::executor::{Action, KeyEvent, Mode, Preset};
use swb021bk_driver::keys::{
    KEY_LEFTALT, KEY_LEFTCTRL, KEY_KPMINUS, KEY_KPPLUS, KEY_LEFTBRACE, KEY_RIGHTBRACE, KEY_SPACE, KEY_TAB, KEY_Y, KEY_Z,
};

/// A press followed by a release; returns the press's action.
fn click(c: &mut Controller, id: ButtonId) -> Option<Action> {
    let a = c.handle_btn_event(id, 1);
    assert_eq!(c.handle_btn_event(id, 0), None);
    a
}

#[test]
fn simple_buttons() {
    let mut c = Controller::new();
    assert_eq!(click(&mut c, ButtonId::Btn1), Some(Action::Undo));
    assert_eq!(click(&mut c, ButtonId::Btn2), Some(Action::Redo));
    assert_eq!(click(&mut c, ButtonId::Btn5), Some(Action::ZoomIn));
    assert_eq!(click(&mut c, ButtonId::Btn6), Some(Action::ZoomOut));
}

#[test]
fn release_and_repeat_of_simple_buttons_do_nothing() {
    let mut c = Controller::new();
    assert_eq!(c.handle_btn_event(ButtonId::Btn1, 1), Some(Action::Undo));
    assert_eq!(c.handle_btn_event(ButtonId::Btn1, 2), None);
    assert_eq!(c.handle_btn_event(ButtonId::Btn1, 2), None);
    assert_eq!(c.handle_btn_event(ButtonId::Btn1, 0), None);
}

#[test]
fn btn4_swaps_brush_and_eraser() {
    let mut c = Controller::new();
    assert_eq!(click(&mut c, ButtonId::Btn4), Some(Action::SetMode(Mode::Eraser)));
    assert_eq!(click(&mut c, ButtonId::Btn4), Some(Action::SetMode(Mode::Brush)));
    assert_eq!(click(&mut c, ButtonId::PenPlus), Some(Action::SetMode(Mode::Eraser)));
    assert_eq!(click(&mut c, ButtonId::PenPlus), Some(Action::SetMode(Mode::Brush)));
}

#[test]
fn pen_minus_enters_and_leaves_select_mode() {
    let mut c = Controller::new();
    assert_eq!(click(&mut c, ButtonId::PenMinus), Some(Action::SetMode(Mode::Select)));
    assert_eq!(click(&mut c, ButtonId::Btn4), Some(Action::Delete));
    assert_eq!(click(&mut c, ButtonId::PenPlus), Some(Action::Delete));
    assert_eq!(click(&mut c, ButtonId::PenMinus), Some(Action::SetMode(Mode::Brush)));
    assert_eq!(click(&mut c, ButtonId::Btn4), Some(Action::SetMode(Mode::Eraser)));
    assert_eq!(click(&mut c, ButtonId::PenMinus), Some(Action::SetMode(Mode::Select)));
}

#[test]
fn btn3_click_toggles_panning() {
    let mut c = Controller::new();
    assert_eq!(click(&mut c, ButtonId::Btn3), Some(Action::Pan(true)));
    assert_eq!(click(&mut c, ButtonId::Btn3), Some(Action::Pan(false)));
    assert_eq!(click(&mut c, ButtonId::Btn3), Some(Action::Pan(true)));
}

#[test]
fn btn3_hold_pans_until_release() {
    let mut c = Controller::new();
    assert_eq!(c.handle_btn_event(ButtonId::Btn3, 1), Some(Action::Pan(true)));
    assert_eq!(c.handle_btn_event(ButtonId::Btn3, 2), None);
    assert_eq!(c.handle_btn_event(ButtonId::Btn3, 2), None);
    assert_eq!(c.handle_btn_event(ButtonId::Btn3, 0), Some(Action::Pan(false)));
    // the next click starts panning again
    assert_eq!(click(&mut c, ButtonId::Btn3), Some(Action::Pan(true)));
}

#[test]
fn btn3_hold_that_stops_panning_does_not_resume_it() {
    let mut c = Controller::new();
    assert_eq!(click(&mut c, ButtonId::Btn3), Some(Action::Pan(true)));
    assert_eq!(c.handle_btn_event(ButtonId::Btn3, 1), Some(Action::Pan(false)));
    assert_eq!(c.handle_btn_event(ButtonId::Btn3, 2), None);
    assert_eq!(c.handle_btn_event(ButtonId::Btn3, 0), None);
}

#[test]
fn set_mode_reports_only_changes() {
    let mut c = Controller::new();
    assert_eq!(c.set_mode(Mode::Brush), None);
    assert_eq!(c.set_mode(Mode::Select), Some(Action::SetMode(Mode::Select)));
    assert_eq!(c.set_mode(Mode::Select), None);
    assert_eq!(c.set_mode(Mode::Eraser), Some(Action::SetMode(Mode::Eraser)));
}

#[test]
fn krita_toggles_its_eraser() {
    let mut c = Controller::new();
    c.executor.set_preset(Preset::Krita);
    assert_eq!(click(&mut c, ButtonId::Btn4), Some(Action::KritaToggleEraser));
    assert_eq!(click(&mut c, ButtonId::Btn4), Some(Action::KritaToggleEraser));
    assert_eq!(click(&mut c, ButtonId::PenPlus), Some(Action::KritaToggleEraser));
    assert_eq!(click(&mut c, ButtonId::PenMinus), Some(Action::Custom1));
    assert_eq!(click(&mut c, ButtonId::PenPlus), Some(Action::KritaToggleEraser));
}

#[test]
fn krita_set_mode() {
    let mut c = Controller::new();
    c.executor.set_preset(Preset::Krita);
    assert_eq!(c.set_mode(Mode::Eraser), Some(Action::KritaToggleEraser));
    assert_eq!(c.set_mode(Mode::Select), Some(Action::SetMode(Mode::Select)));
    // the eraser toggle is still on: back to eraser only selects the brush tool
    assert_eq!(c.set_mode(Mode::Eraser), Some(Action::SetMode(Mode::Eraser)));
    assert_eq!(c.set_mode(Mode::Brush), Some(Action::KritaToggleEraser));
    assert_eq!(c.set_mode(Mode::Select), Some(Action::SetMode(Mode::Select)));
    assert_eq!(c.set_mode(Mode::Brush), Some(Action::SetMode(Mode::Brush)));
}

#[test]
fn tablet_keys_map_to_buttons() {
    assert_eq!(ButtonId::from_key_code(KEY_KPMINUS), Some(ButtonId::Btn1));
    assert_eq!(ButtonId::from_key_code(KEY_KPPLUS), Some(ButtonId::Btn2));
    assert_eq!(ButtonId::from_key_code(KEY_LEFTBRACE), Some(ButtonId::Btn3));
    assert_eq!(ButtonId::from_key_code(KEY_RIGHTBRACE), Some(ButtonId::Btn4));
    assert_eq!(ButtonId::from_key_code(KEY_TAB), Some(ButtonId::Btn5));
    assert_eq!(ButtonId::from_key_code(KEY_SPACE), Some(ButtonId::Btn6));
    assert_eq!(ButtonId::from_key_code(KEY_Y), Some(ButtonId::PenPlus));
    assert_eq!(ButtonId::from_key_code(KEY_Z), Some(ButtonId::PenMinus));
    assert_eq!(ButtonId::from_key_code(29), None);
    assert_eq!(ButtonId::from_key_code(0), None);
}

const BUTTONS: [ButtonId; 8] = [
    ButtonId::Btn1,
    ButtonId::Btn2,
    ButtonId::Btn3,
    ButtonId::Btn4,
    ButtonId::Btn5,
    ButtonId::Btn6,
    ButtonId::PenPlus,
    ButtonId::PenMinus,
];

/// Drives each preset with a long pseudo-random sequence of well-formed key
/// reports and checks that every action is supported and that the virtual
/// keyboard only ever holds the pan key, exactly while panning.
#[test]
fn every_action_is_supported_and_keyboard_tracks_panning() {
    for preset in [Preset::Rnote, Preset::LibreSprite, Preset::Krita] {
        let mut c = Controller::new();
        c.executor.set_preset(preset);
        let mut pressed = [false; 8];
        let mut held: BTreeSet<u16> = BTreeSet::new();
        let mut panning = false;
        let mut seed: u32 = 12345;
        for _ in 0..5000 {
            seed = seed.wrapping_mul(1103515245).wrapping_add(12345);
            let i = ((seed >> 16) % 8) as usize;
            let status = if pressed[i] {
                if (seed >> 8) % 3 == 0 { 0 } else { 2 }
            } else {
                1
            };
            pressed[i] = status != 0;
            if let Some(action) = c.handle_btn_event(BUTTONS[i], status) {
                assert!(c.executor.supports(action));
                if let Action::Pan(on) = action {
                    assert_ne!(on, panning);
                    panning = on;
                }
                for e in c.executor.execute(action) {
                    assert_ne!(e.pressed, held.contains(&e.key));
                    if e.pressed {
                        held.insert(e.key);
                    } else {
                        held.remove(&e.key);
                    }
                }
            }
            assert_eq!(held.len(), if panning { 1 } else { 0 });
        }
    }
}

#[test]
fn preset_accessors() {
    let mut c = Controller::new();
    assert_eq!(c.preset(), Preset::Rnote);
    c.set_preset(Preset::LibreSprite);
    assert_eq!(c.preset(), Preset::LibreSprite);
    assert_eq!(c.executor.preset, Preset::LibreSprite);
}

#[test]
fn handle_report_spells_out_actions() {
    let mut c = Controller::new();
    assert_eq!(
        c.handle_report(ButtonId::Btn1, 1),
        vec![
            KeyEvent { key: KEY_LEFTCTRL, pressed: true },
            KeyEvent { key: KEY_Z, pressed: true },
            KeyEvent { key: KEY_Z, pressed: false },
            KeyEvent { key: KEY_LEFTCTRL, pressed: false },
        ]
    );
    assert_eq!(c.handle_report(ButtonId::Btn1, 0), vec![]);
    assert_eq!(c.handle_report(ButtonId::Btn3, 1), vec![KeyEvent { key: KEY_LEFTALT, pressed: true }]);
    c.set_preset(Preset::Krita);
    assert_eq!(c.handle_report(ButtonId::Btn3, 0), vec![]);
    assert_eq!(c.handle_report(ButtonId::Btn5, 1).len(), 4);
}

#[test]
fn btn3_hold_with_other_buttons_never_leaves_pan_on() {
    for start_panning in [false, true] {
        let mut c = Controller::new();
        if start_panning {
            assert_eq!(click(&mut c, ButtonId::Btn3), Some(Action::Pan(true)));
        }
        let press = c.handle_btn_event(ButtonId::Btn3, 1);
        assert_eq!(c.handle_btn_event(ButtonId::Btn1, 1), Some(Action::Undo));
        assert_eq!(c.handle_btn_event(ButtonId::Btn3, 2), None);
        assert_eq!(c.handle_btn_event(ButtonId::Btn1, 0), None);
        assert_eq!(c.handle_btn_event(ButtonId::Btn4, 1), Some(Action::SetMode(Mode::Eraser)));
        assert_eq!(c.handle_btn_event(ButtonId::Btn3, 2), None);
        let release = c.handle_btn_event(ButtonId::Btn3, 0);
        if start_panning {
            assert_eq!(press, Some(Action::Pan(false)));
            assert_eq!(release, None);
        } else {
            assert_eq!(press, Some(Action::Pan(true)));
            assert_eq!(release, Some(Action::Pan(false)));
        }
        // panning is off: the next click turns it on
        assert_eq!(click(&mut c, ButtonId::Btn3), Some(Action::Pan(true)));
    }
}
