use std::collections::BTreeSet;
use swb021bk_driver::executor::{Action, Executor, KeyEvent, Mode, Preset};
use swb021bk_driver::keys::{
    KEY_1, KEY_4, KEY_5, KEY_B, KEY_DELETE, KEY_E, KEY_F13, KEY_KPMINUS, KEY_KPPLUS, KEY_LEFTALT,
    KEY_LEFTCTRL, KEY_LEFTSHIFT, KEY_M, KEY_R, KEY_SPACE, KEY_Y, KEY_Z,
};

fn p(key: u16) -> KeyEvent {
    KeyEvent { key, pressed: true }
}

fn r(key: u16) -> KeyEvent {
    KeyEvent { key, pressed: false }
}

fn executor(preset: Preset) -> Executor {
    let mut e = Executor::new();
    e.set_preset(preset);
    e
}

const PRESETS: [Preset; 3] = [Preset::Rnote, Preset::LibreSprite, Preset::Krita];

fn all_actions() -> Vec<Action> {
    vec![
        Action::Delete,
        Action::Undo,
        Action::Redo,
        Action::Pan(true),
        Action::Pan(false),
        Action::ZoomIn,
        Action::ZoomOut,
        Action::SwitchMonitor,
        Action::SetMode(Mode::Brush),
        Action::SetMode(Mode::Eraser),
        Action::SetMode(Mode::Select),
        Action::KritaToggleEraser,
        Action::Custom1,
    ]
}

/// Plays events on a keyboard; `None` on pressing a held key or releasing an up one.
fn replay(mut held: BTreeSet<u16>, events: &[KeyEvent]) -> Option<BTreeSet<u16>> {
    for e in events {
        if e.pressed == held.contains(&e.key) {
            return None;
        }
        if e.pressed {
            held.insert(e.key);
        } else {
            held.remove(&e.key);
        }
    }
    Some(held)
}

#[test]
fn new_executor_targets_rnote() {
    assert_eq!(Executor::new().preset, Preset::Rnote);
}

#[test]
fn rnote_shortcuts() {
    let e = executor(Preset::Rnote);
    assert_eq!(e.execute(Action::SetMode(Mode::Brush)), vec![p(KEY_LEFTCTRL), p(KEY_1), r(KEY_1), r(KEY_LEFTCTRL)]);
    assert_eq!(e.execute(Action::SetMode(Mode::Eraser)), vec![p(KEY_LEFTCTRL), p(KEY_4), r(KEY_4), r(KEY_LEFTCTRL)]);
    assert_eq!(e.execute(Action::SetMode(Mode::Select)), vec![p(KEY_LEFTCTRL), p(KEY_5), r(KEY_5), r(KEY_LEFTCTRL)]);
    assert_eq!(e.execute(Action::Delete), vec![p(KEY_DELETE), r(KEY_DELETE)]);
    assert_eq!(e.execute(Action::Pan(true)), vec![p(KEY_LEFTALT)]);
    assert_eq!(e.execute(Action::Pan(false)), vec![r(KEY_LEFTALT)]);
    assert_eq!(
        e.execute(Action::Redo),
        vec![p(KEY_LEFTCTRL), p(KEY_LEFTSHIFT), p(KEY_Z), r(KEY_Z), r(KEY_LEFTSHIFT), r(KEY_LEFTCTRL)]
    );
    assert_eq!(e.execute(Action::Undo), vec![p(KEY_LEFTCTRL), p(KEY_Z), r(KEY_Z), r(KEY_LEFTCTRL)]);
    assert_eq!(e.execute(Action::ZoomIn), vec![p(KEY_LEFTCTRL), p(KEY_KPPLUS), r(KEY_KPPLUS), r(KEY_LEFTCTRL)]);
    assert_eq!(e.execute(Action::ZoomOut), vec![p(KEY_LEFTCTRL), p(KEY_KPMINUS), r(KEY_KPMINUS), r(KEY_LEFTCTRL)]);
}

#[test]
fn libresprite_shortcuts() {
    let e = executor(Preset::LibreSprite);
    assert_eq!(e.execute(Action::SetMode(Mode::Brush)), vec![p(KEY_B), r(KEY_B)]);
    assert_eq!(e.execute(Action::SetMode(Mode::Eraser)), vec![p(KEY_E), r(KEY_E)]);
    assert_eq!(e.execute(Action::SetMode(Mode::Select)), vec![p(KEY_M), r(KEY_M)]);
    assert_eq!(e.execute(Action::Delete), vec![p(KEY_DELETE), r(KEY_DELETE)]);
    assert_eq!(e.execute(Action::Pan(true)), vec![p(KEY_LEFTALT)]);
    assert_eq!(e.execute(Action::Redo), vec![p(KEY_LEFTCTRL), p(KEY_Y), r(KEY_Y), r(KEY_LEFTCTRL)]);
    assert_eq!(e.execute(Action::Undo), vec![p(KEY_LEFTCTRL), p(KEY_Z), r(KEY_Z), r(KEY_LEFTCTRL)]);
    assert_eq!(e.execute(Action::ZoomIn), vec![p(KEY_LEFTCTRL), p(KEY_KPPLUS), r(KEY_KPPLUS), r(KEY_LEFTCTRL)]);
    assert_eq!(e.execute(Action::ZoomOut), vec![p(KEY_LEFTCTRL), p(KEY_KPMINUS), r(KEY_KPMINUS), r(KEY_LEFTCTRL)]);
}

#[test]
fn krita_shortcuts() {
    let e = executor(Preset::Krita);
    assert_eq!(e.execute(Action::KritaToggleEraser), vec![p(KEY_E), r(KEY_E)]);
    assert_eq!(e.execute(Action::Custom1), vec![p(KEY_F13), r(KEY_F13)]);
    assert_eq!(e.execute(Action::SetMode(Mode::Brush)), vec![p(KEY_B), r(KEY_B)]);
    assert_eq!(e.execute(Action::SetMode(Mode::Select)), vec![p(KEY_LEFTCTRL), p(KEY_R), r(KEY_R), r(KEY_LEFTCTRL)]);
    assert_eq!(e.execute(Action::Pan(true)), vec![p(KEY_SPACE)]);
    assert_eq!(e.execute(Action::Pan(false)), vec![r(KEY_SPACE)]);
    assert_eq!(
        e.execute(Action::Redo),
        vec![p(KEY_LEFTCTRL), p(KEY_LEFTSHIFT), p(KEY_Z), r(KEY_Z), r(KEY_LEFTSHIFT), r(KEY_LEFTCTRL)]
    );
}

#[test]
fn supported_actions_per_preset() {
    for preset in PRESETS {
        let e = executor(preset);
        assert!(!e.supports(Action::SwitchMonitor));
        assert_eq!(e.supports(Action::KritaToggleEraser), preset == Preset::Krita);
        assert_eq!(e.supports(Action::Custom1), preset == Preset::Krita);
        assert!(e.supports(Action::Undo));
        assert!(e.supports(Action::Pan(true)));
    }
}

#[test]
fn shortcuts_release_every_key() {
    for preset in PRESETS {
        let e = executor(preset);
        for action in all_actions() {
            if !e.supports(action) || matches!(action, Action::Pan(_)) {
                continue;
            }
            let events = e.execute(action);
            assert!(!events.is_empty());
            assert_eq!(replay(BTreeSet::new(), &events), Some(BTreeSet::new()));
        }
    }
}

#[test]
fn pan_holds_then_releases() {
    for preset in PRESETS {
        let e = executor(preset);
        let held = replay(BTreeSet::new(), &e.execute(Action::Pan(true))).unwrap();
        assert_eq!(held.len(), 1);
        let during = replay(held.clone(), &e.execute(Action::Undo)).unwrap();
        assert_eq!(during, held);
        assert_eq!(replay(held, &e.execute(Action::Pan(false))), Some(BTreeSet::new()));
    }
}

#[test]
fn shortcuts_use_registered_keys() {
    let registered = Executor::registered_keys();
    assert_eq!(registered.len(), 17);
    for preset in PRESETS {
        let e = executor(preset);
        for action in all_actions() {
            if !e.supports(action) {
                continue;
            }
            for event in e.execute(action) {
                assert!(registered.contains(&event.key), "{:?} {:?}", preset, event);
            }
        }
    }
}

#[test]
fn rnote_and_libresprite_use_only_the_common_keys() {
    let common = [
        KEY_1, KEY_4, KEY_5, KEY_Y, KEY_Z, KEY_KPMINUS, KEY_KPPLUS, KEY_DELETE, KEY_LEFTALT,
        KEY_LEFTCTRL, KEY_LEFTSHIFT, KEY_B, KEY_M, KEY_E,
    ];
    assert_eq!(&Executor::registered_keys()[..14], &common);
    assert_eq!(&Executor::registered_keys()[14..], &[KEY_R, KEY_SPACE, KEY_F13]);
    for preset in [Preset::Rnote, Preset::LibreSprite] {
        let e = executor(preset);
        for action in all_actions() {
            if !e.supports(action) {
                continue;
            }
            for event in e.execute(action) {
                assert!(common.contains(&event.key));
            }
        }
    }
}
