//! Application presets and the keyboard shortcuts that carry out each action.
//!
//! An [`Executor`] knows which drawing application is targeted and turns an
//! [`Action`] into the exact sequence of key presses and releases that the
//! virtual keyboard must emit.

use vstd::prelude::*;
use crate::keys::{
    KEY_1, KEY_4, KEY_5, KEY_B, KEY_DELETE, KEY_E, KEY_F13, KEY_KPMINUS, KEY_KPPLUS, KEY_LEFTALT,
    KEY_LEFTCTRL, KEY_LEFTSHIFT, KEY_M, KEY_R, KEY_SPACE, KEY_Y, KEY_Z,
};

verus! {

/// The drawing application whose shortcuts are used.
#[derive(Clone, Copy, PartialEq, Eq, Structural, Debug)]
pub enum Preset {
    Rnote,
    LibreSprite,
    /// Krita, with shortcuts of this driver's own choosing: B selects the
    /// brush tool for both brush and eraser (the eraser is Krita's E toggle
    /// on top of it), Ctrl+R the rectangle selection, Space is held to pan,
    /// F13 is the key for the user's custom shortcut, and undo, redo, zoom and
    /// delete use the same keys as Rnote. R, Space and F13 are registered on
    /// the virtual keyboard for Krita alone.
    Krita,
}

/// The tool the pen currently acts as.
#[derive(Clone, Copy, PartialEq, Eq, Structural, Debug)]
pub enum Mode {
    Brush,
    Eraser,
    Select,
}

impl Default for Mode {
    fn default() -> (mode: Mode)
        ensures
            mode == Mode::Brush,
    {
        Mode::Brush
    }
}

/// Something the user asked the drawing application to do.
#[derive(Clone, Copy, PartialEq, Eq, Structural, Debug)]
pub enum Action {
    Delete,
    Undo,
    Redo,
    /// Start (`true`) or stop (`false`) the temporary pan/pick tool.
    Pan(bool),
    ZoomIn,
    ZoomOut,
    SwitchMonitor,
    SetMode(Mode),
    /// Krita keeps the eraser as a toggle on top of the brush tool.
    KritaToggleEraser,
    /// A user-assigned shortcut in Krita.
    Custom1,
}

/// One key transition written to the virtual keyboard.
#[derive(Clone, Copy, PartialEq, Eq, Structural, Debug)]
pub struct KeyEvent {
    pub key: u16,
    pub pressed: bool,
}

pub open spec fn press(key: u16) -> KeyEvent {
    KeyEvent { key, pressed: true }
}

pub open spec fn release(key: u16) -> KeyEvent {
    KeyEvent { key, pressed: false }
}

/// Each modifier pressed, in order.
pub open spec fn presses(keys: Seq<u16>) -> Seq<KeyEvent> {
    Seq::new(keys.len(), |i: int| press(keys[i]))
}

/// Each modifier released, last pressed first.
pub open spec fn releases_in_reverse(keys: Seq<u16>) -> Seq<KeyEvent> {
    Seq::new(keys.len(), |i: int| release(keys[keys.len() - 1 - i]))
}

/// A shortcut: hold the modifiers, tap `key`, let the modifiers go again.
pub open spec fn hotkey(mods: Seq<u16>, key: u16) -> Seq<KeyEvent> {
    presses(mods) + seq![press(key), release(key)] + releases_in_reverse(mods)
}

/// The key held down while panning.
pub open spec fn pan_key(preset: Preset) -> u16 {
    match preset {
        Preset::Krita => KEY_SPACE,
        _ => KEY_LEFTALT,
    }
}

/// Whether `preset` has a shortcut for `action`.
pub open spec fn supports(preset: Preset, action: Action) -> bool {
    match action {
        Action::SwitchMonitor => false,
        Action::KritaToggleEraser | Action::Custom1 => preset == Preset::Krita,
        _ => true,
    }
}

/// The key events that carry out `action` in the application of `preset`.
pub open spec fn key_sequence(preset: Preset, action: Action) -> Seq<KeyEvent> {
    match action {
        Action::Pan(on) => seq![KeyEvent { key: pan_key(preset), pressed: on }],
        Action::Delete => hotkey(seq![], KEY_DELETE),
        Action::Undo => hotkey(seq![KEY_LEFTCTRL], KEY_Z),
        Action::Redo => match preset {
            Preset::LibreSprite => hotkey(seq![KEY_LEFTCTRL], KEY_Y),
            _ => hotkey(seq![KEY_LEFTCTRL, KEY_LEFTSHIFT], KEY_Z),
        },
        Action::ZoomIn => hotkey(seq![KEY_LEFTCTRL], KEY_KPPLUS),
        Action::ZoomOut => hotkey(seq![KEY_LEFTCTRL], KEY_KPMINUS),
        Action::SetMode(mode) => match preset {
            Preset::Rnote => match mode {
                Mode::Brush => hotkey(seq![KEY_LEFTCTRL], KEY_1),
                Mode::Eraser => hotkey(seq![KEY_LEFTCTRL], KEY_4),
                Mode::Select => hotkey(seq![KEY_LEFTCTRL], KEY_5),
            },
            Preset::LibreSprite => match mode {
                Mode::Brush => hotkey(seq![], KEY_B),
                Mode::Eraser => hotkey(seq![], KEY_E),
                Mode::Select => hotkey(seq![], KEY_M),
            },
            Preset::Krita => match mode {
                Mode::Select => hotkey(seq![KEY_LEFTCTRL], KEY_R),
                _ => hotkey(seq![], KEY_B),
            },
        },
        Action::KritaToggleEraser => if preset == Preset::Krita {
            hotkey(seq![], KEY_E)
        } else {
            seq![]
        },
        Action::Custom1 => if preset == Preset::Krita {
            hotkey(seq![], KEY_F13)
        } else {
            seq![]
        },
        Action::SwitchMonitor => seq![],
    }
}

/// The keys that the Rnote and LibreSprite shortcuts use.
pub open spec fn common_keys() -> Seq<u16> {
    seq![
        KEY_1,
        KEY_4,
        KEY_5,
        KEY_Y,
        KEY_Z,
        KEY_KPMINUS,
        KEY_KPPLUS,
        KEY_DELETE,
        KEY_LEFTALT,
        KEY_LEFTCTRL,
        KEY_LEFTSHIFT,
        KEY_B,
        KEY_M,
        KEY_E,
    ]
}

/// The keys that only the Krita shortcuts use.
pub open spec fn krita_keys() -> Seq<u16> {
    seq![KEY_R, KEY_SPACE, KEY_F13]
}

/// The keys the virtual keyboard announces when it is created.
pub open spec fn registered_keys() -> Seq<u16> {
    common_keys() + krita_keys()
}

/// Plays `events` on a keyboard whose held keys are `held`: the keys held
/// afterwards, or `None` when an event presses a key that is already down or
/// releases one that is up.
pub open spec fn replay(held: Set<u16>, events: Seq<KeyEvent>) -> Option<Set<u16>>
    decreases events.len(),
{
    if events.len() == 0 {
        Some(held)
    } else {
        let e = events[0];
        if e.pressed == held.contains(e.key) {
            None
        } else if e.pressed {
            replay(held.insert(e.key), events.drop_first())
        } else {
            replay(held.remove(e.key), events.drop_first())
        }
    }
}

/// Selects the target application and spells out actions as key events.
pub struct Executor {
    pub preset: Preset,
}

impl Executor {
    /// An executor for the default application, Rnote.
    pub fn new() -> (executor: Executor)
        ensures
            executor.preset == Preset::Rnote,
    {
        Executor { preset: Preset::Rnote }
    }

    pub fn set_preset(&mut self, preset: Preset)
        ensures
            final(self).preset == preset,
    {
        self.preset = preset;
    }

    /// Whether the current preset has a shortcut for `action`.
    pub fn supports(&self, action: Action) -> (r: bool)
        ensures
            r == supports(self.preset, action),
    {
        match action {
            Action::SwitchMonitor => false,
            Action::KritaToggleEraser | Action::Custom1 => match self.preset {
                Preset::Krita => true,
                _ => false,
            },
            _ => true,
        }
    }

    /// The key events that carry out `action` in the current application.
    pub fn execute(&self, action: Action) -> (events: Vec<KeyEvent>)
        requires
            supports(self.preset, action),
        ensures
            events@ == key_sequence(self.preset, action),
    {
        let ctrl: [u16; 1] = [KEY_LEFTCTRL];
        match action {
            Action::Pan(on) => {
                let key = match self.preset {
                    Preset::Krita => KEY_SPACE,
                    _ => KEY_LEFTALT,
                };
                let mut events: Vec<KeyEvent> = Vec::new();
                events.push(KeyEvent { key, pressed: on });
                events
            },
            Action::Delete => hotkey_events(&[], KEY_DELETE),
            Action::Undo => hotkey_events(&ctrl, KEY_Z),
            Action::Redo => match self.preset {
                Preset::LibreSprite => hotkey_events(&ctrl, KEY_Y),
                _ => hotkey_events(&[KEY_LEFTCTRL, KEY_LEFTSHIFT], KEY_Z),
            },
            Action::ZoomIn => hotkey_events(&ctrl, KEY_KPPLUS),
            Action::ZoomOut => hotkey_events(&ctrl, KEY_KPMINUS),
            Action::SetMode(mode) => match self.preset {
                Preset::Rnote => match mode {
                    Mode::Brush => hotkey_events(&ctrl, KEY_1),
                    Mode::Eraser => hotkey_events(&ctrl, KEY_4),
                    Mode::Select => hotkey_events(&ctrl, KEY_5),
                },
                Preset::LibreSprite => match mode {
                    Mode::Brush => hotkey_events(&[], KEY_B),
                    Mode::Eraser => hotkey_events(&[], KEY_E),
                    Mode::Select => hotkey_events(&[], KEY_M),
                },
                Preset::Krita => match mode {
                    Mode::Select => hotkey_events(&ctrl, KEY_R),
                    _ => hotkey_events(&[], KEY_B),
                },
            },
            Action::KritaToggleEraser => hotkey_events(&[], KEY_E),
            Action::Custom1 => hotkey_events(&[], KEY_F13),
            Action::SwitchMonitor => Vec::new(),
        }
    }

    /// The keys the virtual keyboard has to announce so that every shortcut
    /// can be emitted.
    pub fn registered_keys() -> (keys: Vec<u16>)
        ensures
            keys@ == registered_keys(),
    {
        let keys: Vec<u16> = vec![
            KEY_1,
            KEY_4,
            KEY_5,
            KEY_Y,
            KEY_Z,
            KEY_KPMINUS,
            KEY_KPPLUS,
            KEY_DELETE,
            KEY_LEFTALT,
            KEY_LEFTCTRL,
            KEY_LEFTSHIFT,
            KEY_B,
            KEY_M,
            KEY_E,
            KEY_R,
            KEY_SPACE,
            KEY_F13,
        ];
        assert(keys@ =~= registered_keys());
        keys
    }
}

/// The events of the shortcut `mods` + `key`.
pub fn hotkey_events(mods: &[u16], key: u16) -> (events: Vec<KeyEvent>)
    ensures
        events@ == hotkey(mods@, key),
{
    let n = mods.len();
    let mut events: Vec<KeyEvent> = Vec::new();
    for i in 0..n
        invariant
            n == mods@.len(),
            events@ == presses(mods@.take(i as int)),
    {
        events.push(KeyEvent { key: mods[i], pressed: true });
        assert(events@ =~= presses(mods@.take(i + 1)));
    }
    assert(mods@.take(n as int) =~= mods@);
    events.push(KeyEvent { key, pressed: true });
    events.push(KeyEvent { key, pressed: false });
    let ghost front = presses(mods@) + seq![press(key), release(key)];
    assert(events@ =~= front);
    for j in 0..n
        invariant
            n == mods@.len(),
            events@ == front + Seq::new(j as nat, |i: int| release(mods@[n - 1 - i])),
    {
        events.push(KeyEvent { key: mods[n - 1 - j], pressed: false });
        assert(events@ =~= front + Seq::new((j + 1) as nat, |i: int| release(mods@[n - 1 - i])));
    }
    assert(events@ =~= hotkey(mods@, key));
    events
}

/// Playing `a` and then `b` is playing their concatenation.
pub proof fn lemma_replay_concat(held: Set<u16>, a: Seq<KeyEvent>, b: Seq<KeyEvent>)
    ensures
        replay(held, a + b) == (match replay(held, a) {
            Some(after) => replay(after, b),
            None => None,
        }),
    decreases a.len(),
{
    if a.len() == 0 {
        assert(a + b =~= b);
    } else {
        assert((a + b)[0] == a[0]);
        assert((a + b).drop_first() =~= a.drop_first() + b);
        let e = a[0];
        if e.pressed != held.contains(e.key) {
            if e.pressed {
                lemma_replay_concat(held.insert(e.key), a.drop_first(), b);
            } else {
                lemma_replay_concat(held.remove(e.key), a.drop_first(), b);
            }
        }
    }
}

/// Pressing distinct keys that are all up leaves them held as well.
proof fn lemma_replay_presses(held: Set<u16>, mods: Seq<u16>)
    requires
        mods.no_duplicates(),
        forall|i: int| 0 <= i < mods.len() ==> !held.contains(#[trigger] mods[i]),
    ensures
        replay(held, presses(mods)) == Some(held.union(mods.to_set())),
    decreases mods.len(),
{
    if mods.len() == 0 {
        assert(held.union(mods.to_set()) =~= held);
    } else {
        let tail = mods.drop_first();
        let held1 = held.insert(mods[0]);
        assert(presses(mods)[0] == press(mods[0]));
        assert(presses(mods).drop_first() =~= presses(tail));
        assert forall|i: int| 0 <= i < tail.len() implies !held1.contains(#[trigger] tail[i]) by {
            assert(tail[i] == mods[i + 1]);
        }
        assert(tail.no_duplicates()) by {
            assert forall|i: int, j: int| 0 <= i < tail.len() && 0 <= j < tail.len() && i != j
                implies tail[i] != tail[j] by {
                assert(tail[i] == mods[i + 1] && tail[j] == mods[j + 1]);
            }
        }
        lemma_replay_presses(held1, tail);
        assert forall|k: u16| held1.union(tail.to_set()).contains(k) == held.union(mods.to_set()).contains(k) by {
            if tail.contains(k) {
                let j = choose|j: int| 0 <= j < tail.len() && tail[j] == k;
                assert(mods[j + 1] == k);
            }
            if mods.contains(k) && k != mods[0] {
                let j = choose|j: int| 0 <= j < mods.len() && mods[j] == k;
                assert(tail[j - 1] == k);
            }
            if k == mods[0] {
                assert(mods.contains(k));
            }
        }
        assert(held1.union(tail.to_set()) =~= held.union(mods.to_set()));
    }
}

/// Releasing held distinct keys, last pressed first, lets them all go.
proof fn lemma_replay_releases(held: Set<u16>, mods: Seq<u16>)
    requires
        mods.no_duplicates(),
        forall|i: int| 0 <= i < mods.len() ==> !held.contains(#[trigger] mods[i]),
    ensures
        replay(held.union(mods.to_set()), releases_in_reverse(mods)) == Some(held),
    decreases mods.len(),
{
    if mods.len() == 0 {
        assert(held.union(mods.to_set()) =~= held);
    } else {
        let n = mods.len();
        let front = mods.drop_last();
        let last = mods[n - 1];
        assert(releases_in_reverse(mods)[0] == release(last));
        assert(releases_in_reverse(mods).drop_first() =~= releases_in_reverse(front));
        assert(mods.contains(last));
        assert forall|i: int| 0 <= i < front.len() implies !held.contains(#[trigger] front[i]) by {
            assert(front[i] == mods[i]);
        }
        assert(front.no_duplicates()) by {
            assert forall|i: int, j: int| 0 <= i < front.len() && 0 <= j < front.len() && i != j
                implies front[i] != front[j] by {
                assert(front[i] == mods[i] && front[j] == mods[j]);
            }
        }
        assert forall|k: u16| held.union(mods.to_set()).remove(last).contains(k)
            == held.union(front.to_set()).contains(k) by {
            if front.contains(k) {
                let j = choose|j: int| 0 <= j < front.len() && front[j] == k;
                assert(mods[j] == k);
                assert(k != last);
            }
            if mods.contains(k) && k != last {
                let j = choose|j: int| 0 <= j < mods.len() && mods[j] == k;
                assert(front[j] == k);
            }
        }
        assert(held.union(mods.to_set()).remove(last) =~= held.union(front.to_set()));
        lemma_replay_releases(held, front);
    }
}

/// A shortcut whose keys are distinct and all up leaves the keyboard as it
/// found it, and never presses a held key or releases one that is up.
pub proof fn lemma_hotkey_releases_all(held: Set<u16>, mods: Seq<u16>, key: u16)
    requires
        mods.no_duplicates(),
        !mods.contains(key),
        !held.contains(key),
        forall|i: int| 0 <= i < mods.len() ==> !held.contains(#[trigger] mods[i]),
    ensures
        replay(held, hotkey(mods, key)) == Some(held),
{
    let pre = presses(mods);
    let mid: Seq<KeyEvent> = seq![press(key), release(key)];
    let post = releases_in_reverse(mods);
    let all = held.union(mods.to_set());
    lemma_replay_presses(held, mods);
    lemma_replay_concat(held, pre, mid);
    lemma_replay_concat(held, pre + mid, post);
    assert(!all.contains(key));
    reveal_with_fuel(replay, 3);
    assert(mid.drop_first() =~= seq![release(key)]);
    assert(seq![release(key)].drop_first() =~= Seq::<KeyEvent>::empty());
    assert(all.insert(key).remove(key) =~= all);
    assert(replay(all, mid) == Some(all));
    lemma_replay_releases(held, mods);
}

/// The keys a shortcut touches are its modifiers and its key.
pub proof fn lemma_hotkey_keys(mods: Seq<u16>, key: u16)
    ensures
        forall|i: int| 0 <= i < hotkey(mods, key).len() ==>
            (#[trigger] hotkey(mods, key)[i]).key == key || mods.contains(hotkey(mods, key)[i].key),
{
    let h = hotkey(mods, key);
    let n = mods.len();
    assert forall|i: int| 0 <= i < h.len() implies (#[trigger] h[i]).key == key || mods.contains(h[i].key) by {
        if i < n {
            assert(h[i] == press(mods[i]));
        } else if i >= n + 2 {
            assert(h[i] == release(mods[n - 1 - (i - n - 2)]));
        }
    }
}

/// Every supported shortcut other than panning presses and releases each of
/// its keys and leaves the keyboard as it found it, when at most the pan key
/// is held beforehand.
pub proof fn lemma_shortcut_releases_every_key(preset: Preset, action: Action, held: Set<u16>)
    requires
        supports(preset, action),
        !(action is Pan),
        forall|k: u16| held.contains(k) ==> k == pan_key(preset),
    ensures
        replay(held, key_sequence(preset, action)) == Some(held),
{
    let none: Seq<u16> = seq![];
    let ctrl: Seq<u16> = seq![KEY_LEFTCTRL];
    let ctrl_shift: Seq<u16> = seq![KEY_LEFTCTRL, KEY_LEFTSHIFT];
    assert(none.no_duplicates());
    assert(ctrl.no_duplicates());
    assert(ctrl_shift.no_duplicates());
    assert forall|k: u16| k != KEY_LEFTCTRL implies !ctrl.contains(k) by {
        if ctrl.contains(k) {
            let j = choose|j: int| 0 <= j < ctrl.len() && ctrl[j] == k;
        }
    }
    assert forall|k: u16| k != KEY_LEFTCTRL && k != KEY_LEFTSHIFT implies !ctrl_shift.contains(k) by {
        if ctrl_shift.contains(k) {
            let j = choose|j: int| 0 <= j < ctrl_shift.len() && ctrl_shift[j] == k;
        }
    }
    match action {
        Action::Delete => lemma_hotkey_releases_all(held, none, KEY_DELETE),
        Action::Undo => lemma_hotkey_releases_all(held, ctrl, KEY_Z),
        Action::Redo => if preset == Preset::LibreSprite {
            lemma_hotkey_releases_all(held, ctrl, KEY_Y);
        } else {
            lemma_hotkey_releases_all(held, ctrl_shift, KEY_Z);
        },
        Action::ZoomIn => lemma_hotkey_releases_all(held, ctrl, KEY_KPPLUS),
        Action::ZoomOut => lemma_hotkey_releases_all(held, ctrl, KEY_KPMINUS),
        Action::SetMode(mode) => match preset {
            Preset::Rnote => match mode {
                Mode::Brush => lemma_hotkey_releases_all(held, ctrl, KEY_1),
                Mode::Eraser => lemma_hotkey_releases_all(held, ctrl, KEY_4),
                Mode::Select => lemma_hotkey_releases_all(held, ctrl, KEY_5),
            },
            Preset::LibreSprite => match mode {
                Mode::Brush => lemma_hotkey_releases_all(held, none, KEY_B),
                Mode::Eraser => lemma_hotkey_releases_all(held, none, KEY_E),
                Mode::Select => lemma_hotkey_releases_all(held, none, KEY_M),
            },
            Preset::Krita => match mode {
                Mode::Select => lemma_hotkey_releases_all(held, ctrl, KEY_R),
                _ => lemma_hotkey_releases_all(held, none, KEY_B),
            },
        },
        Action::KritaToggleEraser => lemma_hotkey_releases_all(held, none, KEY_E),
        Action::Custom1 => lemma_hotkey_releases_all(held, none, KEY_F13),
        _ => {},
    }
}

/// Starting to pan holds the preset's pan key; stopping releases it again.
pub proof fn lemma_pan_holds_then_releases(preset: Preset)
    ensures
        replay(Set::empty(), key_sequence(preset, Action::Pan(true))) == Some(set![pan_key(preset)]),
        replay(set![pan_key(preset)], key_sequence(preset, Action::Pan(false))) == Some(Set::<u16>::empty()),
{
    reveal_with_fuel(replay, 2);
    let k = pan_key(preset);
    assert(key_sequence(preset, Action::Pan(true)).drop_first() =~= Seq::<KeyEvent>::empty());
    assert(key_sequence(preset, Action::Pan(false)).drop_first() =~= Seq::<KeyEvent>::empty());
    assert(Set::<u16>::empty().insert(k) =~= set![k]);
    assert(set![k].remove(k) =~= Set::<u16>::empty());
}

/// Every key that a supported action emits is one the virtual keyboard
/// announced when it was created; outside Krita, it is one of the keys that
/// the Rnote and LibreSprite shortcuts share.
pub proof fn lemma_shortcuts_use_registered_keys(preset: Preset, action: Action)
    requires
        supports(preset, action),
    ensures
        forall|i: int| 0 <= i < key_sequence(preset, action).len() ==>
            registered_keys().contains(#[trigger] key_sequence(preset, action)[i].key),
        preset != Preset::Krita ==> forall|i: int| 0 <= i < key_sequence(preset, action).len() ==>
            common_keys().contains(#[trigger] key_sequence(preset, action)[i].key),
{
    let c = common_keys();
    let r = registered_keys();
    assert(c[0] == KEY_1 && c[1] == KEY_4 && c[2] == KEY_5 && c[3] == KEY_Y && c[4] == KEY_Z);
    assert(c[5] == KEY_KPMINUS && c[6] == KEY_KPPLUS && c[7] == KEY_DELETE && c[8] == KEY_LEFTALT);
    assert(c[9] == KEY_LEFTCTRL && c[10] == KEY_LEFTSHIFT && c[11] == KEY_B && c[12] == KEY_M);
    assert(c[13] == KEY_E);
    assert forall|k: u16| c.contains(k) implies r.contains(k) by {
        let j = choose|j: int| 0 <= j < c.len() && c[j] == k;
        assert(r[j] == k);
    }
    assert(r[14] == KEY_R && r[15] == KEY_SPACE && r[16] == KEY_F13);
    let none: Seq<u16> = seq![];
    let ctrl: Seq<u16> = seq![KEY_LEFTCTRL];
    let ctrl_shift: Seq<u16> = seq![KEY_LEFTCTRL, KEY_LEFTSHIFT];
    assert forall|k: u16| ctrl.contains(k) implies c.contains(k) by {
        let j = choose|j: int| 0 <= j < ctrl.len() && ctrl[j] == k;
    }
    assert forall|k: u16| ctrl_shift.contains(k) implies c.contains(k) by {
        let j = choose|j: int| 0 <= j < ctrl_shift.len() && ctrl_shift[j] == k;
    }
    assert forall|k: u16| !none.contains(k) by {}
    let s = key_sequence(preset, action);
    match action {
        Action::Pan(on) => {
            assert(s[0].key == pan_key(preset));
        },
        Action::Delete => lemma_hotkey_keys(none, KEY_DELETE),
        Action::Undo => lemma_hotkey_keys(ctrl, KEY_Z),
        Action::Redo => {
            lemma_hotkey_keys(ctrl, KEY_Y);
            lemma_hotkey_keys(ctrl_shift, KEY_Z);
        },
        Action::ZoomIn => lemma_hotkey_keys(ctrl, KEY_KPPLUS),
        Action::ZoomOut => lemma_hotkey_keys(ctrl, KEY_KPMINUS),
        Action::SetMode(_) => {
            lemma_hotkey_keys(ctrl, KEY_1);
            lemma_hotkey_keys(ctrl, KEY_4);
            lemma_hotkey_keys(ctrl, KEY_5);
            lemma_hotkey_keys(ctrl, KEY_R);
            lemma_hotkey_keys(none, KEY_B);
            lemma_hotkey_keys(none, KEY_E);
            lemma_hotkey_keys(none, KEY_M);
        },
        Action::KritaToggleEraser => lemma_hotkey_keys(none, KEY_E),
        Action::Custom1 => lemma_hotkey_keys(none, KEY_F13),
        Action::SwitchMonitor => {},
    }
}

/// The shortcuts that every application shares: undo is Ctrl+Z, zoom in is
/// Ctrl + keypad plus, zoom out is Ctrl + keypad minus, delete is the Delete
/// key, and panning holds or lets go of the preset's pan key. Redo is a
/// different shortcut from undo, also held under Ctrl.
pub proof fn lemma_shared_shortcuts(preset: Preset, on: bool)
    ensures
        key_sequence(preset, Action::Undo) == hotkey(seq![KEY_LEFTCTRL], KEY_Z),
        key_sequence(preset, Action::ZoomIn) == hotkey(seq![KEY_LEFTCTRL], KEY_KPPLUS),
        key_sequence(preset, Action::ZoomOut) == hotkey(seq![KEY_LEFTCTRL], KEY_KPMINUS),
        key_sequence(preset, Action::Delete) == seq![press(KEY_DELETE), release(KEY_DELETE)],
        key_sequence(preset, Action::Pan(on)) == seq![KeyEvent { key: pan_key(preset), pressed: on }],
        key_sequence(preset, Action::ZoomIn) != key_sequence(preset, Action::ZoomOut),
        key_sequence(preset, Action::Redo) != key_sequence(preset, Action::Undo),
        key_sequence(preset, Action::Redo)[0] == press(KEY_LEFTCTRL),
{
    let undo = key_sequence(preset, Action::Undo);
    let redo = key_sequence(preset, Action::Redo);
    assert(key_sequence(preset, Action::Delete) =~= seq![press(KEY_DELETE), release(KEY_DELETE)]);
    assert(key_sequence(preset, Action::ZoomIn)[1] != key_sequence(preset, Action::ZoomOut)[1]);
    assert(undo.len() == 4);
    if preset == Preset::LibreSprite {
        assert(redo[1] != undo[1]);
    } else {
        assert(redo.len() == 6);
    }
}

/// Outside Krita, the three tool modes have three different shortcuts, so
/// the application is always told which mode was chosen.
pub proof fn lemma_mode_shortcuts_distinct(preset: Preset, m1: Mode, m2: Mode)
    requires
        preset != Preset::Krita,
        m1 != m2,
    ensures
        key_sequence(preset, Action::SetMode(m1)) != key_sequence(preset, Action::SetMode(m2)),
{
    let a = key_sequence(preset, Action::SetMode(m1));
    let b = key_sequence(preset, Action::SetMode(m2));
    if preset == Preset::Rnote {
        assert(a[1] != b[1]);
    } else {
        assert(a[0] != b[0]);
    }
}

/// Each application's own shortcuts: redo is Ctrl+Y in LibreSprite and
/// Ctrl+Shift+Z elsewhere; the tools are Ctrl+1, Ctrl+4, Ctrl+5 in Rnote and
/// B, E, M in LibreSprite; Krita selects the brush tool with B for brush and
/// eraser alike, the rectangle selection with Ctrl+R, toggles its eraser with
/// E, has its custom shortcut on F13; panning holds Space in Krita and Alt
/// elsewhere.
pub proof fn lemma_application_shortcuts(preset: Preset, mode: Mode)
    ensures
        key_sequence(preset, Action::Redo) == (if preset == Preset::LibreSprite {
            hotkey(seq![KEY_LEFTCTRL], KEY_Y)
        } else {
            hotkey(seq![KEY_LEFTCTRL, KEY_LEFTSHIFT], KEY_Z)
        }),
        preset == Preset::Rnote ==> key_sequence(preset, Action::SetMode(mode)) == hotkey(
            seq![KEY_LEFTCTRL],
            if mode == Mode::Brush {
                KEY_1
            } else if mode == Mode::Eraser {
                KEY_4
            } else {
                KEY_5
            },
        ),
        preset == Preset::LibreSprite ==> key_sequence(preset, Action::SetMode(mode)) == hotkey(
            seq![],
            if mode == Mode::Brush {
                KEY_B
            } else if mode == Mode::Eraser {
                KEY_E
            } else {
                KEY_M
            },
        ),
        preset == Preset::Krita ==> key_sequence(preset, Action::SetMode(mode)) == (if mode
            == Mode::Select {
            hotkey(seq![KEY_LEFTCTRL], KEY_R)
        } else {
            hotkey(seq![], KEY_B)
        }),
        preset == Preset::Krita ==> key_sequence(preset, Action::KritaToggleEraser) == hotkey(
            seq![],
            KEY_E,
        ),
        preset == Preset::Krita ==> key_sequence(preset, Action::Custom1) == hotkey(seq![], KEY_F13),
        pan_key(preset) == (if preset == Preset::Krita { KEY_SPACE } else { KEY_LEFTALT }),
{
}

} // verus!
