//! Button state tracking and the decisions the tablet's buttons trigger.
//!
//! A [`Button`] turns the raw key reports of one physical button (release,
//! press, auto-repeat) into clicks and holds. The [`Controller`] keeps one
//! button per tablet key plus the drawing state (tool mode, panning, Krita's
//! eraser toggle) and decides, for every report, which [`Action`] the
//! virtual keyboard has to carry out.

use vstd::prelude::*;
use crate::executor::{
    Action, Executor, KeyEvent, Mode, Preset, key_sequence, lemma_pan_holds_then_releases,
    lemma_shortcut_releases_every_key, pan_key, replay, supports,
};
use crate::keys::{
    KEY_KPMINUS, KEY_KPPLUS, KEY_LEFTBRACE, KEY_RIGHTBRACE, KEY_SPACE, KEY_TAB, KEY_Y, KEY_Z,
};

verus! {

/// The physical buttons of the tablet.
#[derive(Clone, Copy, PartialEq, Eq, Structural, Debug)]
pub enum ButtonId {
    Btn1,
    Btn2,
    Btn3,
    Btn4,
    Btn5,
    Btn6,
    PenPlus,
    PenMinus,
}

/// What a key report means for a button.
#[derive(Clone, Copy, PartialEq, Eq, Structural, Debug)]
pub enum ButtonEvent {
    Click,
    HoldStart,
    HoldEnd,
}

/// The state of one physical button.
#[derive(Clone, Copy)]
pub struct Button {
    pressed: bool,
    holded: bool,
}

/// The observable state of a button.
pub struct ButtonView {
    pub pressed: bool,
    pub held: bool,
}

impl View for Button {
    type V = ButtonView;

    closed spec fn view(&self) -> ButtonView {
        ButtonView { pressed: self.pressed, held: self.holded }
    }
}

/// A button that is up.
pub open spec fn idle_button() -> ButtonView {
    ButtonView { pressed: false, held: false }
}

/// The state of a button after a report with `status` (0 release, 1 press,
/// 2 auto-repeat).
pub open spec fn button_after(status: i32) -> ButtonView {
    ButtonView { pressed: status != 0, held: status == 2 }
}

/// The event a report with `status` means for a button in state `b`: a press
/// is a click; the first auto-repeat starts a hold; a release ends a hold.
pub open spec fn button_event(b: ButtonView, status: i32) -> Option<ButtonEvent> {
    if status == 0 {
        if b.held {
            Some(ButtonEvent::HoldEnd)
        } else {
            None
        }
    } else if status == 1 {
        Some(ButtonEvent::Click)
    } else if !b.held {
        Some(ButtonEvent::HoldStart)
    } else {
        None
    }
}

impl Default for Button {
    fn default() -> (button: Button)
        ensures
            button@ == idle_button(),
    {
        Button { pressed: false, holded: false }
    }
}

impl Button {
    /// Records a key report (0 release, 1 press, 2 auto-repeat) and returns
    /// the event it means, if any.
    pub fn state(&mut self, status: i32) -> (event: Option<ButtonEvent>)
        requires
            0 <= status <= 2,
        ensures
            final(self)@ == button_after(status),
            event == button_event(old(self)@, status),
    {
        match status {
            0 => {
                let t = self.holded;
                self.pressed = false;
                self.holded = false;
                if t {
                    Some(ButtonEvent::HoldEnd)
                } else {
                    None
                }
            },
            1 => {
                self.pressed = true;
                self.holded = false;
                Some(ButtonEvent::Click)
            },
            _ => {
                let t = !self.holded;
                self.pressed = true;
                self.holded = true;
                if t {
                    Some(ButtonEvent::HoldStart)
                } else {
                    None
                }
            },
        }
    }
}

/// The observable state of a controller.
pub struct ControllerView {
    pub mode: Mode,
    pub btn_1: ButtonView,
    pub btn_2: ButtonView,
    pub btn_3: ButtonView,
    pub btn_4: ButtonView,
    pub btn_5: ButtonView,
    pub btn_6: ButtonView,
    pub pen_plus: ButtonView,
    pub pen_minus: ButtonView,
    pub preset: Preset,
    pub pan: bool,
    pub pan_held: bool,
    pub krita_eraser: bool,
}

impl ControllerView {
    pub open spec fn button(self, id: ButtonId) -> ButtonView {
        match id {
            ButtonId::Btn1 => self.btn_1,
            ButtonId::Btn2 => self.btn_2,
            ButtonId::Btn3 => self.btn_3,
            ButtonId::Btn4 => self.btn_4,
            ButtonId::Btn5 => self.btn_5,
            ButtonId::Btn6 => self.btn_6,
            ButtonId::PenPlus => self.pen_plus,
            ButtonId::PenMinus => self.pen_minus,
        }
    }

    pub open spec fn with_button(self, id: ButtonId, b: ButtonView) -> ControllerView {
        ControllerView {
            mode: self.mode,
            btn_1: if id == ButtonId::Btn1 { b } else { self.btn_1 },
            btn_2: if id == ButtonId::Btn2 { b } else { self.btn_2 },
            btn_3: if id == ButtonId::Btn3 { b } else { self.btn_3 },
            btn_4: if id == ButtonId::Btn4 { b } else { self.btn_4 },
            btn_5: if id == ButtonId::Btn5 { b } else { self.btn_5 },
            btn_6: if id == ButtonId::Btn6 { b } else { self.btn_6 },
            pen_plus: if id == ButtonId::PenPlus { b } else { self.pen_plus },
            pen_minus: if id == ButtonId::PenMinus { b } else { self.pen_minus },
            preset: self.preset,
            pan: self.pan,
            pan_held: self.pan_held,
            krita_eraser: self.krita_eraser,
        }
    }
}

/// A fresh controller: brush mode, no button down, not panning, Krita's
/// eraser toggle off, Rnote shortcuts.
pub open spec fn initial_controller() -> ControllerView {
    ControllerView {
        mode: Mode::Brush,
        btn_1: idle_button(),
        btn_2: idle_button(),
        btn_3: idle_button(),
        btn_4: idle_button(),
        btn_5: idle_button(),
        btn_6: idle_button(),
        pen_plus: idle_button(),
        pen_minus: idle_button(),
        preset: Preset::Rnote,
        pan: false,
        pan_held: false,
        krita_eraser: false,
    }
}

/// Switching to `mode`: nothing if it is already the mode; in Krita, moving
/// between brush and eraser flips Krita's eraser toggle when it disagrees
/// with the new mode; otherwise the application is told the new mode.
pub open spec fn mode_switch(c: ControllerView, mode: Mode) -> (ControllerView, Option<Action>) {
    if mode == c.mode {
        (c, None)
    } else if c.preset == Preset::Krita && ((mode == Mode::Brush && c.krita_eraser) || (mode
        == Mode::Eraser && !c.krita_eraser)) {
        (ControllerView { mode, krita_eraser: !c.krita_eraser, ..c }, Some(Action::KritaToggleEraser))
    } else {
        (ControllerView { mode, ..c }, Some(Action::SetMode(mode)))
    }
}

/// The mode that the brush/eraser buttons switch to, or `None` in select
/// mode, where they delete the selection instead.
pub open spec fn toggled_mode(mode: Mode) -> Option<Mode> {
    match mode {
        Mode::Brush => Some(Mode::Eraser),
        Mode::Eraser => Some(Mode::Brush),
        Mode::Select => None,
    }
}

/// What the controller does on `event` of button `id`:
/// - Btn1 click: undo; Btn2 click: redo; Btn5/Btn6 click: zoom in/out.
/// - Btn3 click toggles panning; a hold started while panning makes the pan
///   temporary, so that releasing the button stops it.
/// - Btn4 or pen-plus click: brush and eraser swap, select mode deletes.
/// - Pen-minus click: Krita's custom shortcut in Krita; elsewhere into select
///   mode, or out of it back to the brush.
pub open spec fn reaction(c: ControllerView, id: ButtonId, event: ButtonEvent) -> (
    ControllerView,
    Option<Action>,
) {
    match event {
        ButtonEvent::Click => match id {
            ButtonId::Btn1 => (c, Some(Action::Undo)),
            ButtonId::Btn2 => (c, Some(Action::Redo)),
            ButtonId::Btn3 => (ControllerView { pan: !c.pan, ..c }, Some(Action::Pan(!c.pan))),
            ButtonId::Btn4 | ButtonId::PenPlus => match toggled_mode(c.mode) {
                Some(m) => mode_switch(c, m),
                None => (c, Some(Action::Delete)),
            },
            ButtonId::Btn5 => (c, Some(Action::ZoomIn)),
            ButtonId::Btn6 => (c, Some(Action::ZoomOut)),
            ButtonId::PenMinus => if c.preset == Preset::Krita {
                (c, Some(Action::Custom1))
            } else if c.mode != Mode::Select {
                mode_switch(c, Mode::Select)
            } else {
                mode_switch(c, Mode::Brush)
            },
        },
        ButtonEvent::HoldStart => if id == ButtonId::Btn3 && c.pan {
            (ControllerView { pan_held: true, ..c }, None)
        } else {
            (c, None)
        },
        ButtonEvent::HoldEnd => if id == ButtonId::Btn3 && c.pan_held {
            (ControllerView { pan_held: false, pan: false, ..c }, Some(Action::Pan(false)))
        } else {
            (c, None)
        },
    }
}

/// A key report with `status` for button `id`: the button records it, and
/// the event it means, if any, is reacted to.
pub open spec fn controller_step(c: ControllerView, id: ButtonId, status: i32) -> (
    ControllerView,
    Option<Action>,
) {
    let c1 = c.with_button(id, button_after(status));
    match button_event(c.button(id), status) {
        Some(event) => reaction(c1, id, event),
        None => (c1, None),
    }
}

/// The key events that carry out the action a key report leads to; none
/// when it leads to none.
pub open spec fn report_keys(c: ControllerView, id: ButtonId, status: i32) -> Seq<KeyEvent> {
    match controller_step(c, id, status).1 {
        Some(action) => key_sequence(c.preset, action),
        None => seq![],
    }
}

/// The state after a sequence of key reports, and the action each led to.
pub open spec fn run_reports(c: ControllerView, reports: Seq<(ButtonId, i32)>) -> (
    ControllerView,
    Seq<Option<Action>>,
)
    decreases reports.len(),
{
    if reports.len() == 0 {
        (c, seq![])
    } else {
        let (c1, action) = controller_step(c, reports[0].0, reports[0].1);
        let (c2, rest) = run_reports(c1, reports.drop_first());
        (c2, seq![action] + rest)
    }
}

/// A view that differs from `c` only in button `id`, which is `b`, is
/// `c.with_button(id, b)`.
#[verifier::spinoff_prover]
proof fn lemma_with_button_agree(a: ControllerView, c: ControllerView, id: ButtonId, b: ButtonView)
    requires
        a.button(id) == b,
        forall|other: ButtonId| other != id ==> a.button(other) == c.button(other),
        a.mode == c.mode,
        a.preset == c.preset,
        a.pan == c.pan,
        a.pan_held == c.pan_held,
        a.krita_eraser == c.krita_eraser,
    ensures
        a == c.with_button(id, b),
{
    assert(a.button(ButtonId::Btn1) == c.with_button(id, b).button(ButtonId::Btn1));
    assert(a.button(ButtonId::Btn2) == c.with_button(id, b).button(ButtonId::Btn2));
    assert(a.button(ButtonId::Btn3) == c.with_button(id, b).button(ButtonId::Btn3));
    assert(a.button(ButtonId::Btn4) == c.with_button(id, b).button(ButtonId::Btn4));
    assert(a.button(ButtonId::Btn5) == c.with_button(id, b).button(ButtonId::Btn5));
    assert(a.button(ButtonId::Btn6) == c.with_button(id, b).button(ButtonId::Btn6));
    assert(a.button(ButtonId::PenPlus) == c.with_button(id, b).button(ButtonId::PenPlus));
    assert(a.button(ButtonId::PenMinus) == c.with_button(id, b).button(ButtonId::PenMinus));
}

/// Remaps the tablet's buttons to actions of the selected application.
pub struct Controller {
    mode: Mode,
    btn_1: Button,
    btn_2: Button,
    btn_3: Button,
    btn_4: Button,
    btn_5: Button,
    btn_6: Button,
    pen_plus: Button,
    pen_minus: Button,
    pub executor: Executor,
    pan: bool,
    pan_holded: bool,
    krita_eraser_enabled: bool,
}

impl View for Controller {
    type V = ControllerView;

    closed spec fn view(&self) -> ControllerView {
        ControllerView {
            mode: self.mode,
            btn_1: self.btn_1@,
            btn_2: self.btn_2@,
            btn_3: self.btn_3@,
            btn_4: self.btn_4@,
            btn_5: self.btn_5@,
            btn_6: self.btn_6@,
            pen_plus: self.pen_plus@,
            pen_minus: self.pen_minus@,
            preset: self.executor.preset,
            pan: self.pan,
            pan_held: self.pan_holded,
            krita_eraser: self.krita_eraser_enabled,
        }
    }
}

impl Controller {
    pub fn new() -> (controller: Controller)
        ensures
            controller@ == initial_controller(),
    {
        Controller {
            mode: Mode::Brush,
            btn_1: Button::default(),
            btn_2: Button::default(),
            btn_3: Button::default(),
            btn_4: Button::default(),
            btn_5: Button::default(),
            btn_6: Button::default(),
            pen_plus: Button::default(),
            pen_minus: Button::default(),
            executor: Executor::new(),
            pan: false,
            pan_holded: false,
            krita_eraser_enabled: false,
        }
    }

    /// Switches the pen to `mode`, returning the action that tells the
    /// application, if one is needed.
    pub fn set_mode(&mut self, mode: Mode) -> (action: Option<Action>)
        ensures
            (final(self)@, action) == mode_switch(old(self)@, mode),
    {
        let ghost c = old(self)@;
        if mode == self.mode {
            assert(mode_switch(c, mode) == (c, None::<Action>));
            return None;
        }
        let toggle = match self.executor.preset {
            Preset::Krita => match mode {
                Mode::Brush => self.krita_eraser_enabled,
                Mode::Eraser => !self.krita_eraser_enabled,
                Mode::Select => false,
            },
            _ => false,
        };
        self.mode = mode;
        if toggle {
            self.krita_eraser_enabled = !self.krita_eraser_enabled;
            assert(self@ == ControllerView { mode, krita_eraser: !c.krita_eraser, ..c });
            Some(Action::KritaToggleEraser)
        } else {
            assert(self@ == ControllerView { mode, ..c });
            Some(Action::SetMode(mode))
        }
    }

    /// The brush/eraser buttons: swap brush and eraser, delete in select mode.
    fn toggle_mode(&mut self) -> (action: Option<Action>)
        ensures
            (final(self)@, action) == (match toggled_mode(old(self)@.mode) {
                Some(m) => mode_switch(old(self)@, m),
                None => (old(self)@, Some(Action::Delete)),
            }),
    {
        match self.mode {
            Mode::Brush => self.set_mode(Mode::Eraser),
            Mode::Eraser => self.set_mode(Mode::Brush),
            Mode::Select => Some(Action::Delete),
        }
    }

    /// Reacts to `event` of button `btn_id`.
    fn react(&mut self, btn_id: ButtonId, event: ButtonEvent) -> (action: Option<Action>)
        ensures
            (final(self)@, action) == reaction(old(self)@, btn_id, event),
    {
        match event {
            ButtonEvent::Click => match btn_id {
                ButtonId::Btn1 => Some(Action::Undo),
                ButtonId::Btn2 => Some(Action::Redo),
                ButtonId::Btn3 => {
                    self.pan = !self.pan;
                    Some(Action::Pan(self.pan))
                },
                ButtonId::Btn4 => self.toggle_mode(),
                ButtonId::Btn5 => Some(Action::ZoomIn),
                ButtonId::Btn6 => Some(Action::ZoomOut),
                ButtonId::PenPlus => self.toggle_mode(),
                ButtonId::PenMinus => {
                    if self.executor.preset == Preset::Krita {
                        Some(Action::Custom1)
                    } else {
                        let target = if self.mode != Mode::Select {
                            Mode::Select
                        } else {
                            Mode::Brush
                        };
                        self.set_mode(target)
                    }
                },
            },
            ButtonEvent::HoldStart => {
                if btn_id == ButtonId::Btn3 && self.pan {
                    self.pan_holded = true;
                }
                None
            },
            ButtonEvent::HoldEnd => {
                if btn_id == ButtonId::Btn3 && self.pan_holded {
                    self.pan_holded = false;
                    self.pan = false;
                    Some(Action::Pan(false))
                } else {
                    None
                }
            },
        }
    }

    /// The state of button `btn_id`.
    fn button(&self, btn_id: ButtonId) -> (button: Button)
        ensures
            button@ == self@.button(btn_id),
    {
        match btn_id {
            ButtonId::Btn1 => self.btn_1,
            ButtonId::Btn2 => self.btn_2,
            ButtonId::Btn3 => self.btn_3,
            ButtonId::Btn4 => self.btn_4,
            ButtonId::Btn5 => self.btn_5,
            ButtonId::Btn6 => self.btn_6,
            ButtonId::PenPlus => self.pen_plus,
            ButtonId::PenMinus => self.pen_minus,
        }
    }

    /// Replaces the state of button `btn_id`.
    fn set_button(&mut self, btn_id: ButtonId, button: Button)
        ensures
            final(self)@.button(btn_id) == button@,
            forall|other: ButtonId| other != btn_id ==> final(self)@.button(other) == old(self)@.button(other),
            final(self)@.mode == old(self)@.mode,
            final(self)@.preset == old(self)@.preset,
            final(self)@.pan == old(self)@.pan,
            final(self)@.pan_held == old(self)@.pan_held,
            final(self)@.krita_eraser == old(self)@.krita_eraser,
    {
        match btn_id {
            ButtonId::Btn1 => self.btn_1 = button,
            ButtonId::Btn2 => self.btn_2 = button,
            ButtonId::Btn3 => self.btn_3 = button,
            ButtonId::Btn4 => self.btn_4 = button,
            ButtonId::Btn5 => self.btn_5 = button,
            ButtonId::Btn6 => self.btn_6 = button,
            ButtonId::PenPlus => self.pen_plus = button,
            ButtonId::PenMinus => self.pen_minus = button,
        }
    }

    /// Records a key report of button `btn_id`.
    fn record(&mut self, btn_id: ButtonId, state: i32) -> (event: Option<ButtonEvent>)
        requires
            0 <= state <= 2,
        ensures
            final(self)@ == old(self)@.with_button(btn_id, button_after(state)),
            event == button_event(old(self)@.button(btn_id), state),
    {
        let ghost c = old(self)@;
        let mut button = self.button(btn_id);
        let event = button.state(state);
        self.set_button(btn_id, button);
        proof {
            lemma_with_button_agree(self@, c, btn_id, button_after(state));
        }
        event
    }

    /// Handles a key report (0 release, 1 press, 2 auto-repeat) of button
    /// `btn_id`, returning the action the application has to carry out.
    pub fn handle_btn_event(&mut self, btn_id: ButtonId, state: i32) -> (action: Option<Action>)
        requires
            0 <= state <= 2,
        ensures
            (final(self)@, action) == controller_step(old(self)@, btn_id, state),
    {
        let btn_event = self.record(btn_id, state);
        match btn_event {
            Some(event) => self.react(btn_id, event),
            None => None,
        }
    }

    /// Handles a key report of button `btn_id` and spells out the resulting
    /// action, if any, as the key events the virtual keyboard has to emit.
    pub fn handle_report(&mut self, btn_id: ButtonId, state: i32) -> (events: Vec<KeyEvent>)
        requires
            0 <= state <= 2,
        ensures
            final(self)@ == controller_step(old(self)@, btn_id, state).0,
            events@ == report_keys(old(self)@, btn_id, state),
    {
        let ghost c = old(self)@;
        proof {
            lemma_actions_supported(c, btn_id, state);
        }
        match self.handle_btn_event(btn_id, state) {
            Some(action) => self.executor.execute(action),
            None => Vec::new(),
        }
    }

    /// The application whose shortcuts are used.
    pub fn preset(&self) -> (preset: Preset)
        ensures
            preset == self@.preset,
    {
        self.executor.preset
    }

    /// Switches to the shortcuts of `preset`.
    pub fn set_preset(&mut self, preset: Preset)
        ensures
            final(self)@ == (ControllerView { preset, ..old(self)@ }),
    {
        self.executor.set_preset(preset);
    }
}

/// A first auto-repeat starts a hold; further repeats of the same hold
/// report nothing.
pub proof fn lemma_hold_starts_once(b: ButtonView)
    ensures
        !b.held ==> button_event(b, 2) == Some(ButtonEvent::HoldStart),
        button_event(button_after(2), 2) == None::<ButtonEvent>,
{
}

/// Releasing a button ends its hold if it was held, reports nothing
/// otherwise, and leaves the button up.
pub proof fn lemma_release_ends_hold(b: ButtonView)
    ensures
        button_event(b, 0) == (if b.held { Some(ButtonEvent::HoldEnd) } else { None }),
        button_after(0) == idle_button(),
{
}

/// The controller only ever asks for actions that the current application
/// has a shortcut for, and a key report never changes the application.
pub proof fn lemma_actions_supported(c: ControllerView, id: ButtonId, status: i32)
    requires
        0 <= status <= 2,
    ensures
        controller_step(c, id, status).0.preset == c.preset,
        controller_step(c, id, status).1 matches Some(a) ==> supports(c.preset, a),
{
}

/// Switching modes only asks for actions that the current application has a
/// shortcut for.
pub proof fn lemma_mode_switch_supported(c: ControllerView, mode: Mode)
    ensures
        mode_switch(c, mode).0.preset == c.preset,
        mode_switch(c, mode).0.mode == mode,
        mode_switch(c, mode).1 matches Some(a) ==> supports(c.preset, a),
        mode_switch(c, mode).1 is None <==> mode == c.mode,
{
}

/// In Krita, the eraser toggle is on exactly while the pen is in eraser
/// mode, however the buttons are used.
pub proof fn lemma_krita_eraser_tracks_mode(c: ControllerView, id: ButtonId, status: i32)
    requires
        0 <= status <= 2,
        c.preset == Preset::Krita,
        c.krita_eraser == (c.mode == Mode::Eraser),
    ensures
        controller_step(c, id, status).0.krita_eraser == (controller_step(c, id, status).0.mode
            == Mode::Eraser),
{
}

/// The relation between panning and the buttons that every sequence of key
/// reports from a real keyboard keeps: a temporary pan is a pan whose button
/// is held, and a held button is pressed.
pub open spec fn pan_consistent(c: ControllerView) -> bool {
    &&& c.pan_held ==> c.pan && c.btn_3.held
    &&& forall|id: ButtonId| #[trigger] c.button(id).held ==> c.button(id).pressed
}

/// A key report as a real keyboard sends it: a press only comes while the
/// key is up.
pub open spec fn report_follows(c: ControllerView, id: ButtonId, status: i32) -> bool {
    &&& 0 <= status <= 2
    &&& status == 1 ==> !c.button(id).pressed
}

/// The keys that the virtual keyboard holds between reports: the pan key
/// while panning, nothing otherwise.
pub open spec fn keys_held(c: ControllerView) -> Set<u16> {
    if c.pan {
        set![pan_key(c.preset)]
    } else {
        Set::empty()
    }
}

/// A fresh controller is consistent and holds no key.
pub proof fn lemma_initial_consistent()
    ensures
        pan_consistent(initial_controller()),
        keys_held(initial_controller()) == Set::<u16>::empty(),
{
}

/// Every key report of a real keyboard keeps panning consistent with the
/// buttons.
pub proof fn lemma_pan_consistent_step(c: ControllerView, id: ButtonId, status: i32)
    requires
        pan_consistent(c),
        report_follows(c, id, status),
    ensures
        pan_consistent(controller_step(c, id, status).0),
{
    let c1 = c.with_button(id, button_after(status));
    let c2 = controller_step(c, id, status).0;
    lemma_step_keeps_buttons(c, id, status);
    assert forall|j: ButtonId| #[trigger] c2.button(j).held implies c2.button(j).pressed by {
        lemma_with_button_reads(c, id, button_after(status), j);
    }
    lemma_with_button_reads(c, id, button_after(status), ButtonId::Btn3);
}

/// Reading a button of `c.with_button(id, b)`.
proof fn lemma_with_button_reads(c: ControllerView, id: ButtonId, b: ButtonView, j: ButtonId)
    ensures
        c.with_button(id, b).button(j) == (if j == id { b } else { c.button(j) }),
        c.with_button(id, b).mode == c.mode,
        c.with_button(id, b).preset == c.preset,
        c.with_button(id, b).pan == c.pan,
        c.with_button(id, b).pan_held == c.pan_held,
        c.with_button(id, b).krita_eraser == c.krita_eraser,
{
}

/// Reacting to a button event leaves the buttons alone.
#[verifier::spinoff_prover]
proof fn lemma_reaction_keeps_buttons(c: ControllerView, id: ButtonId, event: ButtonEvent)
    ensures
        forall|j: ButtonId| #[trigger] reaction(c, id, event).0.button(j) == c.button(j),
{
}

/// A key report changes only the reported button among the buttons.
proof fn lemma_step_keeps_buttons(c: ControllerView, id: ButtonId, status: i32)
    ensures
        forall|j: ButtonId| #[trigger] controller_step(c, id, status).0.button(j)
            == c.with_button(id, button_after(status)).button(j),
{
    let c1 = c.with_button(id, button_after(status));
    if let Some(event) = button_event(c.button(id), status) {
        lemma_reaction_keeps_buttons(c1, id, event);
    }
}

/// Playing the shortcut of each action the controller asks for keeps the
/// virtual keyboard in step with panning: the pan key is held exactly while
/// the controller pans, and no other key stays down.
pub proof fn lemma_keyboard_tracks_panning(c: ControllerView, id: ButtonId, status: i32)
    requires
        pan_consistent(c),
        report_follows(c, id, status),
    ensures
        ({
            let (c2, action) = controller_step(c, id, status);
            match action {
                Some(a) => replay(keys_held(c), key_sequence(c.preset, a)) == Some(keys_held(c2)),
                None => keys_held(c2) == keys_held(c),
            }
        }),
{
    let (c2, action) = controller_step(c, id, status);
    lemma_actions_supported(c, id, status);
    lemma_pan_holds_then_releases(c.preset);
    if let Some(a) = action {
        if !(a is Pan) {
            lemma_shortcut_releases_every_key(c.preset, a, keys_held(c));
        }
    }
}

/// Between the press and the release of a hold of Btn3: the panning state
/// after the press, whether Btn3 is held, and whether the hold made the pan
/// temporary.
pub open spec fn btn3_hold_state(c: ControllerView, panning: bool) -> bool {
    &&& c.pan == panning
    &&& c.btn_3.pressed
    &&& (!c.btn_3.held && !c.pan_held) || (c.btn_3.held && c.pan_held == c.pan)
}

/// Reports allowed while Btn3 is kept down: any report of the other buttons,
/// auto-repeats of Btn3.
pub open spec fn while_btn3_down(reports: Seq<(ButtonId, i32)>) -> bool {
    forall|i: int|
        0 <= i < reports.len() ==> 0 <= (#[trigger] reports[i]).1 <= 2 && (reports[i].0
            == ButtonId::Btn3 ==> reports[i].1 == 2)
}

proof fn lemma_btn3_down_step(c: ControllerView, id: ButtonId, status: i32, panning: bool)
    requires
        btn3_hold_state(c, panning),
        0 <= status <= 2,
        id == ButtonId::Btn3 ==> status == 2,
    ensures
        btn3_hold_state(controller_step(c, id, status).0, panning),
        !(controller_step(c, id, status).1 matches Some(Action::Pan(_))),
        id == ButtonId::Btn3 || c.btn_3.held ==> controller_step(c, id, status).0.btn_3.held,
{
    let c1 = c.with_button(id, button_after(status));
    lemma_with_button_reads(c, id, button_after(status), ButtonId::Btn3);
    lemma_step_keeps_buttons(c, id, status);
    assert(controller_step(c, id, status).0.button(ButtonId::Btn3) == c1.button(ButtonId::Btn3));
}

proof fn lemma_btn3_down_run(c: ControllerView, reports: Seq<(ButtonId, i32)>, panning: bool)
    requires
        btn3_hold_state(c, panning),
        while_btn3_down(reports),
    ensures
        btn3_hold_state(run_reports(c, reports).0, panning),
        forall|i: int| 0 <= i < run_reports(c, reports).1.len() ==>
            !(#[trigger] run_reports(c, reports).1[i] matches Some(Action::Pan(_))),
        run_reports(c, reports).1.len() == reports.len(),
        c.btn_3.held || (exists|i: int| 0 <= i < reports.len() && (#[trigger] reports[i]).0
            == ButtonId::Btn3) ==> run_reports(c, reports).0.btn_3.held,
    decreases reports.len(),
{
    if reports.len() > 0 {
        let (id, status) = reports[0];
        let tail = reports.drop_first();
        let (c1, action) = controller_step(c, id, status);
        assert(reports[0] == (id, status));
        lemma_btn3_down_step(c, id, status, panning);
        assert(while_btn3_down(tail)) by {
            assert forall|i: int| 0 <= i < tail.len() implies 0 <= (#[trigger] tail[i]).1 <= 2 && (
            tail[i].0 == ButtonId::Btn3 ==> tail[i].1 == 2) by {
                assert(tail[i] == reports[i + 1]);
            }
        }
        lemma_btn3_down_run(c1, tail, panning);
        let (c2, rest) = run_reports(c1, tail);
        assert(run_reports(c, reports).1 =~= seq![action] + rest);
        assert forall|i: int| 0 <= i < run_reports(c, reports).1.len() implies !(
        #[trigger] run_reports(c, reports).1[i] matches Some(Action::Pan(_))) by {
            if i > 0 {
                assert(run_reports(c, reports).1[i] == rest[i - 1]);
            }
        }
        if exists|i: int| 0 <= i < reports.len() && (#[trigger] reports[i]).0 == ButtonId::Btn3 {
            let i = choose|i: int| 0 <= i < reports.len() && (#[trigger] reports[i]).0 == ButtonId::Btn3;
            if i > 0 {
                assert(tail[i - 1] == reports[i]);
            }
        }
    }
}

/// Holding Btn3 never leaves panning on: press it, let it auto-repeat at
/// least once while any other buttons are used, release it, and the
/// controller ends neither panning nor in a temporary pan; the last pan
/// action of the whole hold stops panning.
pub proof fn lemma_btn3_hold_never_leaves_pan_on(c: ControllerView, middle: Seq<(ButtonId, i32)>)
    requires
        !c.pan_held,
        while_btn3_down(middle),
        exists|i: int| 0 <= i < middle.len() && (#[trigger] middle[i]).0 == ButtonId::Btn3,
    ensures
        ({
            let (c1, press) = controller_step(c, ButtonId::Btn3, 1);
            let (c2, during) = run_reports(c1, middle);
            let (c3, release) = controller_step(c2, ButtonId::Btn3, 0);
            &&& !c3.pan && !c3.pan_held
            &&& forall|i: int| 0 <= i < during.len() ==> !(#[trigger] during[i] matches Some(Action::Pan(_)))
            &&& release == Some(Action::Pan(false)) || (release is None && press == Some(Action::Pan(false)))
        }),
{
    let (c1, press) = controller_step(c, ButtonId::Btn3, 1);
    lemma_with_button_reads(c, ButtonId::Btn3, button_after(1), ButtonId::Btn3);
    lemma_step_keeps_buttons(c, ButtonId::Btn3, 1);
    assert(c1.button(ButtonId::Btn3) == button_after(1));
    assert(btn3_hold_state(c1, !c.pan));
    lemma_btn3_down_run(c1, middle, !c.pan);
    let (c2, during) = run_reports(c1, middle);
    lemma_with_button_reads(c2, ButtonId::Btn3, button_after(0), ButtonId::Btn3);
}

/// What pressing each button asks for, in every application and whatever
/// the controller's state: Btn1 undoes, Btn2 redoes, Btn5 zooms in, Btn6
/// zooms out, none of them changes the drawing state; Btn3 toggles panning
/// and says so.
pub proof fn lemma_button_presses(c: ControllerView)
    ensures
        controller_step(c, ButtonId::Btn1, 1).1 == Some(Action::Undo),
        controller_step(c, ButtonId::Btn2, 1).1 == Some(Action::Redo),
        controller_step(c, ButtonId::Btn5, 1).1 == Some(Action::ZoomIn),
        controller_step(c, ButtonId::Btn6, 1).1 == Some(Action::ZoomOut),
        controller_step(c, ButtonId::Btn1, 1).0.mode == c.mode,
        controller_step(c, ButtonId::Btn2, 1).0.pan == c.pan,
        controller_step(c, ButtonId::Btn3, 1).0.pan == !c.pan,
        controller_step(c, ButtonId::Btn3, 1).1 == Some(Action::Pan(!c.pan)),
{
}

/// The brush/eraser buttons (Btn4, pen-plus): in select mode they delete
/// and stay in select mode; otherwise brush becomes eraser and eraser becomes
/// brush, and the application is told: by the new mode, or in Krita by
/// flipping its eraser toggle.
pub proof fn lemma_brush_eraser_buttons(c: ControllerView, id: ButtonId)
    requires
        id == ButtonId::Btn4 || id == ButtonId::PenPlus,
    ensures
        c.mode == Mode::Select ==> controller_step(c, id, 1).1 == Some(Action::Delete)
            && controller_step(c, id, 1).0.mode == Mode::Select,
        c.mode == Mode::Brush ==> controller_step(c, id, 1).0.mode == Mode::Eraser,
        c.mode == Mode::Eraser ==> controller_step(c, id, 1).0.mode == Mode::Brush,
        c.mode != Mode::Select ==> (controller_step(c, id, 1).1 == Some(
            Action::SetMode(controller_step(c, id, 1).0.mode),
        ) || controller_step(c, id, 1).1 == Some(Action::KritaToggleEraser)),
{
}

/// Pen-minus: Krita's custom shortcut in Krita, with no change of mode;
/// elsewhere it enters select mode, or leaves it for the brush, telling the
/// application the new mode.
pub proof fn lemma_pen_minus(c: ControllerView)
    ensures
        c.preset == Preset::Krita ==> controller_step(c, ButtonId::PenMinus, 1).1 == Some(
            Action::Custom1,
        ) && controller_step(c, ButtonId::PenMinus, 1).0.mode == c.mode,
        c.preset != Preset::Krita && c.mode != Mode::Select ==> controller_step(
            c,
            ButtonId::PenMinus,
            1,
        ).1 == Some(Action::SetMode(Mode::Select)) && controller_step(c, ButtonId::PenMinus, 1).0.mode
            == Mode::Select,
        c.preset != Preset::Krita && c.mode == Mode::Select ==> controller_step(
            c,
            ButtonId::PenMinus,
            1,
        ).1 == Some(Action::SetMode(Mode::Brush)) && controller_step(c, ButtonId::PenMinus, 1).0.mode
            == Mode::Brush,
{
}

/// Switching to mode `m` ends in mode `m`, touches nothing but the mode and
/// Krita's eraser toggle, and tells the application about `m` itself:
/// - outside Krita, by `SetMode(m)` whenever the mode changes, and the
///   eraser toggle is left alone;
/// - in Krita, the eraser toggle flips exactly when `KritaToggleEraser` is
///   asked for, and after a switch to brush or eraser it is on exactly for
///   the eraser.
pub proof fn lemma_mode_switch_tells_new_mode(c: ControllerView, m: Mode)
    ensures
        mode_switch(c, m).0 == (ControllerView {
            mode: m,
            krita_eraser: mode_switch(c, m).0.krita_eraser,
            ..c
        }),
        mode_switch(c, m).1 matches Some(Action::SetMode(x)) ==> x == m,
        m != c.mode ==> (mode_switch(c, m).1 == Some(Action::SetMode(m)) || mode_switch(c, m).1
            == Some(Action::KritaToggleEraser)),
        c.preset != Preset::Krita && m != c.mode ==> mode_switch(c, m).1 == Some(Action::SetMode(m)),
        c.preset != Preset::Krita ==> mode_switch(c, m).0.krita_eraser == c.krita_eraser,
        (mode_switch(c, m).1 == Some(Action::KritaToggleEraser)) == (mode_switch(c, m).0.krita_eraser
            != c.krita_eraser),
        c.preset == Preset::Krita && m != Mode::Select && m != c.mode ==> mode_switch(c, m).0.krita_eraser
            == (m == Mode::Eraser),
{
}

/// The key events handed back for a key report of a real keyboard carry out
/// the action it leads to, releases included: an action always has events,
/// and playing them keeps the virtual keyboard holding the pan key exactly
/// while panning and nothing else.
pub proof fn lemma_report_keys_track_panning(c: ControllerView, id: ButtonId, status: i32)
    requires
        pan_consistent(c),
        report_follows(c, id, status),
    ensures
        replay(keys_held(c), report_keys(c, id, status)) == Some(
            keys_held(controller_step(c, id, status).0),
        ),
        controller_step(c, id, status).1 is Some ==> report_keys(c, id, status).len() > 0,
{
    lemma_keyboard_tracks_panning(c, id, status);
    lemma_actions_supported(c, id, status);
    let (c2, action) = controller_step(c, id, status);
    if action is None {
        assert(report_keys(c, id, status) == Seq::<KeyEvent>::empty());
    }
}

/// Releases and auto-repeats of any button but Btn3 ask for nothing and
/// change nothing but that button's state.
pub proof fn lemma_other_releases_and_repeats(c: ControllerView, id: ButtonId, status: i32)
    requires
        id != ButtonId::Btn3,
        status == 0 || status == 2,
    ensures
        controller_step(c, id, status).1 is None,
        controller_step(c, id, status).0 == c.with_button(id, button_after(status)),
{
}

/// The tablet key that each button reports.
pub open spec fn button_for_key(code: u16) -> Option<ButtonId> {
    if code == KEY_KPMINUS {
        Some(ButtonId::Btn1)
    } else if code == KEY_KPPLUS {
        Some(ButtonId::Btn2)
    } else if code == KEY_LEFTBRACE {
        Some(ButtonId::Btn3)
    } else if code == KEY_RIGHTBRACE {
        Some(ButtonId::Btn4)
    } else if code == KEY_TAB {
        Some(ButtonId::Btn5)
    } else if code == KEY_SPACE {
        Some(ButtonId::Btn6)
    } else if code == KEY_Y {
        Some(ButtonId::PenPlus)
    } else if code == KEY_Z {
        Some(ButtonId::PenMinus)
    } else {
        None
    }
}

impl ButtonId {
    /// The button that the tablet reports with key `code`, if any.
    pub fn from_key_code(code: u16) -> (id: Option<ButtonId>)
        ensures
            id == button_for_key(code),
    {
        match code {
            KEY_KPMINUS => Some(ButtonId::Btn1),
            KEY_KPPLUS => Some(ButtonId::Btn2),
            KEY_LEFTBRACE => Some(ButtonId::Btn3),
            KEY_RIGHTBRACE => Some(ButtonId::Btn4),
            KEY_TAB => Some(ButtonId::Btn5),
            KEY_SPACE => Some(ButtonId::Btn6),
            KEY_Y => Some(ButtonId::PenPlus),
            KEY_Z => Some(ButtonId::PenMinus),
            _ => None,
        }
    }
}

/// Different tablet keys are different buttons.
pub proof fn lemma_tablet_keys_distinct(k1: u16, k2: u16)
    requires
        k1 != k2,
        button_for_key(k1) is Some,
    ensures
        button_for_key(k1) != button_for_key(k2),
{
}

} // verus!
