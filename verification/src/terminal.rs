//! What a terminal is asked for when a program starts and ends, and the
//! events that its input is turned into.

use std::ops::{BitAnd, BitOr, Not};
use termina::escape::csi::{Csi, DecPrivateMode, DecPrivateModeCode, Mode};
use vstd::prelude::*;
use vstd::std_specs::ops::{BitAndSpecImpl, BitOrSpecImpl, NotSpecImpl};

use crate::math::{Delta, Position, Size};
use crate::text::{ascii, decimal, is_uppercase, unicode_uppercase};

verus! {

/// How a program wants the terminal set up.
#[derive(Copy, Clone, Debug, PartialEq, Eq, Structural)]
pub struct Config {
    pub hide_cursor: bool,
    pub mouse_capture: bool,
    pub ctrl_c_quits: bool,
    pub use_alt_screen: bool,
    pub hook_panics: bool,
}

impl Default for Config {
    fn default() -> (r: Self)
        ensures
            r == Config::all(),
    {
        Self::new()
    }
}

impl Config {
    /// The setup with every option switched on.
    pub open spec fn all() -> Config {
        Config {
            hide_cursor: true,
            mouse_capture: true,
            ctrl_c_quits: true,
            use_alt_screen: true,
            hook_panics: true,
        }
    }

    /// The setup with every option switched on.
    pub fn new() -> (r: Self)
        ensures
            r == Self::all(),
    {
        Self {
            hide_cursor: true,
            mouse_capture: true,
            ctrl_c_quits: true,
            use_alt_screen: true,
            hook_panics: true,
        }
    }

    pub fn hide_cursor(self, hide_cursor: bool) -> (r: Self)
        ensures
            r == (Config { hide_cursor, ..self }),
    {
        let mut this = self;
        this.hide_cursor = hide_cursor;
        this
    }

    pub fn mouse_capture(self, mouse_capture: bool) -> (r: Self)
        ensures
            r == (Config { mouse_capture, ..self }),
    {
        let mut this = self;
        this.mouse_capture = mouse_capture;
        this
    }

    pub fn ctrl_c_quits(self, ctrl_c_quits: bool) -> (r: Self)
        ensures
            r == (Config { ctrl_c_quits, ..self }),
    {
        let mut this = self;
        this.ctrl_c_quits = ctrl_c_quits;
        this
    }

    pub fn use_alt_screen(self, use_alt_screen: bool) -> (r: Self)
        ensures
            r == (Config { use_alt_screen, ..self }),
    {
        let mut this = self;
        this.use_alt_screen = use_alt_screen;
        this
    }

    pub fn hook_panics(self, hook_panics: bool) -> (r: Self)
        ensures
            r == (Config { hook_panics, ..self }),
    {
        let mut this = self;
        this.hook_panics = hook_panics;
        this
    }

    /// The escape sequences that set the terminal up: the alternate screen
    /// is entered, the cursor hidden and the mouse reported, each where the
    /// setup asks for it.
    pub open spec fn spec_initialize(self) -> Seq<char> {
        (if self.use_alt_screen {
            mode_text(DecMode::AlternateScreen, true)
        } else {
            Seq::empty()
        }) + (if self.hide_cursor {
            mode_text(DecMode::ShowCursor, false)
        } else {
            Seq::empty()
        }) + (if self.mouse_capture {
            mouse_text(true)
        } else {
            Seq::empty()
        })
    }

    /// The escape sequences that undo the setup: the mouse is no longer
    /// reported, the alternate screen left and the cursor shown, each where
    /// the setup had changed it.
    pub open spec fn spec_reset(self) -> Seq<char> {
        (if self.mouse_capture {
            mouse_text(false)
        } else {
            Seq::empty()
        }) + (if self.use_alt_screen {
            mode_text(DecMode::AlternateScreen, false)
        } else {
            Seq::empty()
        }) + (if self.hide_cursor {
            mode_text(DecMode::ShowCursor, true)
        } else {
            Seq::empty()
        })
    }

    /// The escape sequences that set the terminal up.
    pub fn initialize(&self) -> (r: String)
        ensures
            r@ == self.spec_initialize(),
    {
        let mut out: Vec<char> = Vec::new();
        if self.use_alt_screen {
            push_mode(&mut out, DecMode::AlternateScreen, true);
        }
        if self.hide_cursor {
            push_mode(&mut out, DecMode::ShowCursor, false);
        }
        if self.mouse_capture {
            push_mouse(&mut out, true);
        }
        assert(out@ =~= self.spec_initialize());
        crate::text::chars_to_string(&out)
    }

    /// The escape sequences that undo the setup.
    pub fn reset(&self) -> (r: String)
        ensures
            r@ == self.spec_reset(),
    {
        let mut out: Vec<char> = Vec::new();
        if self.mouse_capture {
            push_mouse(&mut out, false);
        }
        if self.use_alt_screen {
            push_mode(&mut out, DecMode::AlternateScreen, false);
        }
        if self.hide_cursor {
            push_mode(&mut out, DecMode::ShowCursor, true);
        }
        assert(out@ =~= self.spec_reset());
        crate::text::chars_to_string(&out)
    }
}

/// The private terminal modes that a setup touches.
#[derive(Copy, Clone, Debug, PartialEq, Eq, Structural)]
pub enum DecMode {
    /// The alternate screen, cleared on entry.
    AlternateScreen,
    /// The cursor is shown.
    ShowCursor,
    /// Mouse presses and releases are reported.
    MouseTracking,
    /// Mouse movement with a button held is reported.
    ButtonEventMouse,
    /// Every mouse movement is reported.
    AnyEventMouse,
    /// Mouse reports in the form of rxvt.
    RxvtMouse,
    /// Mouse reports in the SGR form.
    SgrMouse,
}

impl DecMode {
    /// The number by which a terminal knows the mode.
    pub open spec fn spec_code(self) -> nat {
        match self {
            DecMode::AlternateScreen => 1049,
            DecMode::ShowCursor => 25,
            DecMode::MouseTracking => 1000,
            DecMode::ButtonEventMouse => 1002,
            DecMode::AnyEventMouse => 1003,
            DecMode::RxvtMouse => 1015,
            DecMode::SgrMouse => 1006,
        }
    }

    /// The number by which a terminal knows the mode.
    pub fn code(self) -> (r: u16)
        ensures
            r == self.spec_code(),
    {
        match self {
            DecMode::AlternateScreen => 1049,
            DecMode::ShowCursor => 25,
            DecMode::MouseTracking => 1000,
            DecMode::ButtonEventMouse => 1002,
            DecMode::AnyEventMouse => 1003,
            DecMode::RxvtMouse => 1015,
            DecMode::SgrMouse => 1006,
        }
    }
}

/// The escape sequence that sets or resets a private mode: escape, an
/// opening bracket, a question mark, the mode's number, and `h` to set or
/// `l` to reset.
pub open spec fn mode_text(mode: DecMode, set: bool) -> Seq<char> {
    seq!['\x1b', '[', '?'] + ascii(decimal(mode.spec_code())) + seq![if set { 'h' } else { 'l' }]
}

/// The escape sequences that set or reset the five modes of mouse
/// reporting.
pub open spec fn mouse_text(set: bool) -> Seq<char> {
    mode_text(DecMode::MouseTracking, set) + mode_text(DecMode::ButtonEventMouse, set)
        + mode_text(DecMode::AnyEventMouse, set) + mode_text(DecMode::RxvtMouse, set) + mode_text(
        DecMode::SgrMouse,
        set,
    )
}

/// The text that termina's `Display` gives for `Csi::Mode` with
/// `Mode::SetDecPrivateMode` or `Mode::ResetDecPrivateMode` of a known mode
/// code: the control sequence introducer, `?`, the code's number in decimal,
/// and `h` to set or `l` to reset.
#[verifier::external_body]
fn mode_escape(mode: DecMode, set: bool) -> (r: String)
    ensures
        r@ == mode_text(mode, set),
{
    let code = DecPrivateMode::Code(match mode {
        DecMode::AlternateScreen => DecPrivateModeCode::ClearAndEnableAlternateScreen,
        DecMode::ShowCursor => DecPrivateModeCode::ShowCursor,
        DecMode::MouseTracking => DecPrivateModeCode::MouseTracking,
        DecMode::ButtonEventMouse => DecPrivateModeCode::ButtonEventMouse,
        DecMode::AnyEventMouse => DecPrivateModeCode::AnyEventMouse,
        DecMode::RxvtMouse => DecPrivateModeCode::RXVTMouse,
        DecMode::SgrMouse => DecPrivateModeCode::SGRMouse,
    });
    let mode = if set { Mode::SetDecPrivateMode(code) } else { Mode::ResetDecPrivateMode(code) };
    format!("{}", Csi::Mode(mode))
}

/// Appends the escape sequence that sets or resets `mode`.
fn push_mode(out: &mut Vec<char>, mode: DecMode, set: bool)
    ensures
        final(out)@ == old(out)@ + mode_text(mode, set),
{
    let text = mode_escape(mode, set);
    crate::text::push_str(out, text.as_str());
}

/// Appends the escape sequences that set or reset mouse reporting.
fn push_mouse(out: &mut Vec<char>, set: bool)
    ensures
        final(out)@ == old(out)@ + mouse_text(set),
{
    push_mode(out, DecMode::MouseTracking, set);
    push_mode(out, DecMode::ButtonEventMouse, set);
    push_mode(out, DecMode::AnyEventMouse, set);
    push_mode(out, DecMode::RxvtMouse, set);
    push_mode(out, DecMode::SgrMouse, set);
    assert(out@ =~= old(out)@ + mouse_text(set));
}

/// A button of the mouse.
#[derive(Copy, Clone, Debug, PartialEq, Eq, Hash, Structural)]
#[non_exhaustive]
pub enum MouseButton {
    Primary,
    Secondary,
    Middle,
}

/// The modifier keys that are held, as a set of bits.
#[derive(Copy, Clone, Debug, PartialEq, Eq, Hash, Structural)]
pub struct KeyModifiers(pub u8);

/// The bit of the shift key.
pub const SHIFT: u8 = 0x02;

/// The bit of the alt key.
pub const ALT: u8 = 0x04;

/// The bit of the control key.
pub const CONTROL: u8 = 0x08;

/// The bit of the super key.
pub const SUPER: u8 = 0x10;

/// The bit of the hyper key.
pub const HYPER: u8 = 0x20;

/// The bit of the meta key, which it shares with the hyper key.
pub const META: u8 = 0x20;

impl KeyModifiers {
    /// The bits of the set.
    pub open spec fn bits(self) -> u8 {
        self.0
    }

    /// The set with the given bits.
    pub fn from_bits(bits: u8) -> (r: Self)
        ensures
            r.bits() == bits,
    {
        Self(bits)
    }

    /// The bits of the set.
    pub fn get(&self) -> (r: u8)
        ensures
            r == self.bits(),
    {
        self.0
    }

    /// No modifier.
    pub fn none() -> (r: Self)
        ensures
            r.bits() == 0,
    {
        Self(0)
    }

    pub fn shift() -> (r: Self)
        ensures
            r.bits() == SHIFT,
    {
        Self(SHIFT)
    }

    pub fn alt() -> (r: Self)
        ensures
            r.bits() == ALT,
    {
        Self(ALT)
    }

    pub fn control() -> (r: Self)
        ensures
            r.bits() == CONTROL,
    {
        Self(CONTROL)
    }

    pub fn super_key() -> (r: Self)
        ensures
            r.bits() == SUPER,
    {
        Self(SUPER)
    }

    pub fn hyper() -> (r: Self)
        ensures
            r.bits() == HYPER,
    {
        Self(HYPER)
    }

    pub fn meta() -> (r: Self)
        ensures
            r.bits() == META,
    {
        Self(META)
    }

    /// The set with the bits of `mask` added.
    fn with(self, mask: u8) -> (r: Self)
        ensures
            r.bits() == self.bits() | mask,
    {
        Self(self.0 | mask)
    }
}

impl BitAnd for KeyModifiers {
    type Output = Self;

    /// The modifiers that both sets hold.
    fn bitand(self, rhs: Self) -> (r: Self)
        ensures
            r.bits() == self.bits() & rhs.bits(),
    {
        Self(self.0 & rhs.0)
    }
}

impl BitAndSpecImpl for KeyModifiers {
    open spec fn obeys_bitand_spec() -> bool {
        true
    }

    open spec fn bitand_req(self, rhs: Self) -> bool {
        true
    }

    open spec fn bitand_spec(self, rhs: Self) -> Self {
        KeyModifiers(self.0 & rhs.0)
    }
}

impl BitOr for KeyModifiers {
    type Output = Self;

    /// The modifiers that either set holds.
    fn bitor(self, rhs: Self) -> (r: Self)
        ensures
            r.bits() == self.bits() | rhs.bits(),
    {
        Self(self.0 | rhs.0)
    }
}

impl BitOrSpecImpl for KeyModifiers {
    open spec fn obeys_bitor_spec() -> bool {
        true
    }

    open spec fn bitor_req(self, rhs: Self) -> bool {
        true
    }

    open spec fn bitor_spec(self, rhs: Self) -> Self {
        KeyModifiers(self.0 | rhs.0)
    }
}

impl Not for KeyModifiers {
    type Output = Self;

    /// Every bit that the set does not hold.
    fn not(self) -> (r: Self)
        ensures
            r.bits() == !self.bits(),
    {
        Self(!self.0)
    }
}

impl NotSpecImpl for KeyModifiers {
    open spec fn obeys_not_spec() -> bool {
        true
    }

    open spec fn not_req(self) -> bool {
        true
    }

    open spec fn not_spec(self) -> Self {
        KeyModifiers(!self.0)
    }
}

/// Whether a character of the ASCII keyboard is typed with the shift key
/// although it is no letter.
pub open spec fn is_uppercase_symbol(ch: char) -> bool {
    ch == '~' || ch == '!' || ch == '@' || ch == '#' || ch == '$' || ch == '%' || ch == '^' || ch
        == '&' || ch == '*' || ch == '(' || ch == ')' || ch == '_' || ch == '+' || ch == '{' || ch
        == '}' || ch == '|' || ch == '"' || ch == '<' || ch == '>' || ch == '?'
}

/// Whether typing a character takes the shift key: an upper case letter, or
/// one of the shifted symbols of the ASCII keyboard.
pub open spec fn takes_shift(ch: char) -> bool {
    unicode_uppercase(ch) || is_uppercase_symbol(ch)
}

/// Whether a character of the ASCII keyboard is typed with the shift key
/// although it is no letter.
pub fn ascii_is_uppercase_symbols(ch: char) -> (r: bool)
    ensures
        r == is_uppercase_symbol(ch),
{
    matches!(
        ch,
        '~' | '!' | '@' | '#' | '$' | '%' | '^' | '&' | '*' | '(' | ')' | '_' | '+' | '{' | '}'
            | '|' | '"' | '<' | '>' | '?'
    )
}

/// The modifiers of a press of the character key `ch` while `modifiers` are
/// held: shift joins them where the character is an upper case letter, which
/// `upper` tells, or a shifted symbol of the ASCII keyboard.
pub fn shifted(ch: char, upper: bool, modifiers: KeyModifiers) -> (r: KeyModifiers)
    ensures
        r.bits() == (if upper || is_uppercase_symbol(ch) {
            modifiers.bits() | SHIFT
        } else {
            modifiers.bits()
        }),
{
    if upper || ascii_is_uppercase_symbols(ch) {
        modifiers | KeyModifiers::shift()
    } else {
        modifiers
    }
}

/// A key of the keyboard.
#[derive(Copy, Clone, Debug, PartialEq, Eq, Hash, Structural)]
#[non_exhaustive]
pub enum Key {
    Char(char),
    Enter,
    Backspace,
    Tab,
    Escape,
    Left,
    Right,
    Up,
    Down,
    Home,
    End,
    BackTab,
    PageUp,
    PageDown,
    Insert,
    Delete,
    KeypadBegin,
    CapsLock,
    ScrollLock,
    NumLock,
    PrintScreen,
    Pause,
    Menu,
    Function(u8),
    Null,
}

/// A key together with the modifiers held with it.
#[derive(Copy, Clone, Debug, PartialEq, Eq, Hash, Structural)]
pub struct Keybind {
    pub key: Key,
    pub modifiers: KeyModifiers,
}

impl Keybind {
    /// `key` without any modifier.
    pub fn new(key: Key) -> (r: Self)
        ensures
            r.key == key,
            r.modifiers.bits() == 0,
    {
        Self { key, modifiers: KeyModifiers::none() }
    }

    /// The key of a character, with shift where typing the character takes
    /// it.
    pub fn char(char: char) -> (r: Self)
        ensures
            r.key == Key::Char(char),
            r.modifiers.bits() == (if takes_shift(char) {
                SHIFT
            } else {
                0
            }),
    {
        let modifiers = shifted(char, is_uppercase(char), KeyModifiers::none());
        assert(0u8 | 0x02u8 == 0x02u8) by (bit_vector);
        Self { key: Key::Char(char), modifiers }
    }

    pub fn shift(self) -> (r: Self)
        ensures
            r.key == self.key,
            r.modifiers.bits() == self.modifiers.bits() | SHIFT,
    {
        Self { key: self.key, modifiers: self.modifiers.with(SHIFT) }
    }

    pub fn alt(self) -> (r: Self)
        ensures
            r.key == self.key,
            r.modifiers.bits() == self.modifiers.bits() | ALT,
    {
        Self { key: self.key, modifiers: self.modifiers.with(ALT) }
    }

    pub fn control(self) -> (r: Self)
        ensures
            r.key == self.key,
            r.modifiers.bits() == self.modifiers.bits() | CONTROL,
    {
        Self { key: self.key, modifiers: self.modifiers.with(CONTROL) }
    }

    pub fn super_key(self) -> (r: Self)
        ensures
            r.key == self.key,
            r.modifiers.bits() == self.modifiers.bits() | SUPER,
    {
        Self { key: self.key, modifiers: self.modifiers.with(SUPER) }
    }

    pub fn hyper(self) -> (r: Self)
        ensures
            r.key == self.key,
            r.modifiers.bits() == self.modifiers.bits() | HYPER,
    {
        Self { key: self.key, modifiers: self.modifiers.with(HYPER) }
    }

    pub fn meta(self) -> (r: Self)
        ensures
            r.key == self.key,
            r.modifiers.bits() == self.modifiers.bits() | META,
    {
        Self { key: self.key, modifiers: self.modifiers.with(META) }
    }
}

/// What happened at the terminal.
#[derive(Debug, Copy, Clone, PartialEq, Eq)]
pub enum Event {
    KeyPress { key: Key, modifiers: KeyModifiers },
    MouseMove { pos: Position<i32>, modifiers: KeyModifiers },
    MouseScroll { delta: Delta<i32> },
    MousePress { button: MouseButton, modifiers: KeyModifiers, pos: Position<i32>, down: bool },
    MouseDragHeld {
        button: MouseButton,
        modifiers: KeyModifiers,
        origin: Position<i32>,
        pos: Position<i32>,
        delta: Delta<i32>,
    },
    MouseDragRelease {
        button: MouseButton,
        modifiers: KeyModifiers,
        origin: Position<i32>,
        pos: Position<i32>,
    },
    Resize { size: Size<u32> },
    Quit,
}

impl Event {
    pub fn is_quit(&self) -> (r: bool)
        ensures
            r == (*self is Quit),
    {
        matches!(self, Self::Quit)
    }

    /// Whether the event is the press of the key of `keybind` with exactly
    /// its modifiers.
    pub fn is_keybind(&self, keybind: &Keybind) -> (r: bool)
        ensures
            r == (*self == (Event::KeyPress { key: keybind.key, modifiers: keybind.modifiers })),
    {
        match self {
            Self::KeyPress { key, modifiers } => *key == keybind.key && *modifiers
                == keybind.modifiers,
            _ => false,
        }
    }
}

/// What the mouse did.
#[derive(Copy, Clone, Debug, PartialEq, Eq, Structural)]
pub enum MouseKind {
    Down(MouseButton),
    Up(MouseButton),
    Drag(MouseButton),
    Moved,
    ScrollDown,
    ScrollUp,
    ScrollLeft,
    ScrollRight,
}

/// One piece of input as the terminal reports it.
#[derive(Copy, Clone, Debug, PartialEq, Eq, Structural)]
pub enum Input {
    /// A key: the key where it is one that the library knows, whether it
    /// was pressed rather than released or repeated, and the modifiers.
    Key { key: Option<Key>, pressed: bool, modifiers: KeyModifiers },
    /// The mouse, at a column and a row.
    Mouse { kind: MouseKind, column: u16, row: u16, modifiers: KeyModifiers },
    /// The window has a new size.
    Resized { cols: u16, rows: u16 },
    /// Anything else.
    Other,
}

/// Where a drag of the mouse stands.
#[derive(Copy, Clone, Debug)]
pub enum DragState {
    /// A button is held and the mouse has moved.
    Active { origin: Position<i32>, previous: Position<i32>, button: MouseButton },
    /// A button was pressed at `origin`; a drag may follow.
    Maybe { origin: Position<i32> },
    /// No button is held.
    Idle,
}

/// Whether a position is one that the terminal can report.
pub open spec fn reportable(pos: Position<i32>) -> bool {
    0 <= pos.x <= u16::MAX && 0 <= pos.y <= u16::MAX
}

impl DragState {
    /// Every position that the state holds is one that the terminal can
    /// report.
    pub open spec fn wf(self) -> bool {
        match self {
            DragState::Active { origin, previous, .. } => reportable(origin) && reportable(previous),
            DragState::Maybe { origin } => reportable(origin),
            DragState::Idle => true,
        }
    }
}

/// The way from `from` to `to`.
pub open spec fn way(from: Position<i32>, to: Position<i32>) -> Delta<i32> {
    Delta { x: (to.x - from.x) as i32, y: (to.y - from.y) as i32 }
}

/// The events that a report of the mouse at `pos` gives rise to.
///
/// A press or a release is always reported, a release after the end of the
/// drag that it ends. A drag is reported with its origin and the way since
/// the last report, unless the mouse has not moved. A movement is reported
/// unless it is the one that follows a press on the spot. The wheel is
/// reported by the direction it turned in.
pub open spec fn mouse_events(
    drag: DragState,
    kind: MouseKind,
    pos: Position<i32>,
    modifiers: KeyModifiers,
) -> Seq<Event> {
    match kind {
        MouseKind::Down(button) => seq![Event::MousePress { button, modifiers, pos, down: true }],
        MouseKind::Up(button) => match drag {
            DragState::Active { origin, button: held, .. } if held == button => seq![
                Event::MouseDragRelease { button, modifiers, origin, pos },
                Event::MousePress { button, modifiers, pos, down: false },
            ],
            _ => seq![Event::MousePress { button, modifiers, pos, down: false }],
        },
        MouseKind::Drag(button) => match drag {
            DragState::Active { origin, previous, button: held } => if previous == pos {
                Seq::empty()
            } else {
                seq![
                    Event::MouseDragHeld {
                        button: held,
                        modifiers,
                        origin,
                        pos,
                        delta: way(previous, pos),
                    },
                ]
            },
            DragState::Maybe { origin } => seq![
                Event::MouseDragHeld { button, modifiers, origin, pos, delta: way(origin, pos) },
            ],
            DragState::Idle => seq![
                Event::MouseDragHeld {
                    button,
                    modifiers,
                    origin: pos,
                    pos,
                    delta: Delta { x: 0i32, y: 0i32 },
                },
            ],
        },
        MouseKind::Moved => match drag {
            DragState::Maybe { origin } if origin == pos => Seq::empty(),
            _ => seq![Event::MouseMove { pos, modifiers }],
        },
        MouseKind::ScrollDown => seq![Event::MouseScroll { delta: Delta { x: 0i32, y: -1i32 } }],
        MouseKind::ScrollUp => seq![Event::MouseScroll { delta: Delta { x: 0i32, y: 1i32 } }],
        MouseKind::ScrollLeft => seq![Event::MouseScroll { delta: Delta { x: -1i32, y: 0i32 } }],
        MouseKind::ScrollRight => seq![Event::MouseScroll { delta: Delta { x: 1i32, y: 0i32 } }],
    }
}

/// Where a drag stands after a report of the mouse at `pos`.
///
/// A press may start a drag, the first drag report makes it one, and every
/// further one moves it on. The release of the button that is held ends the
/// drag and leaves a press on the spot; any movement without a button ends
/// whatever there was.
pub open spec fn mouse_drag(drag: DragState, kind: MouseKind, pos: Position<i32>) -> DragState {
    match kind {
        MouseKind::Down(_) => match drag {
            DragState::Idle => DragState::Maybe { origin: pos },
            _ => drag,
        },
        MouseKind::Up(button) => match drag {
            DragState::Active { button: held, .. } if held == button => DragState::Maybe {
                origin: pos,
            },
            _ => drag,
        },
        MouseKind::Drag(button) => match drag {
            DragState::Active { origin, button: held, .. } => DragState::Active {
                origin,
                previous: pos,
                button: held,
            },
            DragState::Maybe { origin } => DragState::Active { origin, previous: pos, button },
            DragState::Idle => DragState::Idle,
        },
        MouseKind::Moved => DragState::Idle,
        _ => drag,
    }
}

/// The modifiers of a key press: those reported, and shift where the key is
/// a character that takes it.
pub open spec fn key_modifiers(key: Key, modifiers: KeyModifiers) -> u8 {
    match key {
        Key::Char(ch) if takes_shift(ch) => modifiers.bits() | SHIFT,
        _ => modifiers.bits(),
    }
}

/// The events that a piece of input gives rise to.
///
/// A key counts when it is pressed and is one that the library knows. A new
/// size of the window is passed on. The mouse is reported as
/// [`mouse_events`] says.
pub open spec fn input_events(drag: DragState, input: Input) -> Seq<Event> {
    match input {
        Input::Key { key: Some(key), pressed: true, modifiers } => seq![
            Event::KeyPress { key, modifiers: KeyModifiers(key_modifiers(key, modifiers)) },
        ],
        Input::Mouse { kind, column, row, modifiers } => mouse_events(
            drag,
            kind,
            Position { x: column as i32, y: row as i32 },
            modifiers,
        ),
        Input::Resized { cols, rows } => seq![
            Event::Resize { size: Size { width: cols as u32, height: rows as u32 } },
        ],
        _ => Seq::empty(),
    }
}

/// What is remembered between two pieces of input.
#[derive(Debug)]
pub struct EventState {
    pos: Position<i32>,
    drag_state: DragState,
}

impl EventState {
    /// Where the mouse was last reported.
    pub closed spec fn last_position(&self) -> Position<i32> {
        self.pos
    }

    /// Where a drag of the mouse stands.
    pub closed spec fn drag(&self) -> DragState {
        self.drag_state
    }

    /// The state before any input: the mouse at the top left corner, no
    /// button held.
    pub fn new() -> (r: Self)
        ensures
            r.drag() is Idle,
            r.drag().wf(),
            r.last_position() == (Position { x: 0i32, y: 0i32 }),
    {
        Self { pos: Position { x: 0, y: 0 }, drag_state: DragState::Idle }
    }

    /// Turns one piece of input into events.
    pub fn translate(&mut self, input: &Input) -> (r: Vec<Event>)
        requires
            old(self).drag().wf(),
        ensures
            final(self).drag().wf(),
            r@ == input_events(old(self).drag(), *input),
            final(self).drag() == (match *input {
                Input::Mouse { kind, column, row, .. } => mouse_drag(
                    old(self).drag(),
                    kind,
                    Position { x: column as i32, y: row as i32 },
                ),
                _ => old(self).drag(),
            }),
            final(self).last_position() == (match *input {
                Input::Mouse { column, row, .. } => Position { x: column as i32, y: row as i32 },
                _ => old(self).last_position(),
            }),
    {
        let mut queue: Vec<Event> = Vec::new();
        match *input {
            Input::Key { key, pressed, modifiers } => {
                self.translate_key(&mut queue, key, pressed, modifiers);
            },
            Input::Mouse { kind, column, row, modifiers } => {
                self.translate_mouse(&mut queue, kind, column, row, modifiers);
            },
            Input::Resized { cols, rows } => {
                let size = Size { width: cols as u32, height: rows as u32 };
                queue.push(Event::Resize { size });
                assert(queue@ =~= input_events(old(self).drag(), *input));
            },
            Input::Other => {
                assert(queue@ =~= input_events(old(self).drag(), *input));
            },
        }
        queue
    }

    fn translate_key(
        &mut self,
        queue: &mut Vec<Event>,
        key: Option<Key>,
        pressed: bool,
        modifiers: KeyModifiers,
    )
        requires
            old(queue)@.len() == 0,
        ensures
            *final(self) == *old(self),
            final(queue)@ == input_events(old(self).drag(), Input::Key { key, pressed, modifiers }),
    {
        if !pressed {
            return ;
        }
        let key = match key {
            Some(key) => key,
            None => {
                return ;
            },
        };
        let mut modifiers = modifiers;
        if let Key::Char(ch) = key {
            modifiers = shifted(ch, is_uppercase(ch), modifiers);
        }
        queue.push(Event::KeyPress { key, modifiers });
        assert(modifiers == KeyModifiers(modifiers.bits()));
        assert(queue@ =~= seq![Event::KeyPress { key, modifiers }]);
    }

    fn translate_mouse(
        &mut self,
        queue: &mut Vec<Event>,
        kind: MouseKind,
        column: u16,
        row: u16,
        modifiers: KeyModifiers,
    )
        requires
            old(queue)@.len() == 0,
            old(self).drag().wf(),
        ensures
            final(self).drag().wf(),
            final(self).last_position() == (Position { x: column as i32, y: row as i32 }),
            final(self).drag() == mouse_drag(
                old(self).drag(),
                kind,
                Position { x: column as i32, y: row as i32 },
            ),
            final(queue)@ == mouse_events(
                old(self).drag(),
                kind,
                Position { x: column as i32, y: row as i32 },
                modifiers,
            ),
    {
        let pos = Position { x: column as i32, y: row as i32 };
        self.pos = pos;

        let ev = match kind {
            MouseKind::Down(button) => {
                if let DragState::Idle = self.drag_state {
                    self.drag_state = DragState::Maybe { origin: pos };
                }
                Event::MousePress { button, modifiers, pos, down: true }
            },
            MouseKind::Up(button) => {
                if let DragState::Active { origin, button: held, .. } = self.drag_state {
                    if held == button {
                        self.drag_state = DragState::Maybe { origin: pos };
                        queue.push(Event::MouseDragRelease { button, modifiers, origin, pos });
                    }
                }
                Event::MousePress { button, modifiers, pos, down: false }
            },
            MouseKind::Drag(button) => {
                match self.drag_state {
                    DragState::Active { origin, previous, button: held } => {
                        self.drag_state = DragState::Active { origin, previous: pos, button: held };
                        if previous.x == pos.x && previous.y == pos.y {
                            assert(queue@ =~= Seq::<Event>::empty());
                            return ;
                        }
                        Event::MouseDragHeld {
                            button: held,
                            modifiers,
                            origin,
                            pos,
                            delta: previous.delta(pos),
                        }
                    },
                    DragState::Maybe { origin } => {
                        self.drag_state = DragState::Active { origin, previous: pos, button };
                        Event::MouseDragHeld {
                            button,
                            modifiers,
                            origin,
                            pos,
                            delta: origin.delta(pos),
                        }
                    },
                    DragState::Idle => Event::MouseDragHeld {
                        button,
                        modifiers,
                        origin: pos,
                        pos,
                        delta: Delta::zero(),
                    },
                }
            },
            MouseKind::Moved => {
                let before = self.drag_state;
                self.drag_state = DragState::Idle;
                if let DragState::Maybe { origin } = before {
                    if origin.x == pos.x && origin.y == pos.y {
                        assert(queue@ =~= Seq::<Event>::empty());
                        return ;
                    }
                }
                Event::MouseMove { pos, modifiers }
            },
            MouseKind::ScrollDown => Event::MouseScroll { delta: Delta::new(0, -1) },
            MouseKind::ScrollUp => Event::MouseScroll { delta: Delta::new(0, 1) },
            MouseKind::ScrollLeft => Event::MouseScroll { delta: Delta::new(-1, 0) },
            MouseKind::ScrollRight => Event::MouseScroll { delta: Delta::new(1, 0) },
        };
        let ghost before = queue@;
        queue.push(ev);
        assert(queue@ =~= before.push(ev));
        assert(queue@ =~= mouse_events(old(self).drag(), kind, pos, modifiers));
    }
}

} // verus!
