use mars::terminal::{EventState, Input, MouseKind};
use mars::terminal::{
    ascii_is_uppercase_symbols, shifted, DecMode, ALT, CONTROL, HYPER, META, SHIFT, SUPER,
};
use mars::{Config, Delta, Event, Key, KeyModifiers, Keybind, MouseButton, Position, Size};

fn mouse(kind: MouseKind, column: u16, row: u16) -> Input {
    Input::Mouse { kind, column, row, modifiers: KeyModifiers::none() }
}

#[test]
fn the_full_setup() {
    assert_eq!(
        Config::new().initialize(),
        "\x1b[?1049h\x1b[?25l\x1b[?1000h\x1b[?1002h\x1b[?1003h\x1b[?1015h\x1b[?1006h"
    );
    assert_eq!(
        Config::new().reset(),
        "\x1b[?1000l\x1b[?1002l\x1b[?1003l\x1b[?1015l\x1b[?1006l\x1b[?1049l\x1b[?25h"
    );
    assert_eq!(Config::default(), Config::new());
}

#[test]
fn a_partial_setup() {
    let config = Config::new().mouse_capture(false).hide_cursor(false);
    assert_eq!(config.initialize(), "\x1b[?1049h");
    assert_eq!(config.reset(), "\x1b[?1049l");
    let none = config.use_alt_screen(false).ctrl_c_quits(false).hook_panics(false);
    assert_eq!(none.initialize(), "");
    assert_eq!(none.reset(), "");
    assert!(!none.ctrl_c_quits && !none.hook_panics);
    assert_eq!(Config::new().mouse_capture(false).use_alt_screen(false).initialize(), "\x1b[?25l");
    assert_eq!(DecMode::SgrMouse.code(), 1006);
}

#[test]
fn modifiers_combine() {
    assert_eq!(KeyModifiers::none().get(), 0);
    assert_eq!(KeyModifiers::shift().get(), SHIFT);
    assert_eq!(KeyModifiers::alt().get(), ALT);
    assert_eq!(KeyModifiers::control().get(), CONTROL);
    assert_eq!(KeyModifiers::super_key().get(), SUPER);
    assert_eq!(KeyModifiers::hyper().get(), HYPER);
    assert_eq!(KeyModifiers::meta().get(), META);
    let both = KeyModifiers::shift() | KeyModifiers::control();
    assert_eq!(both.get(), 0b1010);
    assert_eq!((both & KeyModifiers::shift()).get(), 0b0010);
    assert_eq!((!both).get(), 0b1111_0101);
    assert_eq!(KeyModifiers::from_bits(7).get(), 7);
}

#[test]
fn shift_joins_the_modifiers_of_a_shifted_character() {
    assert_eq!(shifted('a', false, KeyModifiers::none()), KeyModifiers::none());
    assert_eq!(shifted('a', true, KeyModifiers::none()), KeyModifiers::shift());
    assert_eq!(shifted('?', false, KeyModifiers::none()), KeyModifiers::shift());
    assert_eq!(shifted('/', false, KeyModifiers::alt()), KeyModifiers::alt());
    assert_eq!(shifted('A', true, KeyModifiers::alt()).get(), SHIFT | ALT);
    assert_eq!(shifted('A', true, KeyModifiers::shift()), KeyModifiers::shift());
}

#[test]
fn keybinds() {
    assert_eq!(Keybind::new(Key::Enter), Keybind { key: Key::Enter, modifiers: KeyModifiers::none() });
    assert_eq!(Keybind::char('a').modifiers, KeyModifiers::none());
    assert_eq!(Keybind::char('A').modifiers, KeyModifiers::shift());
    assert_eq!(Keybind::char('?').modifiers, KeyModifiers::shift());
    assert_eq!(Keybind::char('/').modifiers, KeyModifiers::none());
    assert_eq!(Keybind::char('\u{c9}').modifiers, KeyModifiers::shift());
    let all = Keybind::char('c').shift().alt().control().super_key().hyper().meta();
    assert_eq!(all.modifiers.get(), SHIFT | ALT | CONTROL | SUPER | HYPER);
    assert_eq!(all.key, Key::Char('c'));
    assert!(ascii_is_uppercase_symbols('~'));
    assert!(ascii_is_uppercase_symbols('"'));
    assert!(!ascii_is_uppercase_symbols('a'));
    assert!(!ascii_is_uppercase_symbols('A'));
}

#[test]
fn events_are_told_apart() {
    assert!(Event::Quit.is_quit());
    let press = Event::KeyPress { key: Key::Char('c'), modifiers: KeyModifiers::control() };
    assert!(!press.is_quit());
    assert!(press.is_keybind(&Keybind::char('c').control()));
    assert!(!press.is_keybind(&Keybind::char('c')));
    assert!(!press.is_keybind(&Keybind::char('d').control()));
    assert!(!Event::Quit.is_keybind(&Keybind::char('c')));
}

#[test]
fn keys_are_passed_on_when_pressed() {
    let mut state = EventState::new();
    let key = |key, pressed| Input::Key { key, pressed, modifiers: KeyModifiers::alt() };
    assert_eq!(
        state.translate(&key(Some(Key::Char('a')), true)),
        vec![Event::KeyPress { key: Key::Char('a'), modifiers: KeyModifiers::alt() }]
    );
    assert_eq!(
        state.translate(&key(Some(Key::Char('A')), true)),
        vec![Event::KeyPress {
            key: Key::Char('A'),
            modifiers: KeyModifiers::alt() | KeyModifiers::shift()
        }]
    );
    assert_eq!(
        state.translate(&key(Some(Key::Function(5)), true)),
        vec![Event::KeyPress { key: Key::Function(5), modifiers: KeyModifiers::alt() }]
    );
    assert_eq!(state.translate(&key(Some(Key::Char('a')), false)), vec![]);
    assert_eq!(state.translate(&key(None, true)), vec![]);
    assert_eq!(state.translate(&Input::Other), vec![]);
}

#[test]
fn a_new_size_is_passed_on() {
    let mut state = EventState::new();
    assert_eq!(
        state.translate(&Input::Resized { cols: 80, rows: 24 }),
        vec![Event::Resize { size: Size::new(80, 24) }]
    );
}

#[test]
fn a_drag_from_press_to_release() {
    let mut state = EventState::new();
    let none = KeyModifiers::none();
    let button = MouseButton::Primary;
    assert_eq!(
        state.translate(&mouse(MouseKind::Down(button), 2, 3)),
        vec![Event::MousePress { button, modifiers: none, pos: Position::new(2, 3), down: true }]
    );
    assert_eq!(
        state.translate(&mouse(MouseKind::Drag(button), 4, 3)),
        vec![Event::MouseDragHeld {
            button,
            modifiers: none,
            origin: Position::new(2, 3),
            pos: Position::new(4, 3),
            delta: Delta::new(2, 0),
        }]
    );
    assert_eq!(state.translate(&mouse(MouseKind::Drag(button), 4, 3)), vec![]);
    assert_eq!(
        state.translate(&mouse(MouseKind::Drag(MouseButton::Middle), 3, 5)),
        vec![Event::MouseDragHeld {
            button,
            modifiers: none,
            origin: Position::new(2, 3),
            pos: Position::new(3, 5),
            delta: Delta::new(-1, 2),
        }]
    );
    assert_eq!(
        state.translate(&mouse(MouseKind::Up(MouseButton::Secondary), 3, 5)),
        vec![Event::MousePress {
            button: MouseButton::Secondary,
            modifiers: none,
            pos: Position::new(3, 5),
            down: false
        }]
    );
    assert_eq!(
        state.translate(&mouse(MouseKind::Up(button), 3, 6)),
        vec![
            Event::MouseDragRelease {
                button,
                modifiers: none,
                origin: Position::new(2, 3),
                pos: Position::new(3, 6)
            },
            Event::MousePress { button, modifiers: none, pos: Position::new(3, 6), down: false },
        ]
    );
    assert_eq!(state.translate(&mouse(MouseKind::Moved, 3, 6)), vec![]);
    assert_eq!(
        state.translate(&mouse(MouseKind::Moved, 3, 6)),
        vec![Event::MouseMove { pos: Position::new(3, 6), modifiers: none }]
    );
}

#[test]
fn a_drag_without_a_press() {
    let mut state = EventState::new();
    let none = KeyModifiers::none();
    assert_eq!(
        state.translate(&mouse(MouseKind::Drag(MouseButton::Middle), 1, 1)),
        vec![Event::MouseDragHeld {
            button: MouseButton::Middle,
            modifiers: none,
            origin: Position::new(1, 1),
            pos: Position::new(1, 1),
            delta: Delta::new(0, 0),
        }]
    );
    assert_eq!(
        state.translate(&mouse(MouseKind::Moved, 65535, 0)),
        vec![Event::MouseMove { pos: Position::new(65535, 0), modifiers: none }]
    );
}

#[test]
fn the_wheel() {
    let mut state = EventState::new();
    let scroll = |x, y| vec![Event::MouseScroll { delta: Delta::new(x, y) }];
    assert_eq!(state.translate(&mouse(MouseKind::ScrollDown, 0, 0)), scroll(0, -1));
    assert_eq!(state.translate(&mouse(MouseKind::ScrollUp, 0, 0)), scroll(0, 1));
    assert_eq!(state.translate(&mouse(MouseKind::ScrollLeft, 0, 0)), scroll(-1, 0));
    assert_eq!(state.translate(&mouse(MouseKind::ScrollRight, 0, 0)), scroll(1, 0));
}
