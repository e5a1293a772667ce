use mars::attributes::{BOLD, STRIKEOUT};
use mars::Attributes;

#[test]
fn flags_are_told_apart() {
    assert!(Attributes::bold().is_bold());
    assert!(!Attributes::bold().is_italic());
    assert!(Attributes::faint().is_faint());
    assert!(Attributes::italic().is_italic());
    assert!(Attributes::underline().is_underline());
    assert!(Attributes::blink().is_blink());
    assert!(Attributes::reverse().is_reverse());
    assert!(Attributes::strikeout().is_strikeout());
    assert_eq!(Attributes::bold().get(), BOLD);
    assert_eq!(Attributes::strikeout().get(), STRIKEOUT);
}

#[test]
fn the_reset_request_carries_no_flag() {
    let reset = Attributes::reset();
    assert!(reset.is_reset());
    assert!(!reset.is_bold());
    assert!(!reset.is_strikeout());
    assert!(!Attributes::bold().is_reset());
    assert_eq!(reset.get(), u16::MAX);
    assert_eq!(Attributes::default(), reset);
    assert_eq!(reset.as_indexed_bytes(), Vec::<u8>::new());
}

#[test]
fn zero_stores_nothing() {
    assert_eq!(Attributes::new(0), None);
    assert_eq!(Attributes::new(1), Some(Attributes::bold()));
    assert_eq!(Attributes::new(u16::MAX), Some(Attributes::reset()));
}

#[test]
fn sets_combine() {
    let both = Attributes::bold() | Attributes::underline();
    assert!(both.is_bold() && both.is_underline() && !both.is_italic());
    assert_eq!(both & Attributes::bold(), Attributes::bold());
    assert_eq!(both.get(), 0b1001);
    assert!((!both).is_italic());
    assert!(!(!both).is_bold());
}

#[test]
fn the_reset_request_absorbs() {
    assert_eq!(Attributes::reset() | Attributes::bold(), Attributes::reset());
    assert_eq!(Attributes::bold() | Attributes::reset(), Attributes::reset());
    assert_eq!(Attributes::reset() | Attributes::reset(), Attributes::reset());
    assert_eq!(!Attributes::reset(), Attributes::reset());
}

#[test]
fn selecting_numbers_count_from_one() {
    let set = Attributes::bold() | Attributes::italic() | Attributes::reverse() | Attributes::strikeout();
    assert_eq!(set.as_indexed_bytes(), vec![1, 3, 7, 9]);
    assert_eq!(Attributes::blink().as_indexed_bytes(), vec![5]);
}
