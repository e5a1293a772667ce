use mars::application::{event_effect, frame_lag, frame_wait, should_redraw, EventEffect};
use mars::{
    Action, Attributes, BlendMode, Color, Event, IndexedColor, Key, KeyModifiers, ShouldRender,
    Size, Style,
};

#[test]
fn styles_are_built_step_by_step() {
    let empty = Style::empty();
    assert_eq!(empty, Style::default());
    assert_eq!(empty.foreground, Color::Default);
    assert_eq!(empty.background, Color::Default);
    assert_eq!(empty.attributes, None);
    assert_eq!(empty.blend, BlendMode::Replace);
    let style = empty
        .foreground(Color::Named(IndexedColor(1)))
        .background(Color::Named(IndexedColor(2)))
        .attributes(Some(Attributes::bold()))
        .blend(BlendMode::Blend);
    assert_eq!(
        style,
        Style {
            foreground: Color::Named(IndexedColor(1)),
            background: Color::Named(IndexedColor(2)),
            attributes: Some(Attributes::bold()),
            blend: BlendMode::Blend,
        }
    );
}

#[test]
fn defaults() {
    assert_eq!(Action::default(), Action::Continue);
    assert_eq!(ShouldRender::default(), ShouldRender::Yes);
    assert_eq!(BlendMode::default(), BlendMode::Replace);
}

#[test]
fn what_the_loop_does_about_an_event() {
    assert_eq!(event_effect(&Event::Quit), EventEffect::Stop);
    assert_eq!(
        event_effect(&Event::Resize { size: Size::new(80, 24) }),
        EventEffect::Resize(Size::new(80, 24))
    );
    let press = Event::KeyPress { key: Key::Enter, modifiers: KeyModifiers::none() };
    assert_eq!(event_effect(&press), EventEffect::Pass);
}

#[test]
fn when_the_loop_renders() {
    assert!(should_redraw(0, ShouldRender::Yes));
    assert!(!should_redraw(0, ShouldRender::No));
    assert!(!should_redraw(1, ShouldRender::Yes));
    assert!(should_redraw(1, ShouldRender::No));
    assert!(should_redraw(2, ShouldRender::Yes));
}

#[test]
fn how_long_the_loop_waits() {
    assert_eq!(frame_wait(1000, 300, 200), 500);
    assert_eq!(frame_wait(1000, 900, 200), 0);
    assert_eq!(frame_wait(1000, 1200, 0), 0);
    assert_eq!(frame_lag(700, 500), 200);
    assert_eq!(frame_lag(400, 500), 0);
}
