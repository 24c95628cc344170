use isometric::event_handlers::{RotateHandler, RotateInput, Scroller, Zoom, ZoomHandler, ZoomInput};
use isometric::transform::Direction;

#[test]
fn scroller_new() {
    assert_eq!(Scroller::new(), Scroller {});
}

#[test]
fn zoom_needs_the_cursor() {
    let mut zoom: ZoomHandler<(f32, f32)> = ZoomHandler::new();
    assert_eq!(zoom.handle(ZoomInput::ScrollUp), None);
    assert_eq!(zoom.handle(ZoomInput::CursorMoved((0.5, -0.25))), None);
    assert_eq!(zoom.handle(ZoomInput::ScrollUp), Some(((0.5, -0.25), Zoom::In)));
    assert_eq!(zoom.handle(ZoomInput::ScrollDown), Some(((0.5, -0.25), Zoom::Out)));
    assert_eq!(zoom.handle(ZoomInput::KeyAdd), Some(((0.5, -0.25), Zoom::In)));
    assert_eq!(zoom.handle(ZoomInput::KeySubtract), Some(((0.5, -0.25), Zoom::Out)));
    assert_eq!(zoom.handle(ZoomInput::ScrollStill), None);
    assert_eq!(zoom.handle(ZoomInput::OtherKey), None);
    assert_eq!(zoom.handle(ZoomInput::CursorMoved((1.0, 1.0))), None);
    assert_eq!(zoom.handle(ZoomInput::KeyAdd), Some(((1.0, 1.0), Zoom::In)));
}

#[test]
fn rotate_keys() {
    let mut rotate: RotateHandler<i32> = RotateHandler::new(16, 4);
    assert_eq!(rotate.handle_key(16), None);
    assert_eq!(rotate.handle(RotateInput::CursorMoved(7)), None);
    assert_eq!(rotate.handle(RotateInput::KeyPressed(16)), Some((7, Direction::Clockwise)));
    assert_eq!(rotate.handle(RotateInput::KeyPressed(4)), Some((7, Direction::AntiClockwise)));
    assert_eq!(rotate.handle(RotateInput::KeyPressed(5)), None);
    assert_eq!(rotate.handle(RotateInput::Ignored), None);
}

#[test]
fn rotate_same_key_turns_clockwise() {
    let mut rotate: RotateHandler<i32> = RotateHandler::new(9, 9);
    rotate.handle(RotateInput::CursorMoved(1));
    assert_eq!(rotate.handle_key(9), Some((1, Direction::Clockwise)));
}
