//! Zooming the view in and out around the cursor.

use vstd::prelude::*;

verus! {

/// Which way to zoom: in doubles the scale, out halves it.
#[derive(Debug, Clone, Copy, PartialEq, Eq)]
pub enum Zoom {
    In,
    Out,
}

/// The input a zoom handler reacts to. The vertical scroll amount is told
/// by its sign; every other event is `Ignored`.
#[derive(Debug, Clone, Copy, PartialEq, Eq)]
pub enum ZoomInput<C> {
    /// The wheel scrolled by whole lines, up when positive.
    ScrollUp,
    ScrollDown,
    ScrollStill,
    /// A key was pressed: `+`, `-`, or any other.
    KeyAdd,
    KeySubtract,
    OtherKey,
    /// The cursor moved to a point of the screen.
    CursorMoved(C),
    Ignored,
}

/// Zooms around the last known cursor position.
pub struct ZoomHandler<C> {
    cursor_position: Option<C>,
}

/// The zoom that an input asks for, if any.
pub open spec fn requested_zoom<C>(input: ZoomInput<C>) -> Option<Zoom> {
    match input {
        ZoomInput::ScrollUp => Some(Zoom::In),
        ZoomInput::KeyAdd => Some(Zoom::In),
        ZoomInput::ScrollDown => Some(Zoom::Out),
        ZoomInput::KeySubtract => Some(Zoom::Out),
        _ => None,
    }
}

impl<C: Copy> ZoomHandler<C> {
    /// Where the handler last saw the cursor.
    pub closed spec fn cursor(&self) -> Option<C> {
        self.cursor_position
    }

    /// A handler that has not seen the cursor yet.
    pub fn new() -> (h: ZoomHandler<C>)
        ensures
            h.cursor() is None,
    {
        ZoomHandler { cursor_position: None }
    }

    /// Reacts to an input: a cursor move is remembered, and a zoom request
    /// is answered with a zoom centred on the cursor once the cursor is
    /// known.
    pub fn handle(&mut self, input: ZoomInput<C>) -> (res: Option<(C, Zoom)>)
        ensures
            final(self).cursor() == match input {
                ZoomInput::CursorMoved(p) => Some(p),
                _ => old(self).cursor(),
            },
            res == match (old(self).cursor(), requested_zoom(input)) {
                (Some(center), Some(zoom)) => Some((center, zoom)),
                _ => None,
            },
    {
        match input {
            ZoomInput::CursorMoved(position) => {
                self.cursor_position = Some(position);
                None
            },
            _ => match self.cursor_position {
                Some(center) => match input {
                    ZoomInput::ScrollUp => Some((center, Zoom::In)),
                    ZoomInput::KeyAdd => Some((center, Zoom::In)),
                    ZoomInput::ScrollDown => Some((center, Zoom::Out)),
                    ZoomInput::KeySubtract => Some((center, Zoom::Out)),
                    _ => None,
                },
                None => None,
            },
        }
    }
}

} // verus!
