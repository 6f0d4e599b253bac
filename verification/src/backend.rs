//! The seam between the rendering core and a terminal device.

use vstd::prelude::*;
use crate::cell::Cell;
use crate::error::BResult;
use crate::event::IEvent;
use crate::geometry::{Distance, Point, Size};

verus! {

/// The shape of the cursor.
#[derive(Clone, Copy, Debug, PartialEq, Eq, Structural)]
pub enum CursorStyle {
    DefaultUserShape,
    BlinkingBlock,
    SteadyBlock,
    BlinkingUnderScore,
    SteadyUnderScore,
    BlinkingBar,
    SteadyBar,
}

/// What a terminal device must be able to do. Nothing is promised of what an
/// implementation returns: the rendering core is verified for every outcome.
pub trait Backend {
    /// Switches the device to the modes that a session needs.
    fn init(&mut self) -> BResult<()>;

    /// Undoes every change of mode that `init` made.
    fn deinit(&mut self) -> BResult<()>;

    /// Returns one pending input event, or nothing if none arrives within a
    /// short interval.
    fn read_event(&mut self) -> BResult<Option<IEvent>>;

    /// Forces buffered output to the device.
    fn refresh(&mut self) -> BResult<()>;

    /// Puts each cell of a changeset at its position.
    fn draw_at(&mut self, changes: &Vec<(Point, Cell)>) -> BResult<()>;

    fn set_title(&mut self, title: &str) -> BResult<()>;

    /// The size of the screen, or a default where it cannot be had.
    fn screen_size(&mut self) -> Size;

    fn screen_clear(&mut self) -> BResult<()>;

    fn cursor_show(&mut self) -> BResult<()>;

    fn cursor_hide(&mut self) -> BResult<()>;

    fn cursor_get(&mut self) -> BResult<Point>;

    fn cursor_set(&mut self, point: Point) -> BResult<()>;

    fn cursor_move(&mut self, distance: Distance) -> BResult<()>;

    fn cursor_style(&mut self, style: CursorStyle, blink: bool) -> BResult<()>;
}

/// What an owner of a backend offers for putting another in its place.
pub trait BackendSetter {
    fn set_custom(&mut self, backend: Box<dyn Backend>) -> BResult<()>;
}

} // verus!
