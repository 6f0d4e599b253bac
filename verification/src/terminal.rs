//! The session: one backend and the frame buffer that mirrors its screen.

use vstd::prelude::*;
use crate::backend::{Backend, BackendSetter};
use crate::buffer::Buffer;
use crate::cell::Cell;
use crate::error::{BError, BResult};
use crate::event::IEvent;
use crate::geometry::{Coords, Rect, Size};
use crate::grid::{lemma_resized_to_same, Grid};

verus! {

/// The frame of a screen of the given size.
pub open spec fn screen_frame(size: Size) -> Rect {
    Rect { point: Coords { x: 0, y: 0 }, width: size.x, height: size.y }
}

/// The grid after the session has seen what an event poll returned: resized
/// where that is a resize event, and as it was otherwise.
pub open spec fn after_event(grid: Grid, polled: BResult<Option<IEvent>>) -> Grid {
    match polled {
        Ok(Some(IEvent::Resize(size))) => grid.resized(size),
        _ => grid,
    }
}

/// The outcome of two steps done one after the other whatever the first
/// returned: the first failure, if there is one.
pub open spec fn first_failure(first: BResult<()>, second: BResult<()>) -> BResult<()> {
    if first is Err {
        first
    } else {
        second
    }
}

/// The owner of the active backend and of the frame buffer.
pub struct Terminal {
    backend: Box<dyn Backend>,
    buffer: Buffer,
}

impl View for Terminal {
    type V = Grid;

    closed spec fn view(&self) -> Grid {
        self.buffer@
    }
}

impl Terminal {
    /// A session on a backend that is active already and whose screen has the
    /// given size. The frame buffer starts blank.
    pub fn with_size(backend: Box<dyn Backend>, size: Size) -> (t: Terminal)
        ensures
            t@.wf(),
            t@ == Grid::blank(screen_frame(size)),
    {
        let frame = Rect { point: Coords { x: 0, y: 0 }, width: size.x, height: size.y };
        Terminal { backend, buffer: Buffer::new(frame) }
    }

    /// Activates the backend and starts a session on it, with a blank frame
    /// buffer of the size that the backend reports. Without a backend there
    /// is no session.
    pub fn new(backend: Option<Box<dyn Backend>>) -> (r: BResult<Terminal>)
        ensures
            backend is None ==> r matches Err(BError::NoBackend),
            r matches Ok(t) ==> backend is Some && t@.wf() && t@ == Grid::blank(
                screen_frame(t@.size()),
            ),
    {
        match backend {
            None => Err(BError::NoBackend),
            Some(mut device) => {
                match device.init() {
                    Err(e) => Err(e),
                    Ok(()) => {
                        let size = device.screen_size();
                        Ok(Terminal::with_size(device, size))
                    },
                }
            },
        }
    }

    pub fn buffer(&self) -> (b: &Buffer)
        ensures
            self@.wf(),
            b@ == self@,
    {
        proof {
            use_type_invariant(&self.buffer);
        }
        &self.buffer
    }

    /// The size of the screen as the session knows it.
    pub fn size_get(&self) -> (s: Size)
        ensures
            self@.wf(),
            s == self@.size(),
    {
        self.buffer.size()
    }

    /// Takes note of what an event poll returned, and hands it on: on a
    /// resize event the frame buffer gets the new size. A resize event that
    /// reports the size the buffer has leaves the buffer untouched.
    pub fn observe(&mut self, polled: BResult<Option<IEvent>>) -> (r: BResult<Option<IEvent>>)
        ensures
            old(self)@.wf(),
            final(self)@.wf(),
            r == polled,
            final(self)@ == after_event(old(self)@, polled),
    {
        let current = self.buffer.size();
        match &polled {
            Ok(Some(IEvent::Resize(size))) => {
                if size.x != current.x || size.y != current.y {
                    self.buffer.resize(*size);
                } else {
                    proof {
                        lemma_resized_to_same(self@);
                    }
                }
            },
            _ => {},
        }
        polled
    }

    /// Polls the backend for an event. A resize event has resized the frame
    /// buffer by the time the caller gets it.
    pub fn read_event(&mut self) -> (r: BResult<Option<IEvent>>)
        ensures
            old(self)@.wf(),
            final(self)@.wf(),
            final(self)@ == after_event(old(self)@, r),
    {
        let polled = self.backend.read_event();
        self.observe(polled)
    }

    /// Commits `content` to the region `rect` of the frame buffer and, where
    /// that changes any cell, sends the changes to the backend.
    pub fn draw(&mut self, rect: Rect, content: &Vec<Cell>) -> (r: BResult<()>)
        ensures
            old(self)@.wf(),
            final(self)@.wf(),
            final(self)@ == if old(self)@.accepts(rect, content@) {
                old(self)@.committed(rect, content@)
            } else {
                old(self)@
            },
            !rect.fits(old(self)@.size()) ==> r matches Err(BError::OutOfBounds),
            rect.fits(old(self)@.size()) && content@.len() != rect.width * rect.height
                ==> r matches Err(BError::ContentLength),
            old(self)@.accepts(rect, content@) && old(self)@.changes(rect, content@).len() == 0
                ==> r is Ok,
    {
        match self.buffer.commit(rect, content) {
            Err(e) => Err(e),
            Ok(None) => Ok(()),
            Ok(Some(changes)) => self.backend.draw_at(&changes),
        }
    }

    /// Forces the backend's buffered output to the device.
    pub fn update(&mut self) -> (r: BResult<()>)
        ensures
            final(self)@ == old(self)@,
    {
        self.backend.refresh()
    }

    /// Forces the backend's buffered output to the device.
    pub fn flush(&mut self) -> (r: BResult<()>)
        ensures
            final(self)@ == old(self)@,
    {
        self.backend.refresh()
    }

    /// Switches the device to the modes that the session needs.
    pub fn init(&mut self) -> (r: BResult<()>)
        ensures
            final(self)@ == old(self)@,
    {
        self.backend.init()
    }

    /// Switches the device back to the modes it had before the session.
    pub fn deinit(&mut self) -> (r: BResult<()>)
        ensures
            final(self)@ == old(self)@,
    {
        self.backend.deinit()
    }

    /// Clears the screen. Once the backend has taken the request the frame
    /// buffer is blank, as the screen will be; where it has not, the frame
    /// buffer stays as it is.
    pub fn clear_screen(&mut self) -> (r: BResult<()>)
        ensures
            old(self)@.wf(),
            final(self)@.wf(),
            final(self)@ == if r is Ok {
                Grid::blank(old(self)@.frame)
            } else {
                old(self)@
            },
    {
        proof {
            use_type_invariant(&self.buffer);
        }
        let r = self.backend.screen_clear();
        if r.is_ok() {
            self.buffer.clear();
        }
        r
    }

    pub fn cursor_hide(&mut self) -> (r: BResult<()>)
        ensures
            final(self)@ == old(self)@,
    {
        self.backend.cursor_hide()
    }

    pub fn cursor_show(&mut self) -> (r: BResult<()>)
        ensures
            final(self)@ == old(self)@,
    {
        self.backend.cursor_show()
    }

    /// Moves the cursor to column `col`, row `row`.
    pub fn cursor_position(&mut self, col: u16, row: u16) -> (r: BResult<()>)
        ensures
            final(self)@ == old(self)@,
    {
        self.backend.cursor_set(Coords { x: col, y: row })
    }

    pub fn set_title(&mut self, title: &str) -> (r: BResult<()>)
        ensures
            final(self)@ == old(self)@,
    {
        self.backend.set_title(title)
    }

    /// What a swap of backends returns, given what the teardown of the old
    /// one and the activation of the new one returned.
    pub fn swap_outcome(down: BResult<()>, up: BResult<()>) -> (r: BResult<()>)
        ensures
            r == first_failure(down, up),
    {
        match down {
            Err(e) => Err(e),
            Ok(()) => up,
        }
    }

    /// Puts another backend in the place of the active one: the active one
    /// is torn down, then the other is installed and activated. The frame
    /// buffer stays as it is. The other backend is installed whatever the
    /// two steps return.
    pub fn set_backend(&mut self, custom: Box<dyn Backend>) -> (r: BResult<()>)
        ensures
            final(self)@ == old(self)@,
    {
        let down = self.backend.deinit();
        self.backend = custom;
        let up = self.backend.init();
        Terminal::swap_outcome(down, up)
    }
}

impl BackendSetter for Terminal {
    fn set_custom(&mut self, backend: Box<dyn Backend>) -> (r: BResult<()>)
        ensures
            final(self)@ == old(self)@,
    {
        self.set_backend(backend)
    }
}

} // verus!
