use std::cell::RefCell;
use std::collections::VecDeque;
use std::io;
use std::rc::Rc;

use umbra::backend::{Backend, BackendSetter, CursorStyle};
use umbra::cell::Cell;
use umbra::error::{BError, BResult};
use umbra::event::{IEvent, Key, KeyModifiers};
use umbra::geometry::{Distance, Point, Rect, Size};
use umbra::terminal::Terminal;

/// What a scripted backend was asked to do, in order.
#[derive(Default)]
struct Log {
    calls: Vec<String>,
    drawn: Vec<Vec<(Point, Cell)>>,
}

impl Log {
    fn count(&self, call: &str) -> usize {
        self.calls.iter().filter(|c| c.as_str() == call).count()
    }
}

/// A backend that plays back scripted events and records every call.
struct Scripted {
    name: &'static str,
    log: Rc<RefCell<Log>>,
    size: Size,
    events: VecDeque<IEvent>,
    fail_draw: bool,
    fail_init: bool,
    fail_deinit: bool,
}

impl Scripted {
    fn new(name: &'static str, log: &Rc<RefCell<Log>>, size: Size) -> Scripted {
        Scripted {
            name,
            log: Rc::clone(log),
            size,
            events: VecDeque::new(),
            fail_draw: false,
            fail_init: false,
            fail_deinit: false,
        }
    }

    fn note(&self, call: &str) {
        self.log.borrow_mut().calls.push(format!("{}.{}", self.name, call));
    }

    fn answer(fail: bool) -> BResult<()> {
        if fail {
            Err(BError::Internal(io::Error::new(io::ErrorKind::Other, "device failure")))
        } else {
            Ok(())
        }
    }
}

impl Backend for Scripted {
    fn init(&mut self) -> BResult<()> {
        self.note("init");
        Scripted::answer(self.fail_init)
    }

    fn deinit(&mut self) -> BResult<()> {
        self.note("deinit");
        Scripted::answer(self.fail_deinit)
    }

    fn read_event(&mut self) -> BResult<Option<IEvent>> {
        self.note("read_event");
        Ok(self.events.pop_front())
    }

    fn refresh(&mut self) -> BResult<()> {
        self.note("refresh");
        Ok(())
    }

    fn draw_at(&mut self, changes: &Vec<(Point, Cell)>) -> BResult<()> {
        self.note("draw_at");
        self.log.borrow_mut().drawn.push(changes.clone());
        Scripted::answer(self.fail_draw)
    }

    fn set_title(&mut self, title: &str) -> BResult<()> {
        self.note(&format!("set_title({})", title));
        Ok(())
    }

    fn screen_size(&mut self) -> Size {
        self.note("screen_size");
        self.size
    }

    fn screen_clear(&mut self) -> BResult<()> {
        self.note("screen_clear");
        Ok(())
    }

    fn cursor_show(&mut self) -> BResult<()> {
        self.note("cursor_show");
        Ok(())
    }

    fn cursor_hide(&mut self) -> BResult<()> {
        self.note("cursor_hide");
        Ok(())
    }

    fn cursor_get(&mut self) -> BResult<Point> {
        self.note("cursor_get");
        Ok(Point::new(0, 0))
    }

    fn cursor_set(&mut self, point: Point) -> BResult<()> {
        self.note(&format!("cursor_set({},{})", point.x, point.y));
        Ok(())
    }

    fn cursor_move(&mut self, _distance: Distance) -> BResult<()> {
        self.note("cursor_move");
        Ok(())
    }

    fn cursor_style(&mut self, _style: CursorStyle, _blink: bool) -> BResult<()> {
        self.note("cursor_style");
        Ok(())
    }
}

fn region(x: u16, y: u16, width: u16, height: u16) -> Rect {
    Rect { point: Point::new(x, y), width, height }
}

fn cells(text: &str) -> Vec<Cell> {
    text.chars().map(Cell::new).collect()
}

fn session(log: &Rc<RefCell<Log>>, events: Vec<IEvent>) -> Terminal {
    let mut backend = Scripted::new("first", log, Size::new(80, 24));
    backend.events = events.into();
    Terminal::new(Some(Box::new(backend))).unwrap()
}

fn glyph_at(terminal: &Terminal, x: u16, y: u16) -> Option<char> {
    terminal.buffer().cell_at(Point::new(x, y)).map(|c| c.glyph)
}

#[test]
fn no_backend_no_session() {
    assert!(matches!(Terminal::new(None), Err(BError::NoBackend)));
}

#[test]
fn new_session_activates_the_backend_and_takes_its_size() {
    let log = Rc::new(RefCell::new(Log::default()));
    let terminal = session(&log, vec![]);
    assert_eq!(log.borrow().calls, vec!["first.init", "first.screen_size"]);
    assert_eq!(terminal.size_get(), Size::new(80, 24));
    assert_eq!(terminal.buffer().frame(), region(0, 0, 80, 24));
    assert_eq!(glyph_at(&terminal, 79, 23), Some(' '));
    assert_eq!(glyph_at(&terminal, 80, 23), None);
}

#[test]
fn failed_activation_is_no_session() {
    let log = Rc::new(RefCell::new(Log::default()));
    let mut backend = Scripted::new("first", &log, Size::new(80, 24));
    backend.fail_init = true;
    assert!(matches!(Terminal::new(Some(Box::new(backend))), Err(BError::Internal(_))));
}

#[test]
fn session_on_an_active_backend_of_known_size() {
    let log = Rc::new(RefCell::new(Log::default()));
    let backend = Scripted::new("first", &log, Size::new(80, 24));
    let terminal = Terminal::with_size(Box::new(backend), Size::new(3, 2));
    assert!(log.borrow().calls.is_empty());
    assert_eq!(terminal.size_get(), Size::new(3, 2));
    assert_eq!(glyph_at(&terminal, 2, 1), Some(' '));
}

#[test]
fn resize_event_finds_the_buffer_resized() {
    let log = Rc::new(RefCell::new(Log::default()));
    let mut terminal = session(&log, vec![IEvent::Resize(Size::new(40, 24))]);
    terminal.draw(region(0, 0, 1, 1), &cells("#")).unwrap();
    assert_eq!(terminal.size_get(), Size::new(80, 24));

    let event = terminal.read_event().unwrap();
    // The caller sees the event only now, and the buffer has its new size.
    assert_eq!(event, Some(IEvent::Resize(Size::new(40, 24))));
    assert_eq!(terminal.size_get(), Size::new(40, 24));
    assert_eq!(terminal.buffer().size(), Size::new(40, 24));
    assert_eq!(glyph_at(&terminal, 0, 0), Some('#'));
    assert_eq!(glyph_at(&terminal, 40, 0), None);
    assert!(matches!(
        terminal.draw(region(40, 0, 1, 1), &cells("x")),
        Err(BError::OutOfBounds)
    ));
}

#[test]
fn other_events_leave_the_buffer_alone() {
    let log = Rc::new(RefCell::new(Log::default()));
    let key = IEvent::Key(KeyModifiers::control(), Key::Char('q'));
    let mut terminal =
        session(&log, vec![key.clone(), IEvent::Paste(String::from("text")), IEvent::FocusLost]);
    terminal.draw(region(0, 0, 1, 1), &cells("#")).unwrap();
    assert_eq!(terminal.read_event().unwrap(), Some(key));
    assert_eq!(terminal.read_event().unwrap(), Some(IEvent::Paste(String::from("text"))));
    assert_eq!(terminal.read_event().unwrap(), Some(IEvent::FocusLost));
    assert_eq!(terminal.read_event().unwrap(), None);
    assert_eq!(terminal.size_get(), Size::new(80, 24));
    assert_eq!(glyph_at(&terminal, 0, 0), Some('#'));
}

#[test]
fn observed_poll_results_are_handed_on() {
    let log = Rc::new(RefCell::new(Log::default()));
    let mut terminal = session(&log, vec![]);
    let failed = terminal.observe(Err(BError::NoBackend));
    assert!(matches!(failed, Err(BError::NoBackend)));
    assert_eq!(terminal.size_get(), Size::new(80, 24));
    let resized = terminal.observe(Ok(Some(IEvent::Resize(Size::new(10, 5)))));
    assert_eq!(resized.unwrap(), Some(IEvent::Resize(Size::new(10, 5))));
    assert_eq!(terminal.size_get(), Size::new(10, 5));
    assert_eq!(terminal.observe(Ok(None)).unwrap(), None);
    assert_eq!(terminal.size_get(), Size::new(10, 5));
}

#[test]
fn draw_sends_exactly_the_changes() {
    let log = Rc::new(RefCell::new(Log::default()));
    let mut terminal = session(&log, vec![]);
    terminal.draw(region(10, 5, 3, 2), &cells("ab cd ")).unwrap();
    assert_eq!(
        log.borrow().drawn,
        vec![vec![
            (Point::new(10, 5), Cell::new('a')),
            (Point::new(11, 5), Cell::new('b')),
            (Point::new(10, 6), Cell::new('c')),
            (Point::new(11, 6), Cell::new('d')),
        ]]
    );
    assert_eq!(glyph_at(&terminal, 11, 6), Some('d'));
    terminal.draw(region(10, 5, 3, 2), &cells("ab cX ")).unwrap();
    assert_eq!(log.borrow().drawn[1], vec![(Point::new(11, 6), Cell::new('X'))]);
}

#[test]
fn draw_without_a_change_sends_nothing() {
    let log = Rc::new(RefCell::new(Log::default()));
    let mut terminal = session(&log, vec![]);
    terminal.draw(region(0, 0, 2, 1), &cells("hi")).unwrap();
    terminal.draw(region(0, 0, 2, 1), &cells("hi")).unwrap();
    terminal.draw(region(5, 5, 2, 2), &cells("    ")).unwrap();
    assert_eq!(log.borrow().count("first.draw_at"), 1);
}

#[test]
fn draw_beyond_the_screen_fails_and_changes_nothing() {
    let log = Rc::new(RefCell::new(Log::default()));
    let mut terminal = session(&log, vec![]);
    terminal.draw(region(78, 22, 2, 2), &cells("abcd")).unwrap();
    let r = terminal.draw(region(79, 23, 5, 5), &vec![Cell::new('x'); 25]);
    assert!(matches!(r, Err(BError::OutOfBounds)));
    assert_eq!(log.borrow().count("first.draw_at"), 1);
    assert_eq!(glyph_at(&terminal, 79, 23), Some('d'));
    assert_eq!(glyph_at(&terminal, 78, 22), Some('a'));
    assert_eq!(terminal.size_get(), Size::new(80, 24));
}

#[test]
fn draw_of_the_wrong_length_fails_and_changes_nothing() {
    let log = Rc::new(RefCell::new(Log::default()));
    let mut terminal = session(&log, vec![]);
    let r = terminal.draw(region(0, 0, 2, 2), &cells("abc"));
    assert!(matches!(r, Err(BError::ContentLength)));
    assert_eq!(log.borrow().count("first.draw_at"), 0);
    assert_eq!(glyph_at(&terminal, 0, 0), Some(' '));
}

#[test]
fn a_failing_device_fails_the_draw() {
    let log = Rc::new(RefCell::new(Log::default()));
    let mut backend = Scripted::new("first", &log, Size::new(4, 4));
    backend.fail_draw = true;
    let mut terminal = Terminal::new(Some(Box::new(backend))).unwrap();
    let r = terminal.draw(region(0, 0, 1, 1), &cells("x"));
    assert!(matches!(r, Err(BError::Internal(_))));
    // The frame is committed all the same.
    assert_eq!(glyph_at(&terminal, 0, 0), Some('x'));
}

#[test]
fn update_and_flush_reach_the_backend() {
    let log = Rc::new(RefCell::new(Log::default()));
    let mut terminal = session(&log, vec![]);
    terminal.update().unwrap();
    terminal.flush().unwrap();
    assert_eq!(log.borrow().count("first.refresh"), 2);
}

#[test]
fn cursor_and_title_reach_the_backend() {
    let log = Rc::new(RefCell::new(Log::default()));
    let mut terminal = session(&log, vec![]);
    terminal.cursor_hide().unwrap();
    terminal.cursor_show().unwrap();
    terminal.cursor_position(7, 3).unwrap();
    terminal.set_title("Document").unwrap();
    terminal.deinit().unwrap();
    terminal.init().unwrap();
    assert_eq!(
        log.borrow().calls[2..],
        [
            "first.cursor_hide",
            "first.cursor_show",
            "first.cursor_set(7,3)",
            "first.set_title(Document)",
            "first.deinit",
            "first.init"
        ]
    );
}

#[test]
fn swapped_backend_gets_every_later_call() {
    let log = Rc::new(RefCell::new(Log::default()));
    let mut terminal = session(&log, vec![IEvent::FocusGained]);
    terminal.draw(region(0, 0, 1, 1), &cells("#")).unwrap();

    let mut custom = Scripted::new("custom", &log, Size::new(10, 10));
    custom.events.push_back(IEvent::FocusLost);
    terminal.set_backend(Box::new(custom)).unwrap();
    let swapped_at = log.borrow().calls.len();
    assert_eq!(log.borrow().calls[swapped_at - 2..], ["first.deinit", "custom.init"]);

    assert_eq!(terminal.read_event().unwrap(), Some(IEvent::FocusLost));
    terminal.draw(region(1, 0, 1, 1), &cells("x")).unwrap();
    terminal.update().unwrap();

    let log = log.borrow();
    assert_eq!(
        log.calls[swapped_at..],
        ["custom.read_event", "custom.draw_at", "custom.refresh"]
    );
    assert_eq!(log.count("first.deinit"), 1);
    assert_eq!(log.count("custom.init"), 1);
    assert_eq!(log.count("custom.deinit"), 0);
    // The frame buffer outlives the swap.
    assert_eq!(glyph_at(&terminal, 0, 0), Some('#'));
    assert_eq!(terminal.size_get(), Size::new(80, 24));
}

#[test]
fn set_custom_swaps_like_set_backend() {
    let log = Rc::new(RefCell::new(Log::default()));
    let mut terminal = session(&log, vec![]);
    let custom = Scripted::new("custom", &log, Size::new(10, 10));
    terminal.set_custom(Box::new(custom)).unwrap();
    terminal.flush().unwrap();
    assert_eq!(
        log.borrow().calls[2..],
        ["first.deinit", "custom.init", "custom.refresh"]
    );
}

#[test]
fn swap_reports_the_first_failure_and_still_swaps() {
    let log = Rc::new(RefCell::new(Log::default()));
    let mut first = Scripted::new("first", &log, Size::new(4, 4));
    first.fail_deinit = true;
    let mut terminal = Terminal::new(Some(Box::new(first))).unwrap();
    let custom = Scripted::new("custom", &log, Size::new(4, 4));
    assert!(matches!(terminal.set_backend(Box::new(custom)), Err(BError::Internal(_))));
    terminal.flush().unwrap();
    assert_eq!(log.borrow().count("custom.init"), 1);
    assert_eq!(log.borrow().count("custom.refresh"), 1);
}

#[test]
fn swap_outcome_is_the_first_failure() {
    assert!(matches!(Terminal::swap_outcome(Ok(()), Ok(())), Ok(())));
    assert!(matches!(
        Terminal::swap_outcome(Err(BError::NoBackend), Ok(())),
        Err(BError::NoBackend)
    ));
    assert!(matches!(
        Terminal::swap_outcome(Ok(()), Err(BError::OutOfBounds)),
        Err(BError::OutOfBounds)
    ));
    assert!(matches!(
        Terminal::swap_outcome(Err(BError::NoBackend), Err(BError::OutOfBounds)),
        Err(BError::NoBackend)
    ));
}

#[test]
fn resize_event_with_the_same_size_keeps_every_cell() {
    let log = Rc::new(RefCell::new(Log::default()));
    let mut terminal = session(&log, vec![IEvent::Resize(Size::new(80, 24))]);
    terminal.draw(region(79, 23, 1, 1), &cells("#")).unwrap();
    assert_eq!(terminal.read_event().unwrap(), Some(IEvent::Resize(Size::new(80, 24))));
    assert_eq!(terminal.size_get(), Size::new(80, 24));
    assert_eq!(glyph_at(&terminal, 79, 23), Some('#'));
}

#[test]
fn clear_screen_blanks_the_buffer_too() {
    let log = Rc::new(RefCell::new(Log::default()));
    let mut terminal = session(&log, vec![]);
    terminal.draw(region(0, 0, 1, 1), &cells("#")).unwrap();
    terminal.clear_screen().unwrap();
    assert_eq!(log.borrow().count("first.screen_clear"), 1);
    assert_eq!(glyph_at(&terminal, 0, 0), Some(' '));
    assert_eq!(terminal.size_get(), Size::new(80, 24));
    // The same frame is a change again.
    terminal.draw(region(0, 0, 1, 1), &cells("#")).unwrap();
    assert_eq!(log.borrow().count("first.draw_at"), 2);
}

#[test]
fn names_are_reachable_from_the_crate_root() {
    let event: umbra::IEvent = umbra::IEvent::Key(umbra::KeyModifiers::none(), umbra::Key::Esc);
    assert_eq!(event, IEvent::Key(KeyModifiers::none(), Key::Esc));
    let r: umbra::UResult<()> = Err(umbra::UError::from(umbra::BError::NoBackend));
    assert!(r.is_err());
}
