//! The portable model of terminal input.

use vstd::prelude::*;
use crate::geometry::{Point, Size};

verus! {

/// The set of modifier keys held down with a key press, as a set of bits.
#[derive(Clone, Copy, Debug, PartialEq, Eq, Structural)]
pub struct KeyModifiers {
    bits: u8,
}

impl View for KeyModifiers {
    type V = u8;

    closed spec fn view(&self) -> u8 {
        self.bits
    }
}

/// The bit of the Shift modifier.
pub const SHIFT: u8 = 0b0000_0001;

/// The bit of the Control modifier.
pub const CONTROL: u8 = 0b0000_0010;

/// The bit of the Alt modifier.
pub const ALT: u8 = 0b0000_0100;

/// The bit of the Super modifier.
pub const SUPER: u8 = 0b0000_1000;

/// The bit of the Hyper modifier.
pub const HYPER: u8 = 0b0001_0000;

/// The bit of the Meta modifier.
pub const META: u8 = 0b0010_0000;

/// No modifier: no bit.
pub const NONE: u8 = 0b0000_0000;

impl KeyModifiers {
    /// Only the six bits that stand for a modifier are ever set.
    #[verifier::type_invariant]
    closed spec fn known(self) -> bool {
        self.bits <= 0x3F
    }

    /// Whether a bit pattern has no bit set but those of the six modifiers.
    pub open spec fn valid(bits: u8) -> bool {
        bits <= 0x3F
    }

    /// The set that a valid bit pattern stands for.
    pub closed spec fn of(bits: u8) -> KeyModifiers {
        KeyModifiers { bits }
    }

    /// The set that a device's bit pattern is read as: the pattern itself
    /// where it is valid, the empty set where it is not.
    pub open spec fn read(bits: u8) -> KeyModifiers {
        if KeyModifiers::valid(bits) {
            KeyModifiers::of(bits)
        } else {
            KeyModifiers::of(NONE)
        }
    }

    /// The modifiers that are in either of two sets.
    pub closed spec fn joined(self, other: KeyModifiers) -> KeyModifiers {
        KeyModifiers { bits: self.bits | other.bits }
    }

    /// The set that holds the Shift modifier alone.
    pub fn shift() -> (m: KeyModifiers)
        ensures
            m == KeyModifiers::of(SHIFT),
            m@ == SHIFT,
    {
        KeyModifiers { bits: SHIFT }
    }

    /// The set that holds the Control modifier alone.
    pub fn control() -> (m: KeyModifiers)
        ensures
            m == KeyModifiers::of(CONTROL),
            m@ == CONTROL,
    {
        KeyModifiers { bits: CONTROL }
    }

    /// The set that holds the Alt modifier alone.
    pub fn alt() -> (m: KeyModifiers)
        ensures
            m == KeyModifiers::of(ALT),
            m@ == ALT,
    {
        KeyModifiers { bits: ALT }
    }

    /// The set that holds the Super modifier alone.
    pub fn super_key() -> (m: KeyModifiers)
        ensures
            m == KeyModifiers::of(SUPER),
            m@ == SUPER,
    {
        KeyModifiers { bits: SUPER }
    }

    /// The set that holds the Hyper modifier alone.
    pub fn hyper() -> (m: KeyModifiers)
        ensures
            m == KeyModifiers::of(HYPER),
            m@ == HYPER,
    {
        KeyModifiers { bits: HYPER }
    }

    /// The set that holds the Meta modifier alone.
    pub fn meta() -> (m: KeyModifiers)
        ensures
            m == KeyModifiers::of(META),
            m@ == META,
    {
        KeyModifiers { bits: META }
    }

    /// The empty set.
    pub fn none() -> (m: KeyModifiers)
        ensures
            m == KeyModifiers::of(NONE),
            m@ == NONE,
    {
        KeyModifiers { bits: NONE }
    }

    /// The bits of the set.
    pub fn bits(&self) -> (bits: u8)
        ensures
            bits == self@,
            KeyModifiers::valid(bits),
            *self == KeyModifiers::of(bits),
    {
        proof {
            use_type_invariant(self);
        }
        self.bits
    }

    /// The set for a bit pattern, if no unknown bit is set in it.
    pub fn from_bits(bits: u8) -> (m: Option<KeyModifiers>)
        ensures
            m == if KeyModifiers::valid(bits) {
                Some(KeyModifiers::of(bits))
            } else {
                None
            },
            m matches Some(k) ==> k@ == bits,
    {
        if bits <= 0x3F {
            Some(KeyModifiers { bits })
        } else {
            None
        }
    }

    /// Reads the modifier bits of a device: a pattern with an unknown bit
    /// stands for no modifier at all.
    pub fn from_raw(bits: u8) -> (m: KeyModifiers)
        ensures
            m == KeyModifiers::read(bits),
            m@ == if KeyModifiers::valid(bits) {
                bits
            } else {
                0u8
            },
    {
        match KeyModifiers::from_bits(bits) {
            Some(m) => m,
            None => KeyModifiers::none(),
        }
    }

    pub fn is_empty(&self) -> (b: bool)
        ensures
            b == (self@ == 0),
            b == (*self == KeyModifiers::of(NONE)),
    {
        self.bits == 0
    }

    /// Whether every modifier of `other` is in this set.
    pub fn contains(&self, other: KeyModifiers) -> (b: bool)
        ensures
            b == (self@ & other@ == other@),
    {
        self.bits & other.bits == other.bits
    }

    /// The modifiers that are in this set or in `other`.
    pub fn union(self, other: KeyModifiers) -> (m: KeyModifiers)
        ensures
            m == self.joined(other),
            m@ == self@ | other@,
    {
        proof {
            use_type_invariant(self);
            use_type_invariant(other);
            let a = self.bits;
            let b = other.bits;
            assert(a | b <= 0x3F) by (bit_vector)
                requires
                    a <= 0x3F,
                    b <= 0x3F,
            ;
        }
        KeyModifiers { bits: self.bits | other.bits }
    }
}

impl std::ops::BitOr for KeyModifiers {
    type Output = KeyModifiers;

    /// The modifiers that are in either set.
    fn bitor(self, other: KeyModifiers) -> (m: KeyModifiers)
        ensures
            m == self.joined(other),
    {
        self.union(other)
    }
}

impl vstd::std_specs::ops::BitOrSpecImpl for KeyModifiers {
    open spec fn obeys_bitor_spec() -> bool {
        true
    }

    open spec fn bitor_req(self, other: KeyModifiers) -> bool {
        true
    }

    open spec fn bitor_spec(self, other: KeyModifiers) -> KeyModifiers {
        self.joined(other)
    }
}

impl Default for KeyModifiers {
    fn default() -> (m: Self)
        ensures
            m == KeyModifiers::of(NONE),
    {
        KeyModifiers::none()
    }
}

/// Two sets of modifiers are equal exactly if their bits are.
pub proof fn lemma_modifiers_by_bits(a: KeyModifiers, b: KeyModifiers)
    ensures
        (a == b) == (a@ == b@),
        KeyModifiers::of(a@) == a,
        forall|bits: u8| (#[trigger] KeyModifiers::of(bits))@ == bits,
        a.joined(b)@ == a@ | b@,
{
}

/// The empty set joined with any set, on either side, is that set.
pub proof fn lemma_none_is_identity(m: KeyModifiers)
    ensures
        KeyModifiers::of(NONE).joined(m) == m,
        m.joined(KeyModifiers::of(NONE)) == m,
{
    let b = m.bits;
    assert(0u8 | b == b && b | 0u8 == b) by (bit_vector);
}

/// Two sets of modifiers neither of which holds all of the other join to a
/// set that is neither of the two, nor the empty set.
pub proof fn lemma_joined_is_new(a: KeyModifiers, b: KeyModifiers)
    requires
        a@ & b@ != b@,
        b@ & a@ != a@,
    ensures
        a.joined(b) != a,
        a.joined(b) != b,
        a.joined(b) != KeyModifiers::of(NONE),
{
    let x = a.bits;
    let y = b.bits;
    assert((x | y) != x && (x | y) != y && (x | y) != 0u8) by (bit_vector)
        requires
            x & y != y,
            y & x != x,
    ;
}

/// Shift and Control joined are a set that is neither Shift, nor Control, nor
/// the empty set.
pub proof fn lemma_shift_control_distinct()
    ensures
        KeyModifiers::of(SHIFT).joined(KeyModifiers::of(CONTROL)) != KeyModifiers::of(SHIFT),
        KeyModifiers::of(SHIFT).joined(KeyModifiers::of(CONTROL)) != KeyModifiers::of(CONTROL),
        KeyModifiers::of(SHIFT).joined(KeyModifiers::of(CONTROL)) != KeyModifiers::of(NONE),
        KeyModifiers::of(SHIFT).joined(KeyModifiers::of(CONTROL)) == KeyModifiers::of(0x03),
{
    assert(0x01u8 & 0x02u8 != 0x02u8 && 0x02u8 & 0x01u8 != 0x01u8 && 0x01u8 | 0x02u8 == 0x03u8)
        by (bit_vector);
    lemma_joined_is_new(KeyModifiers::of(SHIFT), KeyModifiers::of(CONTROL));
}

/// A media key.
#[derive(Clone, Copy, Debug, PartialEq, Eq, Structural)]
pub enum MediaKey {
    Next,
    Previous,
    FastForward,
    Rewind,
    Stop,
    PlayPause,
    VolumeMute,
    VolumeUp,
    VolumeDown,
    BrightnessDown,
    BrightnessUp,
    KbdIllumToggle,
    KbdIllumDown,
    KbdIllumUp,
}

/// A key of the keyboard.
#[derive(Clone, Copy, Debug, PartialEq, Eq, Structural)]
pub enum Key {
    Char(char),
    F(u8),
    Backspace,
    Delete,
    Left,
    Down,
    Up,
    Right,
    Home,
    End,
    PageUp,
    PageDown,
    Tab,
    BackTab,
    Enter,
    Insert,
    Esc,
    Null,
    CapsLock,
    ScrollLock,
    NumLock,
    PrintScreen,
    Pause,
    Menu,
    KeypadBegin,
    Media(MediaKey),
}

/// An input event.
#[derive(Clone, Debug, PartialEq, Eq)]
pub enum IEvent {
    /// A key was pressed, with these modifiers held down.
    Key(KeyModifiers, Key),
    /// The mouse pointer is at this position.
    Mouse(Point),
    /// The terminal has this size now.
    Resize(Size),
    /// This text was pasted.
    Paste(String),
    FocusGained,
    FocusLost,
}

/// A media key as a terminal device reports it.
#[derive(Clone, Copy, Debug, PartialEq, Eq, Structural)]
pub enum RawMediaKey {
    Play,
    Pause,
    PlayPause,
    Reverse,
    Stop,
    FastForward,
    Rewind,
    TrackNext,
    TrackPrevious,
    Record,
    LowerVolume,
    RaiseVolume,
    MuteVolume,
}

/// A key code as a terminal device reports it.
#[derive(Clone, Copy, Debug, PartialEq, Eq, Structural)]
pub enum RawKey {
    Backspace,
    Enter,
    Left,
    Right,
    Up,
    Down,
    Home,
    End,
    PageUp,
    PageDown,
    Tab,
    BackTab,
    Delete,
    Insert,
    F(u8),
    Char(char),
    Null,
    Esc,
    CapsLock,
    ScrollLock,
    NumLock,
    PrintScreen,
    Pause,
    Menu,
    KeypadBegin,
    Media(RawMediaKey),
    /// A modifier key pressed by itself.
    Modifier,
}

/// An input primitive as a terminal device reports it.
#[derive(Clone, Debug, PartialEq, Eq)]
pub enum RawEvent {
    Key { modifiers: u8, code: RawKey },
    Mouse { column: u16, row: u16 },
    Resize { columns: u16, rows: u16 },
    Paste(String),
    FocusGained,
    FocusLost,
}

impl MediaKey {
    /// The media key that a device's code stands for. The codes for play,
    /// pause, reverse and record stand for none.
    pub open spec fn of(raw: RawMediaKey) -> Option<MediaKey> {
        match raw {
            RawMediaKey::TrackNext => Some(MediaKey::Next),
            RawMediaKey::TrackPrevious => Some(MediaKey::Previous),
            RawMediaKey::FastForward => Some(MediaKey::FastForward),
            RawMediaKey::Rewind => Some(MediaKey::Rewind),
            RawMediaKey::Stop => Some(MediaKey::Stop),
            RawMediaKey::PlayPause => Some(MediaKey::PlayPause),
            RawMediaKey::MuteVolume => Some(MediaKey::VolumeMute),
            RawMediaKey::RaiseVolume => Some(MediaKey::VolumeUp),
            RawMediaKey::LowerVolume => Some(MediaKey::VolumeDown),
            RawMediaKey::Play => None,
            RawMediaKey::Pause => None,
            RawMediaKey::Reverse => None,
            RawMediaKey::Record => None,
        }
    }

    pub fn from_raw(raw: RawMediaKey) -> (key: Option<MediaKey>)
        ensures
            key == MediaKey::of(raw),
    {
        match raw {
            RawMediaKey::TrackNext => Some(MediaKey::Next),
            RawMediaKey::TrackPrevious => Some(MediaKey::Previous),
            RawMediaKey::FastForward => Some(MediaKey::FastForward),
            RawMediaKey::Rewind => Some(MediaKey::Rewind),
            RawMediaKey::Stop => Some(MediaKey::Stop),
            RawMediaKey::PlayPause => Some(MediaKey::PlayPause),
            RawMediaKey::MuteVolume => Some(MediaKey::VolumeMute),
            RawMediaKey::RaiseVolume => Some(MediaKey::VolumeUp),
            RawMediaKey::LowerVolume => Some(MediaKey::VolumeDown),
            _ => None,
        }
    }
}

impl Key {
    /// The key that a device's code stands for: the key of the same name, the
    /// null key for a modifier pressed by itself, and none for a media code
    /// that stands for no media key.
    pub open spec fn of(raw: RawKey) -> Option<Key> {
        match raw {
            RawKey::Char(c) => Some(Key::Char(c)),
            RawKey::F(n) => Some(Key::F(n)),
            RawKey::Backspace => Some(Key::Backspace),
            RawKey::Delete => Some(Key::Delete),
            RawKey::Left => Some(Key::Left),
            RawKey::Down => Some(Key::Down),
            RawKey::Up => Some(Key::Up),
            RawKey::Right => Some(Key::Right),
            RawKey::Home => Some(Key::Home),
            RawKey::End => Some(Key::End),
            RawKey::PageUp => Some(Key::PageUp),
            RawKey::PageDown => Some(Key::PageDown),
            RawKey::Tab => Some(Key::Tab),
            RawKey::BackTab => Some(Key::BackTab),
            RawKey::Enter => Some(Key::Enter),
            RawKey::Insert => Some(Key::Insert),
            RawKey::Esc => Some(Key::Esc),
            RawKey::Null => Some(Key::Null),
            RawKey::CapsLock => Some(Key::CapsLock),
            RawKey::ScrollLock => Some(Key::ScrollLock),
            RawKey::NumLock => Some(Key::NumLock),
            RawKey::PrintScreen => Some(Key::PrintScreen),
            RawKey::Pause => Some(Key::Pause),
            RawKey::Menu => Some(Key::Menu),
            RawKey::KeypadBegin => Some(Key::KeypadBegin),
            RawKey::Media(m) => match MediaKey::of(m) {
                Some(media) => Some(Key::Media(media)),
                None => None,
            },
            RawKey::Modifier => Some(Key::Null),
        }
    }

    pub fn from_raw(raw: RawKey) -> (key: Option<Key>)
        ensures
            key == Key::of(raw),
    {
        let key = match raw {
            RawKey::Char(c) => Key::Char(c),
            RawKey::F(n) => Key::F(n),
            RawKey::Backspace => Key::Backspace,
            RawKey::Delete => Key::Delete,
            RawKey::Left => Key::Left,
            RawKey::Down => Key::Down,
            RawKey::Up => Key::Up,
            RawKey::Right => Key::Right,
            RawKey::Home => Key::Home,
            RawKey::End => Key::End,
            RawKey::PageUp => Key::PageUp,
            RawKey::PageDown => Key::PageDown,
            RawKey::Tab => Key::Tab,
            RawKey::BackTab => Key::BackTab,
            RawKey::Enter => Key::Enter,
            RawKey::Insert => Key::Insert,
            RawKey::Esc => Key::Esc,
            RawKey::Null => Key::Null,
            RawKey::CapsLock => Key::CapsLock,
            RawKey::ScrollLock => Key::ScrollLock,
            RawKey::NumLock => Key::NumLock,
            RawKey::PrintScreen => Key::PrintScreen,
            RawKey::Pause => Key::Pause,
            RawKey::Menu => Key::Menu,
            RawKey::KeypadBegin => Key::KeypadBegin,
            RawKey::Media(m) => match MediaKey::from_raw(m) {
                Some(media) => Key::Media(media),
                None => {
                    return None;
                },
            },
            RawKey::Modifier => Key::Null,
        };
        Some(key)
    }
}

impl IEvent {
    /// The event that a device's input primitive stands for: none for a
    /// press of a key that stands for no key, and else the event of the same
    /// kind.
    pub open spec fn of(raw: RawEvent) -> Option<IEvent> {
        match raw {
            RawEvent::Key { modifiers, code } => match Key::of(code) {
                Some(key) => Some(IEvent::Key(KeyModifiers::read(modifiers), key)),
                None => None,
            },
            RawEvent::Mouse { column, row } => Some(IEvent::Mouse(Point { x: column, y: row })),
            RawEvent::Resize { columns, rows } => Some(IEvent::Resize(Size { x: columns, y: rows })),
            RawEvent::Paste(text) => Some(IEvent::Paste(text)),
            RawEvent::FocusGained => Some(IEvent::FocusGained),
            RawEvent::FocusLost => Some(IEvent::FocusLost),
        }
    }

    pub fn from_raw(raw: RawEvent) -> (event: Option<IEvent>)
        ensures
            event == IEvent::of(raw),
    {
        match raw {
            RawEvent::Key { modifiers, code } => match Key::from_raw(code) {
                Some(key) => Some(IEvent::Key(KeyModifiers::from_raw(modifiers), key)),
                None => None,
            },
            RawEvent::Mouse { column, row } => Some(IEvent::Mouse(Point { x: column, y: row })),
            RawEvent::Resize { columns, rows } => Some(IEvent::Resize(Size { x: columns, y: rows })),
            RawEvent::Paste(text) => Some(IEvent::Paste(text)),
            RawEvent::FocusGained => Some(IEvent::FocusGained),
            RawEvent::FocusLost => Some(IEvent::FocusLost),
        }
    }
}

} // verus!
