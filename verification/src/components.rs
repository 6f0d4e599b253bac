//! How an element of the interface wants to be laid out and decorated.

use vstd::prelude::*;
use crate::geometry::Point;

verus! {

/// The line that an element's border is drawn with.
#[derive(Clone, Copy, Debug, PartialEq, Eq, Structural)]
pub enum BorderStyle {
    NoBorder,
    Single,
    Rounded,
    Double,
    Thick,
}

impl Default for BorderStyle {
    fn default() -> (style: Self)
        ensures
            style == BorderStyle::NoBorder,
    {
        BorderStyle::NoBorder
    }
}

/// Where an element is aligned to, from top to bottom.
#[derive(Clone, Copy, Debug, PartialEq, Eq, Structural)]
pub enum VerticalAlign {
    Top,
    Center,
    Bottom,
}

impl Default for VerticalAlign {
    fn default() -> (align: Self)
        ensures
            align == VerticalAlign::Center,
    {
        VerticalAlign::Center
    }
}

/// Where an element is aligned to, from left to right.
#[derive(Clone, Copy, Debug, PartialEq, Eq, Structural)]
pub enum HorizontalAlign {
    Left,
    Center,
    Right,
}

impl Default for HorizontalAlign {
    fn default() -> (align: Self)
        ensures
            align == HorizontalAlign::Center,
    {
        HorizontalAlign::Center
    }
}

/// How an element takes its place on the screen.
#[derive(Clone, Copy, Debug, PartialEq, Eq, Structural)]
pub enum ElementMode {
    /// Fullscreen: one main element at a time fills the screen.
    Monocle,
    /// Bound by neither tiling nor alignment.
    Floating,
    /// Bound to a tiling layout.
    Tiled,
    /// At a fixed position.
    Static,
    /// Aligned to a section of the screen.
    Aligned(VerticalAlign, HorizontalAlign),
}

impl Default for ElementMode {
    fn default() -> (mode: Self)
        ensures
            mode == ElementMode::Monocle,
    {
        ElementMode::Monocle
    }
}

#[derive(Clone, Copy, Debug, PartialEq, Eq, Structural)]
pub enum Visibility {
    Visible,
    Invisible,
}

impl Default for Visibility {
    fn default() -> (visibility: Self)
        ensures
            visibility == Visibility::Visible,
    {
        Visibility::Visible
    }
}

/// Where an element is moved to.
#[derive(Clone, Copy, Debug, PartialEq, Eq, Structural)]
pub enum Offset {
    /// Not moved at all.
    Zero,
    /// Relative to the parent or the layout.
    Relative(Point),
    /// From the top-left corner of the screen.
    Absolute(Point),
}

impl Default for Offset {
    fn default() -> (offset: Self)
        ensures
            offset == Offset::Zero,
    {
        Offset::Zero
    }
}

/// A width on each of the four sides of an element.
#[derive(Clone, Copy, Debug, PartialEq, Eq, Structural)]
pub struct Direction {
    /// Top.
    pub t: u16,
    /// Bottom.
    pub b: u16,
    /// Left.
    pub l: u16,
    /// Right.
    pub r: u16,
}

impl Default for Direction {
    fn default() -> (sides: Self)
        ensures
            sides == (Direction { t: 0, b: 0, l: 0, r: 0 }),
    {
        Direction { t: 0, b: 0, l: 0, r: 0 }
    }
}

/// The space between an element's border and its content.
pub type Padding = Direction;

/// The space between an element's border and its neighbours.
pub type Margin = Direction;

/// How an element gets its size.
#[derive(Clone, Copy, Debug, PartialEq, Eq, Structural)]
pub enum Sizing {
    /// Sized by the tiling layout.
    Dynamic,
    /// Of a fixed size, whatever the constraints.
    Static(crate::geometry::Size),
    /// Resizable within the constraints.
    Flexible(crate::geometry::Size),
}

impl Default for Sizing {
    fn default() -> (sizing: Self)
        ensures
            sizing == Sizing::Dynamic,
    {
        Sizing::Dynamic
    }
}

/// Marks an element that takes part in events of interaction.
#[derive(Clone, Copy, Debug, Default, PartialEq, Eq, Structural)]
pub struct Interactable;

/// Marks an element that can gain focus.
#[derive(Clone, Copy, Debug, Default, PartialEq, Eq, Structural)]
pub struct Focusable;

#[derive(Clone, Copy, Debug, PartialEq, Eq, Structural)]
pub struct Visible(pub Visibility);

impl Default for Visible {
    fn default() -> (visible: Self)
        ensures
            visible == Visible(Visibility::Visible),
    {
        Visible(Visibility::Visible)
    }
}

#[derive(Clone, Copy, Debug, PartialEq, Eq, Structural)]
pub struct Size(pub Sizing);

impl Default for Size {
    fn default() -> (size: Self)
        ensures
            size == Size(Sizing::Dynamic),
    {
        Size(Sizing::Dynamic)
    }
}

/// Whether, and how, an element is drawn with a border.
#[derive(Clone, Copy, Debug, PartialEq, Eq, Structural)]
pub struct Border(pub BorderStyle);

impl Default for Border {
    fn default() -> (border: Self)
        ensures
            border == Border(BorderStyle::NoBorder),
    {
        Border(BorderStyle::NoBorder)
    }
}

/// The title of an element.
#[derive(Clone, Debug)]
pub struct Title(String);

impl View for Title {
    type V = Seq<char>;

    closed spec fn view(&self) -> Seq<char> {
        self.0@
    }
}

impl Title {
    pub fn new(title: String) -> (t: Self)
        ensures
            t@ == title@,
    {
        Title(title)
    }

    pub fn as_str(&self) -> (s: &str)
        ensures
            s@ == self@,
    {
        self.0.as_str()
    }
}

impl std::ops::Deref for Title {
    type Target = str;

    fn deref(&self) -> (s: &str)
        ensures
            s@ == self@,
    {
        self.0.as_str()
    }
}

/// The decoration that an element usually has.
#[derive(Clone, Copy, Debug, PartialEq, Eq, Structural)]
pub struct ElementStyleBundle {
    pub border: Border,
    pub padding: Padding,
    pub margin: Margin,
}

impl Default for ElementStyleBundle {
    fn default() -> (bundle: Self)
        ensures
            bundle == (ElementStyleBundle {
                border: Border(BorderStyle::NoBorder),
                padding: Direction { t: 0, b: 0, l: 0, r: 0 },
                margin: Direction { t: 0, b: 0, l: 0, r: 0 },
            }),
    {
        ElementStyleBundle {
            border: Border::default(),
            padding: Direction::default(),
            margin: Direction::default(),
        }
    }
}

/// The layout that an element usually has.
#[derive(Clone, Copy, Debug, PartialEq, Eq, Structural)]
pub struct ElementBundle {
    pub visible: Visible,
    pub mode: ElementMode,
    pub offset: Offset,
    pub size: Size,
}

impl Default for ElementBundle {
    fn default() -> (bundle: Self)
        ensures
            bundle == (ElementBundle {
                visible: Visible(Visibility::Visible),
                mode: ElementMode::Monocle,
                offset: Offset::Zero,
                size: Size(Sizing::Dynamic),
            }),
    {
        ElementBundle {
            visible: Visible::default(),
            mode: ElementMode::default(),
            offset: Offset::default(),
            size: Size::default(),
        }
    }
}

} // verus!
