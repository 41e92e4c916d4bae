//! What the detector asks of the desktop, and what the desktop answers.
//!
//! Handles are plain numbers, zero being the null handle. Coordinates that the
//! desktop reports as floating point arrive truncated toward zero.

use vstd::prelude::*;

verus! {

/// Style bit of a composition form that is positioned at a point.
pub const CFS_POINT: u32 = 2;

/// A rectangle in the coordinates of the window that owns it.
#[derive(Debug, Clone, Copy, PartialEq, Eq, Structural)]
pub struct Rect {
    pub left: i32,
    pub top: i32,
    pub right: i32,
    pub bottom: i32,
}

impl Rect {
    /// The distance from the top edge to the bottom edge.
    pub open spec fn height(self) -> int {
        self.bottom - self.top
    }

    /// The height can be held in a pixel coordinate.
    pub open spec fn measurable(self) -> bool {
        i32::MIN <= self.height() <= i32::MAX
    }

    /// Tests whether the height can be held in a pixel coordinate.
    pub fn is_measurable(&self) -> (b: bool)
        ensures
            b == self.measurable(),
    {
        let h: i64 = self.bottom as i64 - self.top as i64;
        -0x8000_0000i64 <= h && h <= 0x7fff_ffffi64
    }
}

/// The input state of the thread that owns the foreground window.
#[derive(Debug, Clone, Copy, PartialEq, Eq, Structural)]
pub struct GuiThreadInfo {
    pub hwnd_active: isize,
    pub hwnd_focus: isize,
    pub hwnd_caret: isize,
    pub rc_caret: Rect,
}

/// The first quadruple of a bounding-rectangle array.
#[derive(Debug, Clone, Copy, PartialEq, Eq, Structural)]
pub struct Quad {
    pub left: i32,
    pub top: i32,
    pub width: i32,
    pub height: i32,
}

/// The composition form of the foreground window's input context.
#[derive(Debug, Clone, Copy, PartialEq, Eq, Structural)]
pub struct CompositionForm {
    pub window: isize,
    pub style: u32,
    pub x: i32,
    pub y: i32,
}

/// How far the query for the caret range of the focused element came.
#[derive(Debug, Clone, Copy, PartialEq, Eq, Structural)]
pub enum CaretRangeAnswer {
    /// No element has the keyboard focus.
    FocusFailed(u32),
    /// The element offers no extended text pattern.
    PatternFailed(u32),
    /// The pattern object is not an extended text pattern.
    CastFailed(u32),
    /// The pattern did not return a caret range.
    RangeFailed(u32),
    /// The range did not return its bounding rectangles.
    RectFailed(u32),
    /// The range returned no array at all.
    NullArray,
    /// The array's bounds could not be read.
    NoBounds,
    /// The array and the bounds of its only dimension.
    Bounds { lower: i32, upper: i32 },
}

/// The bounding rectangles of the caret range after it was expanded to the
/// enclosing character.
#[derive(Debug, Clone, Copy, PartialEq, Eq, Structural)]
pub enum ExpandedAnswer {
    /// The range could not be expanded, or gave no array afterwards.
    Unavailable,
    /// The array's bounds could not be read.
    NoBounds,
    /// The array and the bounds of its only dimension.
    Bounds { lower: i32, upper: i32 },
}

/// How far the query for the selection of the focused element came.
#[derive(Debug, Clone, Copy, PartialEq, Eq, Structural)]
pub enum SelectionAnswer {
    /// No element has the keyboard focus.
    FocusFailed(u32),
    /// The element offers no text pattern.
    PatternFailed(u32),
    /// The pattern object is not a text pattern.
    CastFailed(u32),
    /// The pattern did not return its selection.
    SelectionFailed(u32),
    /// The number of ranges in the selection, if it could be read.
    Length(Option<i32>),
}

/// The bounding rectangles of the first range of the selection.
#[derive(Debug, Clone, Copy, PartialEq, Eq, Structural)]
pub enum SelectionRangeAnswer {
    /// The selection did not hand out its first range.
    RangeFailed(u32),
    /// The range did not return its bounding rectangles.
    RectFailed(u32),
    /// The range returned no array at all.
    NullArray,
    /// The array's bounds could not be read.
    NoBounds,
    /// The array and the bounds of its only dimension.
    Bounds { lower: i32, upper: i32 },
}

/// What the accessible caret object of the foreground window reported.
#[derive(Debug, Clone, Copy, PartialEq, Eq, Structural)]
pub enum AccessibleAnswer {
    /// There is no foreground window.
    NoWindow,
    /// The window did not hand out an accessible object.
    ObjectFailed(u32),
    /// The call succeeded without an object.
    NoObject,
    /// The object did not report its location.
    LocationFailed(u32),
    /// The object's location on the screen.
    Location { x: i32, y: i32, width: i32, height: i32 },
}

/// A question to the desktop.
#[derive(Debug, Clone, Copy, PartialEq, Eq, Structural)]
pub enum Probe {
    /// The input state of the foreground thread.
    GuiThreadInfo,
    /// The screen position of a point given in a window's coordinates.
    ClientToScreen { window: isize, x: i32, y: i32 },
    /// The caret range of the focused element and its bounding rectangles.
    CaretRange,
    /// The same range expanded to the enclosing character, queried again.
    ExpandedRange,
    /// The selection of the focused element.
    Selection,
    /// The first range of that selection and its bounding rectangles.
    SelectionRange,
    /// The first quadruple of the array that was returned last.
    RectData,
    /// The composition form of the foreground window.
    Composition,
    /// The accessible caret object of the foreground window.
    AccessibleCaret,
}

/// An answer of the desktop.
#[derive(Debug, Clone, Copy, PartialEq, Eq, Structural)]
pub enum Answer {
    /// To `Probe::GuiThreadInfo`; `None` when the query failed.
    GuiThreadInfo(Option<GuiThreadInfo>),
    /// To `Probe::ClientToScreen`: the point as the desktop left it.
    ScreenPoint { x: i32, y: i32 },
    /// To `Probe::CaretRange`.
    CaretRange(CaretRangeAnswer),
    /// To `Probe::ExpandedRange`.
    Expanded(ExpandedAnswer),
    /// To `Probe::Selection`.
    Selection(SelectionAnswer),
    /// To `Probe::SelectionRange`.
    SelectionRange(SelectionRangeAnswer),
    /// To `Probe::RectData`; `None` when the array could not be locked.
    Rect(Option<Quad>),
    /// To `Probe::Composition`; `None` without window, context or form.
    Composition(Option<CompositionForm>),
    /// To `Probe::AccessibleCaret`.
    Accessible(AccessibleAnswer),
}

impl Answer {
    /// The answer is of the kind that `probe` asks for.
    pub open spec fn answers(self, probe: Probe) -> bool {
        match (probe, self) {
            (Probe::GuiThreadInfo, Answer::GuiThreadInfo(_)) => true,
            (Probe::ClientToScreen { .. }, Answer::ScreenPoint { .. }) => true,
            (Probe::CaretRange, Answer::CaretRange(_)) => true,
            (Probe::ExpandedRange, Answer::Expanded(_)) => true,
            (Probe::Selection, Answer::Selection(_)) => true,
            (Probe::SelectionRange, Answer::SelectionRange(_)) => true,
            (Probe::RectData, Answer::Rect(_)) => true,
            (Probe::Composition, Answer::Composition(_)) => true,
            (Probe::AccessibleCaret, Answer::Accessible(_)) => true,
            _ => false,
        }
    }

    /// Tests whether the answer is of the kind that `probe` asks for.
    pub fn is_answer_to(&self, probe: &Probe) -> (b: bool)
        ensures
            b == self.answers(*probe),
    {
        match (probe, self) {
            (Probe::GuiThreadInfo, Answer::GuiThreadInfo(_)) => true,
            (Probe::ClientToScreen { .. }, Answer::ScreenPoint { .. }) => true,
            (Probe::CaretRange, Answer::CaretRange(_)) => true,
            (Probe::ExpandedRange, Answer::Expanded(_)) => true,
            (Probe::Selection, Answer::Selection(_)) => true,
            (Probe::SelectionRange, Answer::SelectionRange(_)) => true,
            (Probe::RectData, Answer::Rect(_)) => true,
            (Probe::Composition, Answer::Composition(_)) => true,
            (Probe::AccessibleCaret, Answer::Accessible(_)) => true,
            _ => false,
        }
    }

    /// Every height that the answer implies can be held in a pixel coordinate.
    pub open spec fn well_formed(self) -> bool {
        match self {
            Answer::GuiThreadInfo(Some(info)) => info.rc_caret.measurable(),
            _ => true,
        }
    }

    /// Tests `well_formed`.
    pub fn is_well_formed(&self) -> (b: bool)
        ensures
            b == self.well_formed(),
    {
        match self {
            Answer::GuiThreadInfo(Some(info)) => info.rc_caret.is_measurable(),
            _ => true,
        }
    }
}

/// The number of fields in an array with the given bounds.
pub open spec fn field_count(lower: i32, upper: i32) -> int {
    upper - lower + 1
}

/// Computes the number of fields in an array with the given bounds.
pub fn count_fields(lower: i32, upper: i32) -> (n: i64)
    ensures
        n == field_count(lower, upper),
{
    upper as i64 - lower as i64 + 1
}

} // verus!
