//! The caret position detector: five strategies tried in a fixed order, the
//! first that finds a rectangle wins.
//!
//! The detector does not query the desktop. It says which question comes
//! next (`Step::Ask`) and takes the answer through `CaretDetector::resume`,
//! until the run ends (`Step::Done`).

use vstd::prelude::*;
use crate::desktop::{
    field_count, count_fields, AccessibleAnswer, Answer, CaretRangeAnswer, ExpandedAnswer, Probe,
    SelectionAnswer, SelectionRangeAnswer, CFS_POINT,
};
use crate::trail::{append_error, appended, decimal, hex_upper, to_decimal, to_hex_upper};

verus! {

/// A caret position on the screen: left, top and height in pixels.
pub type CaretPos = (i32, i32, i32);

/// The nominal caret height of a composition window, which reports none.
pub const IME_CARET_HEIGHT: i32 = 20;

/// Converted coordinates at or below this bound are taken for an artifact.
pub const OFFSCREEN_BOUND: i32 = -1000;

/// The strategy that found the position of the last run.
#[derive(Debug, Clone, Copy, PartialEq, Eq, Structural)]
pub enum DetectionSource {
    /// The caret rectangle of the foreground thread.
    GuiInfo,
    /// The selection of the focused automation element.
    UiAutomation,
    /// The caret range of the focused automation element.
    UiaCaretRange,
    /// The composition window of the input method.
    Ime,
    /// The accessible caret object, or the thread's caret rectangle in any
    /// of its windows.
    MsaaFallback,
    /// No strategy found a position.
    Undetected,
}

/// Where a run stands: the strategy at work and the question it is waiting
/// for, with what it has learnt so far.
#[derive(Debug, Clone, Copy, PartialEq, Eq, Structural)]
pub enum Stage {
    /// The thread's input state is asked for.
    GuiInfo,
    /// The origin of the caret rectangle is being converted; `height` is
    /// the rectangle's.
    GuiPoint { window: isize, x: i32, y: i32, height: i32 },
    /// The caret range and its rectangle array are asked for.
    CaretRange,
    /// The array has four fields or more; its first quadruple is read.
    CaretRect,
    /// The array had `first` fields, fewer than four; the expanded range is
    /// asked for.
    Expanded { first: i64 },
    /// The array of the expanded range has four fields or more; its first
    /// quadruple is read.
    ExpandedRect { first: i64 },
    /// The selection is asked for.
    Selection,
    /// The selection is not empty; its first range and that range's
    /// rectangle array are asked for.
    SelectionRange,
    /// The array has four fields or more; its first quadruple is read.
    SelectionRect,
    /// The composition form is asked for.
    Composition,
    /// The form's point is being converted.
    CompositionPoint { window: isize, x: i32, y: i32 },
    /// The accessible caret object is asked for.
    Accessible,
    /// The object gave no location; the thread's input state is asked for
    /// once more.
    FallbackInfo,
    /// The origin of the caret rectangle is being converted from the
    /// coordinates of `window`; `height` is the rectangle's.
    FallbackPoint { window: isize, x: i32, y: i32, height: i32 },
}

impl Stage {
    /// The question that this stage waits for.
    pub open spec fn probe(self) -> Probe {
        match self {
            Stage::GuiInfo | Stage::FallbackInfo => Probe::GuiThreadInfo,
            Stage::GuiPoint { window, x, y, .. } => Probe::ClientToScreen { window, x, y },
            Stage::CompositionPoint { window, x, y } => Probe::ClientToScreen { window, x, y },
            Stage::FallbackPoint { window, x, y, .. } => Probe::ClientToScreen { window, x, y },
            Stage::CaretRange => Probe::CaretRange,
            Stage::Expanded { .. } => Probe::ExpandedRange,
            Stage::Selection => Probe::Selection,
            Stage::SelectionRange => Probe::SelectionRange,
            Stage::CaretRect | Stage::ExpandedRect { .. } | Stage::SelectionRect => Probe::RectData,
            Stage::Composition => Probe::Composition,
            Stage::Accessible => Probe::AccessibleCaret,
        }
    }

    /// The strategy that this stage belongs to.
    pub open spec fn source(self) -> DetectionSource {
        match self {
            Stage::GuiInfo | Stage::GuiPoint { .. } => DetectionSource::GuiInfo,
            Stage::CaretRange | Stage::CaretRect | Stage::Expanded { .. } | Stage::ExpandedRect {
                ..
            } => DetectionSource::UiaCaretRange,
            Stage::Selection | Stage::SelectionRange | Stage::SelectionRect => {
                DetectionSource::UiAutomation
            },
            Stage::Composition | Stage::CompositionPoint { .. } => DetectionSource::Ime,
            Stage::Accessible | Stage::FallbackInfo | Stage::FallbackPoint { .. } => {
                DetectionSource::MsaaFallback
            },
        }
    }

    /// The first stage of the strategy that is tried when the strategy of
    /// this stage has given up; `None` after the last one. Without the
    /// automation service the two strategies that need it are passed over.
    pub open spec fn successor(self, automation: bool) -> Option<Stage> {
        match self.source() {
            DetectionSource::GuiInfo => if automation {
                Some(Stage::CaretRange)
            } else {
                Some(Stage::Composition)
            },
            DetectionSource::UiaCaretRange => Some(Stage::Selection),
            DetectionSource::UiAutomation => Some(Stage::Composition),
            DetectionSource::Ime => Some(Stage::Accessible),
            _ => None,
        }
    }
}

/// What an answer means to the strategy that asked.
#[derive(Debug, Clone, Copy, PartialEq, Eq)]
pub enum Outcome {
    /// The strategy found the caret.
    Found(CaretPos),
    /// The strategy goes on with the question of the given stage.
    More(Stage),
    /// The strategy found nothing.
    GiveUp,
}

/// An outcome and the entry that it adds to the diagnostic trail.
pub ghost struct Verdict {
    pub outcome: Outcome,
    pub note: Option<Seq<char>>,
}

/// A tag followed by an error code in upper-case hexadecimal.
pub open spec fn coded(tag: Seq<char>, code: u32) -> Seq<char> {
    tag + hex_upper(code as nat)
}

/// A tag followed by a count in decimal.
pub open spec fn counted(tag: Seq<char>, count: int) -> Seq<char> {
    tag + decimal(count)
}

/// The strategy gives up without a word.
pub open spec fn silent() -> Verdict {
    Verdict { outcome: Outcome::GiveUp, note: None }
}

/// The strategy gives up and says why.
pub open spec fn failed(note: Seq<char>) -> Verdict {
    Verdict { outcome: Outcome::GiveUp, note: Some(note) }
}

/// The strategy goes on.
pub open spec fn more(stage: Stage) -> Verdict {
    Verdict { outcome: Outcome::More(stage), note: None }
}

/// The strategy found the caret.
pub open spec fn found(pos: CaretPos) -> Verdict {
    Verdict { outcome: Outcome::Found(pos), note: None }
}

/// The thread's caret rectangle: it counts only with a window that owns the
/// caret, and its origin is converted to screen coordinates.
pub open spec fn gui_info_verdict(stage: Stage, answer: Answer) -> Verdict {
    match (stage, answer) {
        (Stage::GuiInfo, Answer::GuiThreadInfo(None)) => silent(),
        (Stage::GuiInfo, Answer::GuiThreadInfo(Some(info))) => if info.hwnd_caret != 0 {
            more(
                Stage::GuiPoint {
                    window: info.hwnd_caret,
                    x: info.rc_caret.left,
                    y: info.rc_caret.top,
                    height: info.rc_caret.height() as i32,
                },
            )
        } else {
            silent()
        },
        (Stage::GuiPoint { height, .. }, Answer::ScreenPoint { x, y }) => found((x, y, height)),
        _ => more(stage),
    }
}

/// The caret range of the focused element. An array with fewer than four
/// fields is queried once more after the range was expanded to the enclosing
/// character; when that does not help either, the first count is recorded.
pub open spec fn uia_caret_range_verdict(stage: Stage, answer: Answer) -> Verdict {
    match (stage, answer) {
        (Stage::CaretRange, Answer::CaretRange(a)) => match a {
            CaretRangeAnswer::FocusFailed(code) => failed(coded("Car:Focus:"@, code)),
            CaretRangeAnswer::PatternFailed(code) => failed(coded("Car:Pat2:"@, code)),
            CaretRangeAnswer::CastFailed(code) => failed(coded("Car:Cast:"@, code)),
            CaretRangeAnswer::RangeFailed(code) => failed(coded("Car:Range:"@, code)),
            CaretRangeAnswer::RectFailed(code) => failed(coded("Car:Rect:"@, code)),
            CaretRangeAnswer::NullArray => failed("Car:Null"@),
            CaretRangeAnswer::NoBounds => silent(),
            CaretRangeAnswer::Bounds { lower, upper } => if field_count(lower, upper) < 4 {
                more(Stage::Expanded { first: field_count(lower, upper) as i64 })
            } else {
                more(Stage::CaretRect)
            },
        },
        (Stage::CaretRect, Answer::Rect(None)) => failed("Car:Access"@),
        (Stage::CaretRect, Answer::Rect(Some(quad))) => found((quad.left, quad.top, quad.height)),
        (Stage::Expanded { first }, Answer::Expanded(a)) => match a {
            ExpandedAnswer::Unavailable => failed(counted("Car:Cnt:"@, first as int)),
            ExpandedAnswer::NoBounds => silent(),
            ExpandedAnswer::Bounds { lower, upper } => if field_count(lower, upper) < 4 {
                failed(counted("Car:Cnt:"@, first as int))
            } else {
                more(Stage::ExpandedRect { first })
            },
        },
        (Stage::ExpandedRect { first }, Answer::Rect(None)) => failed(
            counted("Car:Cnt:"@, first as int),
        ),
        (Stage::ExpandedRect { .. }, Answer::Rect(Some(quad))) => found(
            (quad.left, quad.top, quad.height),
        ),
        _ => more(stage),
    }
}

/// The selection of the focused element: the first range of a selection that
/// is not empty, without a second query.
pub open spec fn uia_selection_verdict(stage: Stage, answer: Answer) -> Verdict {
    match (stage, answer) {
        (Stage::Selection, Answer::Selection(a)) => match a {
            SelectionAnswer::FocusFailed(code) => failed(coded("Sel:Focus:"@, code)),
            SelectionAnswer::PatternFailed(code) => failed(coded("Sel:Pat:"@, code)),
            SelectionAnswer::CastFailed(code) => failed(coded("Sel:Cast:"@, code)),
            SelectionAnswer::SelectionFailed(code) => failed(coded("Sel:Sel:"@, code)),
            SelectionAnswer::Length(None) => failed("Sel:NoSel"@),
            SelectionAnswer::Length(Some(n)) => if n == 0 {
                failed("Sel:NoSel"@)
            } else {
                more(Stage::SelectionRange)
            },
        },
        (Stage::SelectionRange, Answer::SelectionRange(a)) => match a {
            SelectionRangeAnswer::RangeFailed(code) => failed(coded("Sel:Range:"@, code)),
            SelectionRangeAnswer::RectFailed(code) => failed(coded("Sel:Rect:"@, code)),
            SelectionRangeAnswer::NullArray => failed("Sel:Null"@),
            SelectionRangeAnswer::NoBounds => silent(),
            SelectionRangeAnswer::Bounds { lower, upper } => if field_count(lower, upper) < 4 {
                failed(counted("Sel:Cnt:"@, field_count(lower, upper)))
            } else {
                more(Stage::SelectionRect)
            },
        },
        (Stage::SelectionRect, Answer::Rect(None)) => failed("Sel:Access"@),
        (Stage::SelectionRect, Answer::Rect(Some(quad))) => found(
            (quad.left, quad.top, quad.height),
        ),
        _ => more(stage),
    }
}

/// The composition window: a form positioned at a point gives the caret,
/// with the nominal height.
pub open spec fn ime_verdict(stage: Stage, answer: Answer) -> Verdict {
    match (stage, answer) {
        (Stage::Composition, Answer::Composition(None)) => silent(),
        (Stage::Composition, Answer::Composition(Some(form))) => if form.style & CFS_POINT != 0 {
            more(Stage::CompositionPoint { window: form.window, x: form.x, y: form.y })
        } else {
            silent()
        },
        (Stage::CompositionPoint { .. }, Answer::ScreenPoint { x, y }) => found(
            (x, y, IME_CARET_HEIGHT),
        ),
        _ => more(stage),
    }
}

/// The window whose coordinates the caret rectangle is converted from when
/// every other strategy has failed: the caret's, else the focused, else the
/// active one; zero when the thread has none of them.
pub open spec fn fallback_window(caret: isize, focus: isize, active: isize) -> isize {
    if caret != 0 {
        caret
    } else if focus != 0 {
        focus
    } else {
        active
    }
}

/// The accessible caret object, and behind it the thread's caret rectangle
/// once more. A location at the very origin of the screen is no location; a
/// converted point at or beyond the off-screen bound is rejected.
pub open spec fn msaa_fallback_verdict(stage: Stage, answer: Answer) -> Verdict {
    match (stage, answer) {
        (Stage::Accessible, Answer::Accessible(a)) => match a {
            AccessibleAnswer::NoWindow => failed("MSAA:NoHwnd"@),
            AccessibleAnswer::ObjectFailed(code) => Verdict {
                outcome: Outcome::More(Stage::FallbackInfo),
                note: Some(coded("MSAA:Err:"@, code)),
            },
            AccessibleAnswer::NoObject => Verdict {
                outcome: Outcome::More(Stage::FallbackInfo),
                note: Some("MSAA:NoAcc"@),
            },
            AccessibleAnswer::LocationFailed(code) => Verdict {
                outcome: Outcome::More(Stage::FallbackInfo),
                note: Some(coded("MSAA:Loc:"@, code)),
            },
            AccessibleAnswer::Location { x, y, width, height } => if x != 0 || y != 0 {
                found((x, y, height))
            } else {
                Verdict {
                    outcome: Outcome::More(Stage::FallbackInfo),
                    note: Some("MSAA:Zero"@),
                }
            },
        },
        (Stage::FallbackInfo, Answer::GuiThreadInfo(None)) => silent(),
        (Stage::FallbackInfo, Answer::GuiThreadInfo(Some(info))) => {
            let window = fallback_window(info.hwnd_caret, info.hwnd_focus, info.hwnd_active);
            if window != 0 && (info.rc_caret.left != 0 || info.rc_caret.top != 0) {
                more(
                    Stage::FallbackPoint {
                        window,
                        x: info.rc_caret.left,
                        y: info.rc_caret.top,
                        height: info.rc_caret.height() as i32,
                    },
                )
            } else {
                silent()
            }
        },
        (Stage::FallbackPoint { height, .. }, Answer::ScreenPoint { x, y }) => if x
            > OFFSCREEN_BOUND && y > OFFSCREEN_BOUND {
            found((x, y, height))
        } else {
            silent()
        },
        _ => more(stage),
    }
}

/// What `answer` means at `stage`. An answer to another question than the
/// pending one changes nothing: the stage stays and its question is asked
/// again.
pub open spec fn verdict(stage: Stage, answer: Answer) -> Verdict {
    match stage.source() {
        DetectionSource::GuiInfo => gui_info_verdict(stage, answer),
        DetectionSource::UiaCaretRange => uia_caret_range_verdict(stage, answer),
        DetectionSource::UiAutomation => uia_selection_verdict(stage, answer),
        DetectionSource::Ime => ime_verdict(stage, answer),
        _ => msaa_fallback_verdict(stage, answer),
    }
}

/// An outcome and the entry that it adds to the diagnostic trail.
#[derive(Debug, Clone, PartialEq, Eq)]
pub struct Ruling {
    pub outcome: Outcome,
    pub note: Option<String>,
}

impl View for Ruling {
    type V = Verdict;

    open spec fn view(&self) -> Verdict {
        Verdict {
            outcome: self.outcome,
            note: match self.note {
                Some(text) => Some(text@),
                None => None,
            },
        }
    }
}

impl Ruling {
    fn silent() -> (r: Ruling)
        ensures
            r@ == silent(),
    {
        Ruling { outcome: Outcome::GiveUp, note: None }
    }

    fn failed(note: &str) -> (r: Ruling)
        ensures
            r@ == failed(note@),
    {
        Ruling { outcome: Outcome::GiveUp, note: Some(String::from_str(note)) }
    }

    fn coded(tag: &str, code: u32) -> (r: Ruling)
        ensures
            r@ == failed(coded(tag@, code)),
    {
        let number = to_hex_upper(code);
        Ruling {
            outcome: Outcome::GiveUp,
            note: Some(String::from_str(tag).concat(number.as_str())),
        }
    }

    fn counted(tag: &str, count: i64) -> (r: Ruling)
        ensures
            r@ == failed(counted(tag@, count as int)),
    {
        let number = to_decimal(count);
        Ruling {
            outcome: Outcome::GiveUp,
            note: Some(String::from_str(tag).concat(number.as_str())),
        }
    }

    fn more(stage: Stage) -> (r: Ruling)
        ensures
            r@ == more(stage),
    {
        Ruling { outcome: Outcome::More(stage), note: None }
    }

    fn found(x: i32, y: i32, height: i32) -> (r: Ruling)
        ensures
            r@ == found((x, y, height)),
    {
        Ruling { outcome: Outcome::Found((x, y, height)), note: None }
    }

    /// The strategy goes on at the fallback and says why.
    fn fall_back(note: String) -> (r: Ruling)
        ensures
            r@ == (Verdict { outcome: Outcome::More(Stage::FallbackInfo), note: Some(note@) }),
    {
        Ruling { outcome: Outcome::More(Stage::FallbackInfo), note: Some(note) }
    }
}

impl Stage {
    /// The question that this stage waits for.
    pub fn pending(&self) -> (probe: Probe)
        ensures
            probe == self.probe(),
    {
        match *self {
            Stage::GuiInfo | Stage::FallbackInfo => Probe::GuiThreadInfo,
            Stage::GuiPoint { window, x, y, .. } => Probe::ClientToScreen { window, x, y },
            Stage::CompositionPoint { window, x, y } => Probe::ClientToScreen { window, x, y },
            Stage::FallbackPoint { window, x, y, .. } => Probe::ClientToScreen { window, x, y },
            Stage::CaretRange => Probe::CaretRange,
            Stage::Expanded { .. } => Probe::ExpandedRange,
            Stage::Selection => Probe::Selection,
            Stage::SelectionRange => Probe::SelectionRange,
            Stage::CaretRect | Stage::ExpandedRect { .. } | Stage::SelectionRect => Probe::RectData,
            Stage::Composition => Probe::Composition,
            Stage::Accessible => Probe::AccessibleCaret,
        }
    }

    /// The strategy that this stage belongs to.
    pub fn strategy(&self) -> (source: DetectionSource)
        ensures
            source == self.source(),
    {
        match *self {
            Stage::GuiInfo | Stage::GuiPoint { .. } => DetectionSource::GuiInfo,
            Stage::CaretRange | Stage::CaretRect | Stage::Expanded { .. } | Stage::ExpandedRect {
                ..
            } => DetectionSource::UiaCaretRange,
            Stage::Selection | Stage::SelectionRange | Stage::SelectionRect => {
                DetectionSource::UiAutomation
            },
            Stage::Composition | Stage::CompositionPoint { .. } => DetectionSource::Ime,
            Stage::Accessible | Stage::FallbackInfo | Stage::FallbackPoint { .. } => {
                DetectionSource::MsaaFallback
            },
        }
    }

    /// The first stage of the strategy that comes after the one of this
    /// stage.
    pub fn next_strategy(&self, automation: bool) -> (next: Option<Stage>)
        ensures
            next == self.successor(automation),
    {
        match self.strategy() {
            DetectionSource::GuiInfo => if automation {
                Some(Stage::CaretRange)
            } else {
                Some(Stage::Composition)
            },
            DetectionSource::UiaCaretRange => Some(Stage::Selection),
            DetectionSource::UiAutomation => Some(Stage::Composition),
            DetectionSource::Ime => Some(Stage::Accessible),
            _ => None,
        }
    }
}

/// What a call of the detector hands back: the next question, or the end of
/// the run with the position if one was found.
#[derive(Debug, Clone, Copy, PartialEq, Eq)]
pub enum Step {
    /// The run goes on: the desktop is to answer this question.
    Ask(Probe),
    /// The run has ended, with the position if a strategy found one.
    Done(Option<CaretPos>),
}

/// The detector as contracts see it.
pub ghost struct DetectorState {
    pub automation: bool,
    pub source: DetectionSource,
    pub trail: Seq<char>,
    pub stage: Stage,
}

/// The state after `answer` and what the detector hands back.
///
/// The entry of the verdict, if any, is added to the trail. A strategy that
/// found the caret ends the run and becomes the source. A strategy that gave
/// up hands over to its successor; the trail starts afresh when that is the
/// caret range strategy, and with no successor left the run ends without a
/// source.
pub open spec fn transition(s: DetectorState, answer: Answer) -> (DetectorState, Step) {
    let v = verdict(s.stage, answer);
    let trail = match v.note {
        Some(entry) => appended(s.trail, entry),
        None => s.trail,
    };
    match v.outcome {
        Outcome::Found(pos) => (
            DetectorState { source: s.stage.source(), trail, stage: Stage::GuiInfo, ..s },
            Step::Done(Some(pos)),
        ),
        Outcome::More(stage) => (DetectorState { trail, stage, ..s }, Step::Ask(stage.probe())),
        Outcome::GiveUp => match s.stage.successor(s.automation) {
            Some(stage) => (
                DetectorState {
                    trail: if stage == Stage::CaretRange {
                        Seq::empty()
                    } else {
                        trail
                    },
                    stage,
                    ..s
                },
                Step::Ask(stage.probe()),
            ),
            None => (
                DetectorState {
                    source: DetectionSource::Undetected,
                    trail,
                    stage: Stage::GuiInfo,
                    ..s
                },
                Step::Done(None),
            ),
        },
    }
}

/// The detector: whether the automation service is at hand, the source and
/// the diagnostic trail of the last run, and where the current run stands.
#[derive(Debug, Clone, PartialEq, Eq)]
pub struct CaretDetector {
    pub automation: bool,
    pub last_source: DetectionSource,
    pub last_uia_error: String,
    pub stage: Stage,
}

impl View for CaretDetector {
    type V = DetectorState;

    open spec fn view(&self) -> DetectorState {
        DetectorState {
            automation: self.automation,
            source: self.last_source,
            trail: self.last_uia_error@,
            stage: self.stage,
        }
    }
}

impl CaretDetector {
    /// A detector that has not run yet. `automation` says whether the
    /// automation service could be created.
    pub fn new(automation: bool) -> (detector: Self)
        ensures
            detector@ == (DetectorState {
                automation,
                source: DetectionSource::Undetected,
                trail: Seq::empty(),
                stage: Stage::GuiInfo,
            }),
    {
        CaretDetector {
            automation,
            last_source: DetectionSource::Undetected,
            last_uia_error: String::new(),
            stage: Stage::GuiInfo,
        }
    }

    /// Begins a run, whatever the last one came to, and hands back its first
    /// question. Source and trail stay as the last run left them.
    pub fn get_caret_pos(&mut self) -> (first: Probe)
        ensures
            final(self)@ == (DetectorState { stage: Stage::GuiInfo, ..old(self)@ }),
            first == Probe::GuiThreadInfo,
    {
        self.stage = Stage::GuiInfo;
        Probe::GuiThreadInfo
    }

    /// Judges an answer for the strategy that reads the thread's caret
    /// rectangle.
    pub fn get_pos_via_gui_info(stage: Stage, answer: Answer) -> (ruling: Ruling)
        requires
            answer.well_formed(),
        ensures
            ruling@ == gui_info_verdict(stage, answer),
    {
        match (stage, answer) {
            (Stage::GuiInfo, Answer::GuiThreadInfo(None)) => Ruling::silent(),
            (Stage::GuiInfo, Answer::GuiThreadInfo(Some(info))) => if info.hwnd_caret != 0 {
                Ruling::more(
                    Stage::GuiPoint {
                        window: info.hwnd_caret,
                        x: info.rc_caret.left,
                        y: info.rc_caret.top,
                        height: info.rc_caret.bottom - info.rc_caret.top,
                    },
                )
            } else {
                Ruling::silent()
            },
            (Stage::GuiPoint { height, .. }, Answer::ScreenPoint { x, y }) => Ruling::found(
                x,
                y,
                height,
            ),
            _ => Ruling::more(stage),
        }
    }

    /// Judges an answer for the strategy that reads the caret range of the
    /// focused element.
    pub fn get_pos_via_uia_caret_range(stage: Stage, answer: Answer) -> (ruling: Ruling)
        ensures
            ruling@ == uia_caret_range_verdict(stage, answer),
    {
        match (stage, answer) {
            (Stage::CaretRange, Answer::CaretRange(a)) => match a {
                CaretRangeAnswer::FocusFailed(code) => Ruling::coded("Car:Focus:", code),
                CaretRangeAnswer::PatternFailed(code) => Ruling::coded("Car:Pat2:", code),
                CaretRangeAnswer::CastFailed(code) => Ruling::coded("Car:Cast:", code),
                CaretRangeAnswer::RangeFailed(code) => Ruling::coded("Car:Range:", code),
                CaretRangeAnswer::RectFailed(code) => Ruling::coded("Car:Rect:", code),
                CaretRangeAnswer::NullArray => Ruling::failed("Car:Null"),
                CaretRangeAnswer::NoBounds => Ruling::silent(),
                CaretRangeAnswer::Bounds { lower, upper } => {
                    let count = count_fields(lower, upper);
                    if count < 4 {
                        Ruling::more(Stage::Expanded { first: count })
                    } else {
                        Ruling::more(Stage::CaretRect)
                    }
                },
            },
            (Stage::CaretRect, Answer::Rect(None)) => Ruling::failed("Car:Access"),
            (Stage::CaretRect, Answer::Rect(Some(quad))) => Ruling::found(
                quad.left,
                quad.top,
                quad.height,
            ),
            (Stage::Expanded { first }, Answer::Expanded(a)) => match a {
                ExpandedAnswer::Unavailable => Ruling::counted("Car:Cnt:", first),
                ExpandedAnswer::NoBounds => Ruling::silent(),
                ExpandedAnswer::Bounds { lower, upper } => if count_fields(lower, upper) < 4 {
                    Ruling::counted("Car:Cnt:", first)
                } else {
                    Ruling::more(Stage::ExpandedRect { first })
                },
            },
            (Stage::ExpandedRect { first }, Answer::Rect(None)) => Ruling::counted(
                "Car:Cnt:",
                first,
            ),
            (Stage::ExpandedRect { .. }, Answer::Rect(Some(quad))) => Ruling::found(
                quad.left,
                quad.top,
                quad.height,
            ),
            _ => Ruling::more(stage),
        }
    }

    /// Judges an answer for the strategy that reads the selection of the
    /// focused element.
    pub fn get_pos_via_uia_selection(stage: Stage, answer: Answer) -> (ruling: Ruling)
        ensures
            ruling@ == uia_selection_verdict(stage, answer),
    {
        match (stage, answer) {
            (Stage::Selection, Answer::Selection(a)) => match a {
                SelectionAnswer::FocusFailed(code) => Ruling::coded("Sel:Focus:", code),
                SelectionAnswer::PatternFailed(code) => Ruling::coded("Sel:Pat:", code),
                SelectionAnswer::CastFailed(code) => Ruling::coded("Sel:Cast:", code),
                SelectionAnswer::SelectionFailed(code) => Ruling::coded("Sel:Sel:", code),
                SelectionAnswer::Length(None) => Ruling::failed("Sel:NoSel"),
                SelectionAnswer::Length(Some(n)) => if n == 0 {
                    Ruling::failed("Sel:NoSel")
                } else {
                    Ruling::more(Stage::SelectionRange)
                },
            },
            (Stage::SelectionRange, Answer::SelectionRange(a)) => match a {
                SelectionRangeAnswer::RangeFailed(code) => Ruling::coded("Sel:Range:", code),
                SelectionRangeAnswer::RectFailed(code) => Ruling::coded("Sel:Rect:", code),
                SelectionRangeAnswer::NullArray => Ruling::failed("Sel:Null"),
                SelectionRangeAnswer::NoBounds => Ruling::silent(),
                SelectionRangeAnswer::Bounds { lower, upper } => {
                    let count = count_fields(lower, upper);
                    if count < 4 {
                        Ruling::counted("Sel:Cnt:", count)
                    } else {
                        Ruling::more(Stage::SelectionRect)
                    }
                },
            },
            (Stage::SelectionRect, Answer::Rect(None)) => Ruling::failed("Sel:Access"),
            (Stage::SelectionRect, Answer::Rect(Some(quad))) => Ruling::found(
                quad.left,
                quad.top,
                quad.height,
            ),
            _ => Ruling::more(stage),
        }
    }

    /// Judges an answer for the strategy that reads the composition window.
    pub fn get_pos_via_ime(stage: Stage, answer: Answer) -> (ruling: Ruling)
        ensures
            ruling@ == ime_verdict(stage, answer),
    {
        match (stage, answer) {
            (Stage::Composition, Answer::Composition(None)) => Ruling::silent(),
            (Stage::Composition, Answer::Composition(Some(form))) => if form.style & CFS_POINT
                != 0 {
                Ruling::more(
                    Stage::CompositionPoint { window: form.window, x: form.x, y: form.y },
                )
            } else {
                Ruling::silent()
            },
            (Stage::CompositionPoint { .. }, Answer::ScreenPoint { x, y }) => Ruling::found(
                x,
                y,
                IME_CARET_HEIGHT,
            ),
            _ => Ruling::more(stage),
        }
    }

    /// Judges an answer for the strategy that reads the accessible caret
    /// object and, behind it, the thread's caret rectangle once more.
    pub fn get_pos_via_msaa_fallback(stage: Stage, answer: Answer) -> (ruling: Ruling)
        requires
            answer.well_formed(),
        ensures
            ruling@ == msaa_fallback_verdict(stage, answer),
    {
        match (stage, answer) {
            (Stage::Accessible, Answer::Accessible(a)) => match a {
                AccessibleAnswer::NoWindow => Ruling::failed("MSAA:NoHwnd"),
                AccessibleAnswer::ObjectFailed(code) => {
                    let number = to_hex_upper(code);
                    Ruling::fall_back(String::from_str("MSAA:Err:").concat(number.as_str()))
                },
                AccessibleAnswer::NoObject => Ruling::fall_back(String::from_str("MSAA:NoAcc")),
                AccessibleAnswer::LocationFailed(code) => {
                    let number = to_hex_upper(code);
                    Ruling::fall_back(String::from_str("MSAA:Loc:").concat(number.as_str()))
                },
                AccessibleAnswer::Location { x, y, width: _, height } => if x != 0 || y != 0 {
                    Ruling::found(x, y, height)
                } else {
                    Ruling::fall_back(String::from_str("MSAA:Zero"))
                },
            },
            (Stage::FallbackInfo, Answer::GuiThreadInfo(None)) => Ruling::silent(),
            (Stage::FallbackInfo, Answer::GuiThreadInfo(Some(info))) => {
                let window = if info.hwnd_caret != 0 {
                    info.hwnd_caret
                } else if info.hwnd_focus != 0 {
                    info.hwnd_focus
                } else {
                    info.hwnd_active
                };
                if window != 0 && (info.rc_caret.left != 0 || info.rc_caret.top != 0) {
                    Ruling::more(
                        Stage::FallbackPoint {
                            window,
                            x: info.rc_caret.left,
                            y: info.rc_caret.top,
                            height: info.rc_caret.bottom - info.rc_caret.top,
                        },
                    )
                } else {
                    Ruling::silent()
                }
            },
            (Stage::FallbackPoint { height, .. }, Answer::ScreenPoint { x, y }) => if x
                > OFFSCREEN_BOUND && y > OFFSCREEN_BOUND {
                Ruling::found(x, y, height)
            } else {
                Ruling::silent()
            },
            _ => Ruling::more(stage),
        }
    }

    /// Judges an answer for the strategy that `stage` belongs to.
    pub fn judge(stage: Stage, answer: Answer) -> (ruling: Ruling)
        requires
            answer.well_formed(),
        ensures
            ruling@ == verdict(stage, answer),
    {
        match stage.strategy() {
            DetectionSource::GuiInfo => Self::get_pos_via_gui_info(stage, answer),
            DetectionSource::UiaCaretRange => Self::get_pos_via_uia_caret_range(stage, answer),
            DetectionSource::UiAutomation => Self::get_pos_via_uia_selection(stage, answer),
            DetectionSource::Ime => Self::get_pos_via_ime(stage, answer),
            _ => Self::get_pos_via_msaa_fallback(stage, answer),
        }
    }

    /// Takes the desktop's answer to the pending question and hands back the
    /// next question or the end of the run.
    pub fn resume(&mut self, answer: Answer) -> (step: Step)
        requires
            answer.well_formed(),
        ensures
            (final(self)@, step) == transition(old(self)@, answer),
    {
        let ruling = Self::judge(self.stage, answer);
        match ruling.note {
            Some(entry) => {
                append_error(&mut self.last_uia_error, entry.as_str());
            },
            None => {},
        }
        match ruling.outcome {
            Outcome::Found(pos) => {
                self.last_source = self.stage.strategy();
                self.stage = Stage::GuiInfo;
                Step::Done(Some(pos))
            },
            Outcome::More(stage) => {
                self.stage = stage;
                Step::Ask(stage.pending())
            },
            Outcome::GiveUp => match self.stage.next_strategy(self.automation) {
                Some(stage) => {
                    if stage == Stage::CaretRange {
                        self.last_uia_error = String::new();
                    }
                    self.stage = stage;
                    Step::Ask(stage.pending())
                },
                None => {
                    self.last_source = DetectionSource::Undetected;
                    self.stage = Stage::GuiInfo;
                    Step::Done(None)
                },
            },
        }
    }
}

} // verus!
