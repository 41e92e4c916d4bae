//! Whole runs of the caret detector against a desktop, and what holds of
//! every run: which strategy wins, what the trail keeps, how often the caret
//! range is queried again.

use vstd::prelude::*;
use crate::caret_detector::{
    transition, verdict, CaretPos, DetectionSource, DetectorState, Outcome, Stage, Step,
};
use crate::desktop::{field_count, AccessibleAnswer, Answer, CaretRangeAnswer, ExpandedAnswer, Probe};
use crate::trail::appended;

verus! {

impl Stage {
    /// How far the stage is from the end of a run: every question that
    /// follows another in a run has a lower rank.
    pub open spec fn rank(self) -> nat {
        match self {
            Stage::GuiInfo => 14,
            Stage::GuiPoint { .. } => 13,
            Stage::CaretRange => 12,
            Stage::Expanded { .. } => 11,
            Stage::ExpandedRect { .. } => 10,
            Stage::CaretRect => 10,
            Stage::Selection => 9,
            Stage::SelectionRange => 8,
            Stage::SelectionRect => 7,
            Stage::Composition => 6,
            Stage::CompositionPoint { .. } => 5,
            Stage::Accessible => 4,
            Stage::FallbackInfo => 3,
            Stage::FallbackPoint { .. } => 2,
        }
    }
}

/// The desktop answers every question with an answer of its kind.
pub open spec fn responsive(desk: spec_fn(Stage) -> Answer) -> bool {
    forall|stage: Stage| #[trigger] desk(stage).answers(stage.probe())
}

/// The run of the detector from state `s` against `desk`: the state it ends
/// in and the position it reports. A desktop that leaves a question
/// unanswered ends the run with nothing.
pub open spec fn run(s: DetectorState, desk: spec_fn(Stage) -> Answer) -> (
    DetectorState,
    Option<CaretPos>,
)
    decreases s.stage.rank(),
{
    let (t, step) = transition(s, desk(s.stage));
    match step {
        Step::Done(pos) => (t, pos),
        Step::Ask(_) => if t.stage.rank() < s.stage.rank() {
            run(t, desk)
        } else {
            (t, None)
        },
    }
}

/// What the strategy that stands at `stage` finds on `desk`, left to itself.
pub open spec fn attempt(desk: spec_fn(Stage) -> Answer, stage: Stage) -> Option<CaretPos>
    decreases stage.rank(),
{
    match verdict(stage, desk(stage)).outcome {
        Outcome::Found(pos) => Some(pos),
        Outcome::GiveUp => None,
        Outcome::More(next) => if next.rank() < stage.rank() {
            attempt(desk, next)
        } else {
            None
        },
    }
}

/// The trail after the strategy that stands at `stage` has run to its end on
/// `desk`, having begun with `trail`.
pub open spec fn remarks(desk: spec_fn(Stage) -> Answer, stage: Stage, trail: Seq<char>) -> Seq<
    char,
>
    decreases stage.rank(),
{
    let v = verdict(stage, desk(stage));
    let noted = match v.note {
        Some(entry) => appended(trail, entry),
        None => trail,
    };
    match v.outcome {
        Outcome::More(next) => if next.rank() < stage.rank() {
            remarks(desk, next, noted)
        } else {
            noted
        },
        _ => noted,
    }
}

/// The strategy that finds the caret first, in the order of the cascade.
pub open spec fn first_finder(automation: bool, desk: spec_fn(Stage) -> Answer) -> DetectionSource {
    if attempt(desk, Stage::GuiInfo) is Some {
        DetectionSource::GuiInfo
    } else if automation && attempt(desk, Stage::CaretRange) is Some {
        DetectionSource::UiaCaretRange
    } else if automation && attempt(desk, Stage::Selection) is Some {
        DetectionSource::UiAutomation
    } else if attempt(desk, Stage::Composition) is Some {
        DetectionSource::Ime
    } else if attempt(desk, Stage::Accessible) is Some {
        DetectionSource::MsaaFallback
    } else {
        DetectionSource::Undetected
    }
}

/// The first stage of a strategy.
pub open spec fn entry(source: DetectionSource) -> Stage {
    match source {
        DetectionSource::UiaCaretRange => Stage::CaretRange,
        DetectionSource::UiAutomation => Stage::Selection,
        DetectionSource::Ime => Stage::Composition,
        DetectionSource::MsaaFallback => Stage::Accessible,
        _ => Stage::GuiInfo,
    }
}

/// The trail that a run leaves which began with `trail` and ended with
/// `source`: untouched when the automation strategies were not reached, else
/// the entries of the strategies that ran, in their order.
pub open spec fn trail_left(
    automation: bool,
    desk: spec_fn(Stage) -> Answer,
    trail: Seq<char>,
    source: DetectionSource,
) -> Seq<char> {
    let begun = if automation {
        Seq::empty()
    } else {
        trail
    };
    let caret = remarks(desk, Stage::CaretRange, begun);
    let selection = remarks(desk, Stage::Selection, caret);
    match source {
        DetectionSource::GuiInfo => trail,
        DetectionSource::UiaCaretRange => caret,
        DetectionSource::UiAutomation => selection,
        DetectionSource::Ime => if automation {
            selection
        } else {
            trail
        },
        _ => remarks(
            desk,
            Stage::Accessible,
            if automation {
                selection
            } else {
                trail
            },
        ),
    }
}

/// The cascade from the strategy that stands at `s.stage` on: that strategy
/// runs to its end; if it found nothing, its successor takes over.
pub open spec fn cascade_from(s: DetectorState, desk: spec_fn(Stage) -> Answer) -> (
    DetectorState,
    Option<CaretPos>,
)
    decreases s.stage.rank(),
{
    let trail = remarks(desk, s.stage, s.trail);
    match attempt(desk, s.stage) {
        Some(pos) => (
            DetectorState { source: s.stage.source(), trail, stage: Stage::GuiInfo, ..s },
            Some(pos),
        ),
        None => match s.stage.successor(s.automation) {
            Some(next) => if next.rank() < s.stage.rank() {
                cascade_from(
                    DetectorState {
                        trail: if next == Stage::CaretRange {
                            Seq::empty()
                        } else {
                            trail
                        },
                        stage: next,
                        ..s
                    },
                    desk,
                )
            } else {
                (s, None)
            },
            None => (
                DetectorState {
                    source: DetectionSource::Undetected,
                    trail,
                    stage: Stage::GuiInfo,
                    ..s
                },
                None,
            ),
        },
    }
}

/// A strategy that goes on stays the same strategy and comes nearer to its
/// end; a strategy that hands over hands over to a later one.
pub proof fn lemma_progress(stage: Stage, answer: Answer, automation: bool)
    requires
        answer.answers(stage.probe()),
    ensures
        match verdict(stage, answer).outcome {
            Outcome::More(next) => next.rank() < stage.rank() && next.source() == stage.source(),
            _ => true,
        },
        match stage.successor(automation) {
            Some(next) => next.rank() < stage.rank() && next == entry(next.source()),
            None => stage.source() == DetectionSource::MsaaFallback,
        },
{
}

proof fn lemma_run_settles(s: DetectorState, desk: spec_fn(Stage) -> Answer)
    requires
        responsive(desk),
    ensures
        run(s, desk) == cascade_from(s, desk),
    decreases s.stage.rank(),
{
    let answer = desk(s.stage);
    assert(answer.answers(s.stage.probe()));
    lemma_progress(s.stage, answer, s.automation);
    let (t, step) = transition(s, answer);
    match verdict(s.stage, answer).outcome {
        Outcome::Found(pos) => {},
        Outcome::More(next) => {
            lemma_run_settles(t, desk);
        },
        Outcome::GiveUp => {
            if s.stage.successor(s.automation) is Some {
                lemma_run_settles(t, desk);
            }
        },
    }
}

/// First success wins. A run from the first question against a desktop
/// that answers what it is asked reports exactly one source: the first
/// strategy, in the order of the cascade, that finds a position on its own,
/// together with that position; or no source and no position when none
/// does. Without the automation service its two strategies do not take
/// part. The trail holds the entries of the strategies that ran since it was
/// cleared, in their order.
pub proof fn law_first_success_wins(s: DetectorState, desk: spec_fn(Stage) -> Answer)
    requires
        s.stage == Stage::GuiInfo,
        responsive(desk),
    ensures
        ({
            let (t, pos) = run(s, desk);
            let source = first_finder(s.automation, desk);
            &&& t.source == source
            &&& pos == if source == DetectionSource::Undetected {
                None
            } else {
                attempt(desk, entry(source))
            }
            &&& (pos is Some <==> source != DetectionSource::Undetected)
            &&& t.trail == trail_left(s.automation, desk, s.trail, source)
            &&& t.stage == Stage::GuiInfo
            &&& t.automation == s.automation
        }),
{
    lemma_run_settles(s, desk);
    reveal_with_fuel(cascade_from, 6);
    lemma_quiet(desk, Stage::GuiInfo, s.trail);
    if s.automation {
        let caret = remarks(desk, Stage::CaretRange, Seq::empty());
        let selection = remarks(desk, Stage::Selection, caret);
        lemma_quiet(desk, Stage::Composition, selection);
    } else {
        lemma_quiet(desk, Stage::Composition, s.trail);
    }
}

/// The strategies that read the thread's caret rectangle and the
/// composition window leave the trail as it is.
proof fn lemma_quiet(desk: spec_fn(Stage) -> Answer, stage: Stage, trail: Seq<char>)
    requires
        stage.source() == DetectionSource::GuiInfo || stage.source() == DetectionSource::Ime,
    ensures
        remarks(desk, stage, trail) == trail,
    decreases stage.rank(),
{
    match verdict(stage, desk(stage)).outcome {
        Outcome::More(next) => {
            if next.rank() < stage.rank() {
                lemma_quiet(desk, next, trail);
            }
        },
        _ => {},
    }
}

/// The number of times that the run from `s` asks for the caret range
/// expanded to the enclosing character.
pub open spec fn retries(s: DetectorState, desk: spec_fn(Stage) -> Answer) -> nat
    decreases s.stage.rank(),
{
    let (t, step) = transition(s, desk(s.stage));
    match step {
        Step::Done(_) => 0,
        Step::Ask(probe) => {
            let now: nat = if probe == Probe::ExpandedRange {
                1
            } else {
                0
            };
            if t.stage.rank() < s.stage.rank() {
                now + retries(t, desk)
            } else {
                now
            }
        },
    }
}

/// The answer is a rectangle array of the caret range with fewer than four
/// fields.
pub open spec fn short_of_fields(answer: Answer) -> bool {
    match answer {
        Answer::CaretRange(CaretRangeAnswer::Bounds { lower, upper }) => field_count(lower, upper)
            < 4,
        _ => false,
    }
}

/// Whether the run from `s` comes to the caret range strategy and gets a
/// rectangle array with fewer than four fields there.
pub open spec fn meets_short_array(s: DetectorState, desk: spec_fn(Stage) -> Answer) -> bool {
    match s.stage.source() {
        DetectionSource::GuiInfo => s.automation && attempt(desk, s.stage) is None
            && short_of_fields(desk(Stage::CaretRange)),
        _ => s.stage == Stage::CaretRange && short_of_fields(desk(Stage::CaretRange)),
    }
}

proof fn lemma_retries(s: DetectorState, desk: spec_fn(Stage) -> Answer)
    requires
        responsive(desk),
    ensures
        retries(s, desk) == if meets_short_array(s, desk) {
            1nat
        } else {
            0nat
        },
    decreases s.stage.rank(),
{
    let answer = desk(s.stage);
    assert(answer.answers(s.stage.probe()));
    lemma_progress(s.stage, answer, s.automation);
    let (t, step) = transition(s, answer);
    if step is Ask {
        lemma_retries(t, desk);
    }
}

/// One retry, never two. A run from the first question against a desktop
/// that answers what it is asked queries the expanded caret range exactly
/// once when the caret range strategy is reached and its rectangle array has
/// fewer than four fields, and never otherwise.
pub proof fn law_retry_exactly_once(s: DetectorState, desk: spec_fn(Stage) -> Answer)
    requires
        s.stage == Stage::GuiInfo,
        responsive(desk),
    ensures
        retries(s, desk) == if s.automation && attempt(desk, Stage::GuiInfo) is None
            && short_of_fields(desk(Stage::CaretRange)) {
            1nat
        } else {
            0nat
        },
{
    lemma_retries(s, desk);
}

/// A rectangle array of the caret range with fewer than four fields is
/// followed by the query of the expanded range. When that array is short as
/// well, the first count goes on the trail and the selection strategy takes
/// over, without another query.
pub proof fn law_retry_then_fall_through(
    s: DetectorState,
    lower: i32,
    upper: i32,
    again_lower: i32,
    again_upper: i32,
)
    requires
        s.stage == Stage::CaretRange,
        field_count(lower, upper) < 4,
        field_count(again_lower, again_upper) < 4,
    ensures
        ({
            let first = Answer::CaretRange(CaretRangeAnswer::Bounds { lower, upper });
            let second = Answer::Expanded(
                ExpandedAnswer::Bounds { lower: again_lower, upper: again_upper },
            );
            let (t, step) = transition(s, first);
            let (u, after) = transition(t, second);
            &&& step == Step::Ask(Probe::ExpandedRange)
            &&& t.trail == s.trail
            &&& after == Step::Ask(Probe::Selection)
            &&& u.trail == appended(
                s.trail,
                crate::caret_detector::counted("Car:Cnt:"@, field_count(lower, upper)),
            )
        }),
{
}

/// The origin is no location. Whatever the accessible caret object
/// answers, the detector does not report the point (0, 0) for it; a location
/// at that point is recorded and followed by the query of the thread's input
/// state.
pub proof fn law_origin_is_no_location(s: DetectorState, answer: Answer)
    requires
        s.stage == Stage::Accessible,
    ensures
        ({
            let (t, step) = transition(s, answer);
            &&& match step {
                Step::Done(Some(pos)) => pos.0 != 0 || pos.1 != 0,
                _ => true,
            }
            &&& match answer {
                Answer::Accessible(AccessibleAnswer::Location { x, y, .. }) => x == 0 && y == 0
                    ==> {
                    &&& step == Step::Ask(Probe::GuiThreadInfo)
                    &&& t.stage == Stage::FallbackInfo
                    &&& t.trail == appended(s.trail, "MSAA:Zero"@)
                    &&& t.source == s.source
                },
                _ => true,
            }
        }),
{
}

/// Off-screen points are rejected. The last conversion of the last
/// strategy counts exactly when both coordinates lie above the off-screen
/// bound; otherwise the run ends without a position and without a source.
pub proof fn law_offscreen_rejected(s: DetectorState, x: i32, y: i32)
    requires
        s.stage is FallbackPoint,
    ensures
        ({
            let (t, step) = transition(s, Answer::ScreenPoint { x, y });
            if x <= -1000 || y <= -1000 {
                step == Step::Done(None) && t.source == DetectionSource::Undetected
            } else {
                &&& t.source == DetectionSource::MsaaFallback
                &&& s.stage matches Stage::FallbackPoint { height, .. } && step == Step::Done(
                    Some((x, y, height)),
                )
            }
        }),
{
}

/// An answer to a question that is not pending changes nothing: the
/// detector asks its question again.
pub proof fn law_stray_answer_is_ignored(s: DetectorState, answer: Answer)
    requires
        !answer.answers(s.stage.probe()),
    ensures
        transition(s, answer) == (s, Step::Ask(s.stage.probe())),
{
}

/// The trail only grows. Unless the caret range strategy starts, which
/// clears it, the trail after an answer begins with the trail before.
pub proof fn law_trail_only_grows(s: DetectorState, answer: Answer)
    ensures
        ({
            let (t, step) = transition(s, answer);
            step != Step::Ask(Probe::CaretRange) || s.stage == Stage::CaretRange
                ==> s.trail.is_prefix_of(t.trail)
        }),
{
    let (t, step) = transition(s, answer);
    match verdict(s.stage, answer).note {
        Some(note) => {
            assert(s.trail.is_prefix_of(appended(s.trail, note)));
        },
        None => {},
    }
}

/// The source changes only when a run ends. While the detector goes on
/// asking, the source of the last run stays; the run that ends sets it to the
/// strategy that found the position, or to none.
pub proof fn law_source_changes_at_the_end_only(s: DetectorState, answer: Answer)
    ensures
        ({
            let (t, step) = transition(s, answer);
            match step {
                Step::Ask(_) => t.source == s.source,
                Step::Done(Some(_)) => t.source == s.stage.source(),
                Step::Done(None) => t.source == DetectionSource::Undetected,
            }
        }),
{
}

/// The trail never steers. Two detectors that differ in their trails only
/// ask the same question or end with the same position after the same
/// answer, and differ in their trails only afterwards.
pub proof fn law_trail_never_steers(s: DetectorState, other: Seq<char>, answer: Answer)
    ensures
        ({
            let (t, step) = transition(s, answer);
            let (u, other_step) = transition(DetectorState { trail: other, ..s }, answer);
            &&& other_step == step
            &&& u.stage == t.stage
            &&& u.source == t.source
            &&& u.automation == t.automation
        }),
{
}

/// A composition window has the nominal height. Whatever position the
/// composition strategy reports is 20 pixels high.
pub proof fn law_composition_height_is_nominal(s: DetectorState, answer: Answer)
    requires
        s.stage.source() == DetectionSource::Ime,
    ensures
        match transition(s, answer).1 {
            Step::Done(Some(pos)) => pos.2 == 20,
            _ => true,
        },
{
}

} // verus!
