use rust_indicator::caret_detector::{CaretDetector, DetectionSource, Outcome, Stage, Step};
use rust_indicator::desktop::{
    AccessibleAnswer, Answer, CaretRangeAnswer, CompositionForm, ExpandedAnswer, GuiThreadInfo,
    Probe, Quad, Rect, SelectionAnswer, SelectionRangeAnswer,
};

fn thread_info(caret: isize, focus: isize, active: isize, rect: (i32, i32, i32, i32)) -> Answer {
    Answer::GuiThreadInfo(Some(GuiThreadInfo {
        hwnd_active: active,
        hwnd_focus: focus,
        hwnd_caret: caret,
        rc_caret: Rect { left: rect.0, top: rect.1, right: rect.2, bottom: rect.3 },
    }))
}

fn quad(left: i32, top: i32, width: i32, height: i32) -> Answer {
    Answer::Rect(Some(Quad { left, top, width, height }))
}

/// Runs the detector from its first question, answering from `answers` in
/// order, and hands back the questions asked and the end of the run.
fn drive(detector: &mut CaretDetector, answers: &[Answer]) -> (Vec<Probe>, Option<Step>) {
    let mut asked = vec![detector.get_caret_pos()];
    for answer in answers {
        assert!(answer.is_well_formed());
        match detector.resume(*answer) {
            Step::Ask(probe) => asked.push(probe),
            done => return (asked, Some(done)),
        }
    }
    (asked, None)
}

#[test]
fn new_detector_has_no_source_and_no_trail() {
    let detector = CaretDetector::new(true);
    assert_eq!(detector.last_source, DetectionSource::Undetected);
    assert_eq!(detector.last_uia_error, "");
    assert_eq!(detector.stage, Stage::GuiInfo);
    assert!(detector.automation);
}

#[test]
fn gui_info_wins_with_caret_window() {
    let mut detector = CaretDetector::new(true);
    let (asked, end) = drive(
        &mut detector,
        &[thread_info(77, 5, 6, (10, 20, 12, 38)), Answer::ScreenPoint { x: 110, y: 220 }],
    );
    assert_eq!(
        asked,
        vec![Probe::GuiThreadInfo, Probe::ClientToScreen { window: 77, x: 10, y: 20 }]
    );
    assert_eq!(end, Some(Step::Done(Some((110, 220, 18)))));
    assert_eq!(detector.last_source, DetectionSource::GuiInfo);
    assert_eq!(detector.last_uia_error, "");
}

#[test]
fn gui_info_without_caret_window_falls_through() {
    let mut detector = CaretDetector::new(true);
    let (asked, end) = drive(&mut detector, &[thread_info(0, 5, 6, (10, 20, 12, 38))]);
    assert_eq!(asked, vec![Probe::GuiThreadInfo, Probe::CaretRange]);
    assert_eq!(end, None);
}

#[test]
fn caret_range_with_full_array() {
    let mut detector = CaretDetector::new(true);
    let (asked, end) = drive(
        &mut detector,
        &[
            Answer::GuiThreadInfo(None),
            Answer::CaretRange(CaretRangeAnswer::Bounds { lower: 0, upper: 3 }),
            quad(300, 400, 1, 17),
        ],
    );
    assert_eq!(asked, vec![Probe::GuiThreadInfo, Probe::CaretRange, Probe::RectData]);
    assert_eq!(end, Some(Step::Done(Some((300, 400, 17)))));
    assert_eq!(detector.last_source, DetectionSource::UiaCaretRange);
    assert_eq!(detector.last_uia_error, "");
}

#[test]
fn caret_range_retry_succeeds() {
    let mut detector = CaretDetector::new(true);
    let (asked, end) = drive(
        &mut detector,
        &[
            Answer::GuiThreadInfo(None),
            Answer::CaretRange(CaretRangeAnswer::Bounds { lower: 0, upper: -1 }),
            Answer::Expanded(ExpandedAnswer::Bounds { lower: 0, upper: 3 }),
            quad(1, 2, 3, 4),
        ],
    );
    assert_eq!(
        asked,
        vec![Probe::GuiThreadInfo, Probe::CaretRange, Probe::ExpandedRange, Probe::RectData]
    );
    assert_eq!(end, Some(Step::Done(Some((1, 2, 4)))));
    assert_eq!(detector.last_source, DetectionSource::UiaCaretRange);
    assert_eq!(detector.last_uia_error, "");
}

#[test]
fn caret_range_retry_is_made_once_for_each_short_count() {
    for count in 0..4 {
        let mut detector = CaretDetector::new(true);
        let (asked, end) = drive(
            &mut detector,
            &[
                Answer::GuiThreadInfo(None),
                Answer::CaretRange(CaretRangeAnswer::Bounds { lower: 1, upper: count }),
                Answer::Expanded(ExpandedAnswer::Bounds { lower: 0, upper: 2 }),
            ],
        );
        assert_eq!(
            asked,
            vec![
                Probe::GuiThreadInfo,
                Probe::CaretRange,
                Probe::ExpandedRange,
                Probe::Selection
            ]
        );
        assert_eq!(end, None);
        assert_eq!(detector.last_uia_error, format!("Car:Cnt:{}", count));
        assert_eq!(asked.iter().filter(|p| **p == Probe::ExpandedRange).count(), 1);
    }
}

#[test]
fn caret_range_failures_are_tagged() {
    let cases = [
        (CaretRangeAnswer::FocusFailed(0x80004005), "Car:Focus:80004005"),
        (CaretRangeAnswer::PatternFailed(0x80004002), "Car:Pat2:80004002"),
        (CaretRangeAnswer::CastFailed(0x1F), "Car:Cast:1F"),
        (CaretRangeAnswer::RangeFailed(0), "Car:Range:0"),
        (CaretRangeAnswer::RectFailed(0xABCDEF), "Car:Rect:ABCDEF"),
        (CaretRangeAnswer::NullArray, "Car:Null"),
        (CaretRangeAnswer::NoBounds, ""),
    ];
    for (answer, trail) in cases {
        let mut detector = CaretDetector::new(true);
        let (asked, _) =
            drive(&mut detector, &[Answer::GuiThreadInfo(None), Answer::CaretRange(answer)]);
        assert_eq!(asked.last(), Some(&Probe::Selection));
        assert_eq!(detector.last_uia_error, trail);
    }
}

#[test]
fn caret_range_clears_the_trail_of_the_run_before() {
    let mut detector = CaretDetector::new(true);
    detector.last_uia_error = String::from("Sel:NoSel | MSAA:Zero");
    let (_, _) = drive(&mut detector, &[Answer::GuiThreadInfo(None)]);
    assert_eq!(detector.last_uia_error, "");
}

#[test]
fn caret_rect_that_cannot_be_read() {
    let mut detector = CaretDetector::new(true);
    let (asked, _) = drive(
        &mut detector,
        &[
            Answer::GuiThreadInfo(None),
            Answer::CaretRange(CaretRangeAnswer::Bounds { lower: 0, upper: 7 }),
            Answer::Rect(None),
        ],
    );
    assert_eq!(asked.last(), Some(&Probe::Selection));
    assert_eq!(detector.last_uia_error, "Car:Access");
}

#[test]
fn expanded_rect_that_cannot_be_read_records_first_count() {
    let mut detector = CaretDetector::new(true);
    let (asked, _) = drive(
        &mut detector,
        &[
            Answer::GuiThreadInfo(None),
            Answer::CaretRange(CaretRangeAnswer::Bounds { lower: 0, upper: 1 }),
            Answer::Expanded(ExpandedAnswer::Bounds { lower: 0, upper: 3 }),
            Answer::Rect(None),
        ],
    );
    assert_eq!(asked.last(), Some(&Probe::Selection));
    assert_eq!(detector.last_uia_error, "Car:Cnt:2");
}

#[test]
fn expanded_range_without_bounds_is_silent() {
    let mut detector = CaretDetector::new(true);
    let (asked, _) = drive(
        &mut detector,
        &[
            Answer::GuiThreadInfo(None),
            Answer::CaretRange(CaretRangeAnswer::Bounds { lower: 0, upper: 1 }),
            Answer::Expanded(ExpandedAnswer::NoBounds),
        ],
    );
    assert_eq!(asked.last(), Some(&Probe::Selection));
    assert_eq!(detector.last_uia_error, "");
}

#[test]
fn selection_wins_after_two_failures() {
    let mut detector = CaretDetector::new(true);
    let (asked, end) = drive(
        &mut detector,
        &[
            Answer::GuiThreadInfo(None),
            Answer::CaretRange(CaretRangeAnswer::PatternFailed(0x80004002)),
            Answer::Selection(SelectionAnswer::Length(Some(1))),
            Answer::SelectionRange(SelectionRangeAnswer::Bounds { lower: 0, upper: 3 }),
            quad(640, 480, 0, 16),
        ],
    );
    assert_eq!(
        asked,
        vec![
            Probe::GuiThreadInfo,
            Probe::CaretRange,
            Probe::Selection,
            Probe::SelectionRange,
            Probe::RectData
        ]
    );
    assert_eq!(end, Some(Step::Done(Some((640, 480, 16)))));
    assert_eq!(detector.last_source, DetectionSource::UiAutomation);
    assert_eq!(detector.last_uia_error, "Car:Pat2:80004002");
}

#[test]
fn trail_keeps_entries_of_both_automation_strategies_in_order() {
    let mut detector = CaretDetector::new(true);
    let (asked, end) = drive(
        &mut detector,
        &[
            Answer::GuiThreadInfo(None),
            Answer::CaretRange(CaretRangeAnswer::FocusFailed(0x80004005)),
            Answer::Selection(SelectionAnswer::PatternFailed(0x80004002)),
            Answer::Composition(Some(CompositionForm { window: 9, style: 2, x: 3, y: 4 })),
            Answer::ScreenPoint { x: 103, y: 204 },
        ],
    );
    assert_eq!(asked.last(), Some(&Probe::ClientToScreen { window: 9, x: 3, y: 4 }));
    assert_eq!(end, Some(Step::Done(Some((103, 204, 20)))));
    assert_eq!(detector.last_source, DetectionSource::Ime);
    assert_eq!(detector.last_uia_error, "Car:Focus:80004005 | Sel:Pat:80004002");
}

#[test]
fn selection_failures_are_tagged() {
    let cases = [
        (SelectionAnswer::FocusFailed(0x10), "Sel:Focus:10"),
        (SelectionAnswer::PatternFailed(0xFFFFFFFF), "Sel:Pat:FFFFFFFF"),
        (SelectionAnswer::CastFailed(0x9), "Sel:Cast:9"),
        (SelectionAnswer::SelectionFailed(0xA), "Sel:Sel:A"),
        (SelectionAnswer::Length(None), "Sel:NoSel"),
        (SelectionAnswer::Length(Some(0)), "Sel:NoSel"),
    ];
    for (answer, entry) in cases {
        let mut detector = CaretDetector::new(true);
        let (asked, _) = drive(
            &mut detector,
            &[
                Answer::GuiThreadInfo(None),
                Answer::CaretRange(CaretRangeAnswer::NullArray),
                Answer::Selection(answer),
            ],
        );
        assert_eq!(asked.last(), Some(&Probe::Composition));
        assert_eq!(detector.last_uia_error, format!("Car:Null | {}", entry));
    }
}

#[test]
fn selection_range_failures_are_tagged() {
    let cases = [
        (SelectionRangeAnswer::RangeFailed(0x1), "Sel:Range:1"),
        (SelectionRangeAnswer::RectFailed(0x2), "Sel:Rect:2"),
        (SelectionRangeAnswer::NullArray, "Sel:Null"),
        (SelectionRangeAnswer::Bounds { lower: 0, upper: 2 }, "Sel:Cnt:3"),
        (SelectionRangeAnswer::Bounds { lower: 5, upper: 4 }, "Sel:Cnt:0"),
    ];
    for (answer, entry) in cases {
        let mut detector = CaretDetector::new(true);
        let (asked, _) = drive(
            &mut detector,
            &[
                Answer::GuiThreadInfo(None),
                Answer::CaretRange(CaretRangeAnswer::NoBounds),
                Answer::Selection(SelectionAnswer::Length(Some(2))),
                Answer::SelectionRange(answer),
            ],
        );
        assert_eq!(asked.last(), Some(&Probe::Composition));
        assert_eq!(detector.last_uia_error, entry);
    }
}

#[test]
fn selection_is_not_queried_again_on_short_array() {
    let mut detector = CaretDetector::new(true);
    let (asked, _) = drive(
        &mut detector,
        &[
            Answer::GuiThreadInfo(None),
            Answer::CaretRange(CaretRangeAnswer::NoBounds),
            Answer::Selection(SelectionAnswer::Length(Some(1))),
            Answer::SelectionRange(SelectionRangeAnswer::Bounds { lower: 0, upper: 0 }),
        ],
    );
    assert!(!asked.contains(&Probe::ExpandedRange));
    assert_eq!(asked.last(), Some(&Probe::Composition));
}

#[test]
fn selection_rect_that_cannot_be_read() {
    let mut detector = CaretDetector::new(true);
    let (asked, _) = drive(
        &mut detector,
        &[
            Answer::GuiThreadInfo(None),
            Answer::CaretRange(CaretRangeAnswer::NoBounds),
            Answer::Selection(SelectionAnswer::Length(Some(-1))),
            Answer::SelectionRange(SelectionRangeAnswer::Bounds { lower: 0, upper: 3 }),
            Answer::Rect(None),
        ],
    );
    assert_eq!(asked.last(), Some(&Probe::Composition));
    assert_eq!(detector.last_uia_error, "Sel:Access");
}

#[test]
fn without_automation_its_strategies_are_passed_over() {
    let mut detector = CaretDetector::new(false);
    detector.last_uia_error = String::from("MSAA:Zero");
    let (asked, end) = drive(
        &mut detector,
        &[
            Answer::GuiThreadInfo(None),
            Answer::Composition(None),
            Answer::Accessible(AccessibleAnswer::NoWindow),
        ],
    );
    assert_eq!(asked, vec![Probe::GuiThreadInfo, Probe::Composition, Probe::AccessibleCaret]);
    assert_eq!(end, Some(Step::Done(None)));
    assert_eq!(detector.last_source, DetectionSource::Undetected);
    assert_eq!(detector.last_uia_error, "MSAA:Zero | MSAA:NoHwnd");
}

#[test]
fn composition_needs_point_style() {
    let mut detector = CaretDetector::new(false);
    let (asked, _) = drive(
        &mut detector,
        &[
            Answer::GuiThreadInfo(None),
            Answer::Composition(Some(CompositionForm { window: 9, style: 1, x: 3, y: 4 })),
        ],
    );
    assert_eq!(asked.last(), Some(&Probe::AccessibleCaret));
    let mut detector = CaretDetector::new(false);
    let (asked, _) = drive(
        &mut detector,
        &[
            Answer::GuiThreadInfo(None),
            Answer::Composition(Some(CompositionForm { window: 9, style: 0x22, x: 3, y: 4 })),
        ],
    );
    assert_eq!(asked.last(), Some(&Probe::ClientToScreen { window: 9, x: 3, y: 4 }));
}

#[test]
fn accessible_location_wins() {
    let mut detector = CaretDetector::new(false);
    let (_, end) = drive(
        &mut detector,
        &[
            Answer::GuiThreadInfo(None),
            Answer::Composition(None),
            Answer::Accessible(AccessibleAnswer::Location { x: 0, y: 7, width: 2, height: 19 }),
        ],
    );
    assert_eq!(end, Some(Step::Done(Some((0, 7, 19)))));
    assert_eq!(detector.last_source, DetectionSource::MsaaFallback);
    assert_eq!(detector.last_uia_error, "");
}

#[test]
fn accessible_location_at_origin_goes_to_fallback() {
    let mut detector = CaretDetector::new(false);
    let (asked, end) = drive(
        &mut detector,
        &[
            Answer::GuiThreadInfo(None),
            Answer::Composition(None),
            Answer::Accessible(AccessibleAnswer::Location { x: 0, y: 0, width: 2, height: 19 }),
        ],
    );
    assert_eq!(asked.last(), Some(&Probe::GuiThreadInfo));
    assert_eq!(end, None);
    assert_eq!(detector.stage, Stage::FallbackInfo);
    assert_eq!(detector.last_uia_error, "MSAA:Zero");
}

#[test]
fn accessible_failures_are_tagged_and_go_to_fallback() {
    let cases = [
        (AccessibleAnswer::ObjectFailed(0x80070057), "MSAA:Err:80070057"),
        (AccessibleAnswer::NoObject, "MSAA:NoAcc"),
        (AccessibleAnswer::LocationFailed(0x80004005), "MSAA:Loc:80004005"),
    ];
    for (answer, entry) in cases {
        let mut detector = CaretDetector::new(false);
        let (asked, end) = drive(
            &mut detector,
            &[Answer::GuiThreadInfo(None), Answer::Composition(None), Answer::Accessible(answer)],
        );
        assert_eq!(asked.last(), Some(&Probe::GuiThreadInfo));
        assert_eq!(end, None);
        assert_eq!(detector.last_uia_error, entry);
    }
}

fn fallback(info: Answer, point: Option<(i32, i32)>) -> (Vec<Probe>, Option<Step>, CaretDetector) {
    let mut detector = CaretDetector::new(false);
    let mut answers = vec![
        Answer::GuiThreadInfo(None),
        Answer::Composition(None),
        Answer::Accessible(AccessibleAnswer::NoObject),
        info,
    ];
    if let Some((x, y)) = point {
        answers.push(Answer::ScreenPoint { x, y });
    }
    let (asked, end) = drive(&mut detector, &answers);
    (asked, end, detector)
}

#[test]
fn fallback_takes_caret_then_focus_then_active_window() {
    let (asked, _, _) = fallback(thread_info(1, 2, 3, (5, 6, 7, 26)), None);
    assert_eq!(asked.last(), Some(&Probe::ClientToScreen { window: 1, x: 5, y: 6 }));
    let (asked, _, _) = fallback(thread_info(0, 2, 3, (5, 6, 7, 26)), None);
    assert_eq!(asked.last(), Some(&Probe::ClientToScreen { window: 2, x: 5, y: 6 }));
    let (asked, _, _) = fallback(thread_info(0, 0, 3, (5, 6, 7, 26)), None);
    assert_eq!(asked.last(), Some(&Probe::ClientToScreen { window: 3, x: 5, y: 6 }));
    let (_, end, detector) = fallback(thread_info(0, 0, 0, (5, 6, 7, 26)), None);
    assert_eq!(end, Some(Step::Done(None)));
    assert_eq!(detector.last_source, DetectionSource::Undetected);
}

#[test]
fn fallback_needs_a_caret_rectangle_off_the_window_origin() {
    let (_, end, _) = fallback(thread_info(1, 2, 3, (0, 0, 7, 26)), None);
    assert_eq!(end, Some(Step::Done(None)));
    let (asked, _, _) = fallback(thread_info(1, 2, 3, (0, 6, 7, 26)), None);
    assert_eq!(asked.last(), Some(&Probe::ClientToScreen { window: 1, x: 0, y: 6 }));
}

#[test]
fn fallback_reports_converted_point_and_rect_height() {
    let (_, end, detector) = fallback(thread_info(0, 2, 3, (5, 6, 7, 26)), Some((0, 0)));
    assert_eq!(end, Some(Step::Done(Some((0, 0, 20)))));
    assert_eq!(detector.last_source, DetectionSource::MsaaFallback);
    assert_eq!(detector.last_uia_error, "MSAA:NoAcc");
}

#[test]
fn fallback_rejects_points_at_or_beyond_the_bound() {
    for (x, y, accepted) in [
        (-999, -999, true),
        (-1000, 5, false),
        (5, -1000, false),
        (-1001, -1001, false),
        (-32000, -32000, false),
        (i32::MIN, 0, false),
        (i32::MAX, i32::MAX, true),
    ] {
        let (_, end, detector) = fallback(thread_info(1, 0, 0, (5, 6, 7, 26)), Some((x, y)));
        if accepted {
            assert_eq!(end, Some(Step::Done(Some((x, y, 20)))));
            assert_eq!(detector.last_source, DetectionSource::MsaaFallback);
        } else {
            assert_eq!(end, Some(Step::Done(None)));
            assert_eq!(detector.last_source, DetectionSource::Undetected);
        }
    }
}

#[test]
fn all_strategies_fail() {
    let mut detector = CaretDetector::new(true);
    let (asked, end) = drive(
        &mut detector,
        &[
            Answer::GuiThreadInfo(None),
            Answer::CaretRange(CaretRangeAnswer::FocusFailed(1)),
            Answer::Selection(SelectionAnswer::FocusFailed(2)),
            Answer::Composition(None),
            Answer::Accessible(AccessibleAnswer::ObjectFailed(3)),
            Answer::GuiThreadInfo(None),
        ],
    );
    assert_eq!(asked.len(), 6);
    assert_eq!(end, Some(Step::Done(None)));
    assert_eq!(detector.last_source, DetectionSource::Undetected);
    assert_eq!(detector.last_uia_error, "Car:Focus:1 | Sel:Focus:2 | MSAA:Err:3");
    assert_eq!(detector.stage, Stage::GuiInfo);
}

#[test]
fn source_of_the_last_run_stays_until_the_next_run_ends() {
    let mut detector = CaretDetector::new(false);
    drive(
        &mut detector,
        &[thread_info(77, 0, 0, (1, 2, 3, 4)), Answer::ScreenPoint { x: 1, y: 2 }],
    );
    assert_eq!(detector.last_source, DetectionSource::GuiInfo);
    drive(&mut detector, &[Answer::GuiThreadInfo(None)]);
    assert_eq!(detector.last_source, DetectionSource::GuiInfo);
    drive(
        &mut detector,
        &[
            Answer::GuiThreadInfo(None),
            Answer::Composition(None),
            Answer::Accessible(AccessibleAnswer::NoWindow),
        ],
    );
    assert_eq!(detector.last_source, DetectionSource::Undetected);
}

#[test]
fn stray_answer_is_ignored_and_question_asked_again() {
    let mut detector = CaretDetector::new(true);
    detector.get_caret_pos();
    let before = detector.clone();
    assert_eq!(detector.resume(Answer::Rect(None)), Step::Ask(Probe::GuiThreadInfo));
    assert_eq!(detector, before);
    detector.resume(thread_info(4, 0, 0, (1, 2, 3, 4)));
    let before = detector.clone();
    assert_eq!(
        detector.resume(Answer::Composition(None)),
        Step::Ask(Probe::ClientToScreen { window: 4, x: 1, y: 2 })
    );
    assert_eq!(detector, before);
}

#[test]
fn judging_one_strategy_alone() {
    let ruling = CaretDetector::get_pos_via_uia_caret_range(
        Stage::CaretRange,
        Answer::CaretRange(CaretRangeAnswer::Bounds { lower: 0, upper: 2 }),
    );
    assert_eq!(ruling.outcome, Outcome::More(Stage::Expanded { first: 3 }));
    assert_eq!(ruling.note, None);
    let ruling = CaretDetector::get_pos_via_ime(
        Stage::CompositionPoint { window: 1, x: 2, y: 3 },
        Answer::ScreenPoint { x: 40, y: 50 },
    );
    assert_eq!(ruling.outcome, Outcome::Found((40, 50, 20)));
    let ruling = CaretDetector::get_pos_via_gui_info(
        Stage::GuiInfo,
        thread_info(8, 0, 0, (1, 10, 3, 4)),
    );
    assert_eq!(
        ruling.outcome,
        Outcome::More(Stage::GuiPoint { window: 8, x: 1, y: 10, height: -6 })
    );
    let ruling = CaretDetector::get_pos_via_uia_selection(
        Stage::Selection,
        Answer::Selection(SelectionAnswer::SelectionFailed(0xBEEF)),
    );
    assert_eq!(ruling.outcome, Outcome::GiveUp);
    assert_eq!(ruling.note, Some(String::from("Sel:Sel:BEEF")));
    let ruling = CaretDetector::get_pos_via_msaa_fallback(
        Stage::Accessible,
        Answer::Accessible(AccessibleAnswer::LocationFailed(0xC0DE)),
    );
    assert_eq!(ruling.outcome, Outcome::More(Stage::FallbackInfo));
    assert_eq!(ruling.note, Some(String::from("MSAA:Loc:C0DE")));
    let ruling = CaretDetector::judge(Stage::Accessible, Answer::Accessible(AccessibleAnswer::NoWindow));
    assert_eq!(ruling.outcome, Outcome::GiveUp);
    assert_eq!(ruling.note, Some(String::from("MSAA:NoHwnd")));
}

#[test]
fn stage_knows_its_question_strategy_and_successor() {
    assert_eq!(Stage::ExpandedRect { first: 0 }.pending(), Probe::RectData);
    assert_eq!(Stage::Expanded { first: 0 }.strategy(), DetectionSource::UiaCaretRange);
    assert_eq!(Stage::GuiInfo.next_strategy(true), Some(Stage::CaretRange));
    assert_eq!(Stage::GuiInfo.next_strategy(false), Some(Stage::Composition));
    assert_eq!(Stage::CaretRect.next_strategy(true), Some(Stage::Selection));
    assert_eq!(Stage::SelectionRect.next_strategy(true), Some(Stage::Composition));
    assert_eq!(Stage::Composition.next_strategy(true), Some(Stage::Accessible));
    assert_eq!(Stage::FallbackInfo.next_strategy(true), None);
}

#[test]
fn answers_know_their_question_and_their_form() {
    assert!(Answer::Rect(None).is_answer_to(&Probe::RectData));
    assert!(!Answer::Rect(None).is_answer_to(&Probe::CaretRange));
    assert!(Answer::ScreenPoint { x: 0, y: 0 }
        .is_answer_to(&Probe::ClientToScreen { window: 1, x: 2, y: 3 }));
    assert!(thread_info(0, 0, 0, (0, 0, 0, 0)).is_well_formed());
    assert!(!thread_info(0, 0, 0, (0, i32::MIN, 0, 1)).is_well_formed());
    assert!(thread_info(0, 0, 0, (0, i32::MIN, 0, -1)).is_well_formed());
    assert!(Rect { left: 0, top: 0, right: 0, bottom: i32::MIN }.is_measurable());
    assert!(!Rect { left: 0, top: 1, right: 0, bottom: i32::MIN }.is_measurable());
    assert!(Rect { left: 0, top: -1, right: 0, bottom: i32::MAX - 1 }.is_measurable());
    assert!(!Rect { left: 0, top: -1, right: 0, bottom: i32::MAX }.is_measurable());
}
