use rust_indicator::caret_detector::{CaretDetector, DetectionSource, Step};
use rust_indicator::config::Config;
use rust_indicator::cursor_detector::CursorDetector;
use rust_indicator::desktop::{
    Answer, CaretRangeAnswer, GuiThreadInfo, Probe, Quad, Rect, SelectionAnswer,
    SelectionRangeAnswer,
};
use rust_indicator::ime_detector::{
    get_focused_window, is_caps_lock_on, is_chinese_mode, needs_conversion_mode,
    needs_open_status,
};
use rust_indicator::indicator::{
    caret_should_show, mouse_should_show, DetectorLoop, IndicatorState, TickCalls, Transition,
};
use rust_indicator::overlay::{select_color, ColorSelector, IndicatorOverlay, Placement};
use rust_indicator::tray::{window_proc, TrayAction};

fn overlay() -> IndicatorOverlay {
    IndicatorOverlay::new("Caret", 8, 0xA0FF7800, 0x300078FF, 0xA000FF00, 2, 18)
}

#[test]
fn visibility_is_edge_triggered() {
    let mut state = IndicatorState::new();
    let mut calls = Vec::new();
    for (tick, wanted) in [true, true, true, false, false, true].into_iter().enumerate() {
        if let Some(call) = state.observe(wanted) {
            calls.push((tick, call));
        }
        assert_eq!(state.active, wanted);
    }
    assert_eq!(
        calls,
        vec![(0, Transition::Show), (3, Transition::Hide), (5, Transition::Show)]
    );
}

#[test]
fn no_call_while_nothing_changes() {
    let mut state = IndicatorState::new();
    for _ in 0..5 {
        assert_eq!(state.observe(false), None);
    }
    assert_eq!(state.observe(true), Some(Transition::Show));
    for _ in 0..5 {
        assert_eq!(state.observe(true), None);
    }
    assert_eq!(state.observe(false), Some(Transition::Hide));
}

#[test]
fn calls_alternate_on_any_sequence() {
    for bits in 0u32..256 {
        for start in [false, true] {
            let mut state = IndicatorState { active: start };
            let mut before = start;
            let mut last: Option<Transition> = None;
            let mut made = 0;
            let mut edges = 0;
            for i in 0..8 {
                let wanted = bits >> i & 1 == 1;
                if wanted != before {
                    edges += 1;
                }
                if let Some(call) = state.observe(wanted) {
                    assert_ne!(Some(call), last);
                    assert_eq!(call == Transition::Show, wanted);
                    last = Some(call);
                    made += 1;
                }
                before = wanted;
            }
            assert_eq!(made, edges);
        }
    }
}

#[test]
fn caret_shows_in_native_mode_with_caps_or_always() {
    assert!(caret_should_show(true, false, false));
    assert!(caret_should_show(false, true, false));
    assert!(caret_should_show(false, false, true));
    assert!(!caret_should_show(false, false, false));
}

#[test]
fn pointer_needs_target_shape() {
    for is_cn in [false, true] {
        for is_caps in [false, true] {
            for show_en in [false, true] {
                assert!(!mouse_should_show(false, is_cn, is_caps, show_en));
                assert_eq!(
                    mouse_should_show(true, is_cn, is_caps, show_en),
                    is_cn || is_caps || show_en
                );
            }
        }
    }
}

#[test]
fn color_is_chosen_by_caps_then_mode() {
    assert_eq!(select_color(true, true), ColorSelector::CapsLock);
    assert_eq!(select_color(true, false), ColorSelector::CapsLock);
    assert_eq!(select_color(false, true), ColorSelector::Native);
    assert_eq!(select_color(false, false), ColorSelector::Alphabetic);
}

#[test]
fn overlay_places_dot_below_the_anchor() {
    let o = overlay();
    assert_eq!(o.name, "Caret");
    assert_eq!(
        o.update(100, 200, true, false, 16),
        Placement { x: 98, y: 230, size: 8, color: 0xA0FF7800, selector: ColorSelector::Native }
    );
    assert_eq!(
        o.update(100, 200, false, false, 0),
        Placement {
            x: 98,
            y: 214,
            size: 8,
            color: 0x300078FF,
            selector: ColorSelector::Alphabetic
        }
    );
    assert_eq!(
        o.update(-5, -7, true, true, 3),
        Placement { x: -7, y: 10, size: 8, color: 0xA000FF00, selector: ColorSelector::CapsLock }
    );
}

#[test]
fn overlay_halves_size_toward_zero() {
    let o = IndicatorOverlay::new("Mouse", 9, 1, 2, 3, 0, 0);
    assert_eq!(o.update(10, 10, false, false, 0).x, 6);
    let o = IndicatorOverlay::new("Mouse", -9, 1, 2, 3, 0, 0);
    let dot = o.update(10, 10, false, false, 0);
    assert_eq!((dot.x, dot.y, dot.size), (14, 14, -9));
    let o = IndicatorOverlay::new("Mouse", 1, 1, 2, 3, 0, 0);
    assert_eq!(o.update(10, 10, false, false, 0).x, 10);
}

#[test]
fn overlay_knows_what_it_can_reach() {
    let o = overlay();
    assert!(o.can_reach(0, 0, 0));
    assert!(o.can_reach(i32::MAX, 0, 0));
    assert!(!o.can_reach(i32::MAX, i32::MAX, 0));
    assert!(o.can_reach(i32::MAX, i32::MAX - 14, 0));
    assert!(!o.can_reach(i32::MAX, i32::MAX - 13, 0));
    assert!(!o.can_reach(i32::MIN, 0, 0));
    assert!(o.can_reach(i32::MIN + 2, 0, 0));
    assert_eq!(o.update(i32::MAX, i32::MAX - 14, false, false, 0).y, i32::MAX);
}

#[test]
fn state_tick_shows_and_hides_on_change_only() {
    let config = Config { caret_show_en: false, mouse_show_en: false, ..Config::default() };
    let mut state = DetectorLoop::new();
    assert_eq!(
        state.state_tick(&config, true, false, true),
        TickCalls { caret: Some(Transition::Show), mouse: Some(Transition::Show) }
    );
    assert!(state.is_cn && !state.is_caps);
    assert_eq!(state.state_tick(&config, true, false, true), TickCalls { caret: None, mouse: None });
    assert_eq!(
        state.state_tick(&config, true, false, false),
        TickCalls { caret: None, mouse: Some(Transition::Hide) }
    );
    assert_eq!(
        state.state_tick(&config, false, false, true),
        TickCalls { caret: Some(Transition::Hide), mouse: None }
    );
    assert_eq!(
        state.state_tick(&config, false, true, true),
        TickCalls { caret: Some(Transition::Show), mouse: Some(Transition::Show) }
    );
    assert!(!state.is_cn && state.is_caps);
}

#[test]
fn state_tick_respects_settings() {
    let config = Config {
        caret_enable: false,
        mouse_show_en: true,
        caps_enable: false,
        ..Config::default()
    };
    let mut state = DetectorLoop::new();
    let made = state.state_tick(&config, true, true, true);
    assert_eq!(made, TickCalls { caret: None, mouse: Some(Transition::Show) });
    assert!(!state.caret.active);
    assert!(!state.is_caps);
    let made = state.state_tick(&config, false, true, true);
    assert_eq!(made, TickCalls { caret: None, mouse: None });
    assert!(state.mouse.active);
    let config = Config { mouse_enable: false, caret_show_en: false, ..Config::default() };
    let mut state = DetectorLoop::new();
    assert_eq!(
        state.state_tick(&config, false, false, true),
        TickCalls { caret: None, mouse: None }
    );
    assert_eq!(
        state.state_tick(&config, false, true, true),
        TickCalls { caret: Some(Transition::Show), mouse: None }
    );
}

#[test]
fn state_tick_is_due_after_the_interval() {
    let config = Config::default();
    assert!(!DetectorLoop::state_tick_due(&config, 99));
    assert!(DetectorLoop::state_tick_due(&config, 100));
    assert!(DetectorLoop::state_tick_due(&config, u128::MAX));
    let config = Config { poll_state_interval_ms: 0, ..Config::default() };
    assert!(DetectorLoop::state_tick_due(&config, 0));
}

#[test]
fn track_draws_only_for_active_indicators_with_a_position() {
    let o = overlay();
    let mut state = DetectorLoop::new();
    assert_eq!(state.track_caret(&o, Some((1, 2, 3))), None);
    assert_eq!(state.track_mouse(&o, Some((1, 2))), None);
    state.caret.active = true;
    state.mouse.active = true;
    state.is_caps = true;
    assert_eq!(state.track_caret(&o, None), None);
    assert_eq!(state.track_mouse(&o, None), None);
    assert_eq!(
        state.track_caret(&o, Some((1, 2, 3))),
        Some(Placement { x: -1, y: 19, size: 8, color: 0xA000FF00, selector: ColorSelector::CapsLock })
    );
    assert_eq!(
        state.track_mouse(&o, Some((1, 2))),
        Some(Placement { x: -1, y: 16, size: 8, color: 0xA000FF00, selector: ColorSelector::CapsLock })
    );
}

#[test]
fn native_mode_shows_caret_and_first_strategy_places_it() {
    let config = Config { caret_show_en: false, ..Config::default() };
    let caret_overlay = IndicatorOverlay::new(
        "Caret",
        config.caret_size,
        config.caret_color_cn,
        config.caret_color_en,
        config.caps_color,
        config.caret_offset_x,
        config.caret_offset_y,
    );
    let mut state = DetectorLoop::new();
    let made = state.state_tick(&config, true, false, false);
    assert_eq!(made.caret, Some(Transition::Show));
    assert!(state.caret.active);

    let mut detector = CaretDetector::new(true);
    assert_eq!(detector.get_caret_pos(), Probe::GuiThreadInfo);
    let step = detector.resume(Answer::GuiThreadInfo(Some(GuiThreadInfo {
        hwnd_active: 1,
        hwnd_focus: 2,
        hwnd_caret: 3,
        rc_caret: Rect { left: 40, top: 60, right: 41, bottom: 78 },
    })));
    assert_eq!(step, Step::Ask(Probe::ClientToScreen { window: 3, x: 40, y: 60 }));
    let step = detector.resume(Answer::ScreenPoint { x: 540, y: 360 });
    assert_eq!(step, Step::Done(Some((540, 360, 18))));
    assert_eq!(detector.last_source, DetectionSource::GuiInfo);
    assert_eq!(detector.last_uia_error, "");

    let found = match step {
        Step::Done(found) => found,
        Step::Ask(_) => None,
    };
    let dot = state.track_caret(&caret_overlay, found).unwrap();
    assert_eq!(dot.selector, ColorSelector::Native);
    assert_eq!(dot.color, config.caret_color_cn);
    assert_eq!((dot.x, dot.y), (540 - 4, 360 + 18 - 4));
}

#[test]
fn selection_wins_and_trail_keeps_earlier_failures() {
    let mut detector = CaretDetector::new(true);
    detector.get_caret_pos();
    assert_eq!(detector.resume(Answer::GuiThreadInfo(None)), Step::Ask(Probe::CaretRange));
    assert_eq!(
        detector.resume(Answer::CaretRange(CaretRangeAnswer::PatternFailed(0x80070057))),
        Step::Ask(Probe::Selection)
    );
    assert_eq!(detector.last_uia_error, "Car:Pat2:80070057");
    detector.resume(Answer::Selection(SelectionAnswer::Length(Some(1))));
    detector.resume(Answer::SelectionRange(SelectionRangeAnswer::Bounds { lower: 0, upper: 7 }));
    let step =
        detector.resume(Answer::Rect(Some(Quad { left: 12, top: 34, width: 1, height: 15 })));
    assert_eq!(step, Step::Done(Some((12, 34, 15))));
    assert_eq!(detector.last_source, DetectionSource::UiAutomation);
    assert_eq!(detector.last_uia_error, "Car:Pat2:80070057");
}

#[test]
fn total_failure_draws_nothing_and_keeps_indicator_shown() {
    let o = overlay();
    let mut state = DetectorLoop::new();
    state.state_tick(&Config::default(), false, false, false);
    assert!(state.caret.active);
    assert_eq!(state.track_caret(&o, None), None);
    assert!(state.caret.active);
}

#[test]
fn cursor_detector_keeps_live_handles_only() {
    let detector = CursorDetector::new(&[Some(65541), None, Some(0), Some(65539), Some(65541)]);
    assert_eq!(detector.target_cursor_handles.len(), 2);
    assert!(detector.is_target_cursor(Some(65541)));
    assert!(detector.is_target_cursor(Some(65539)));
    assert!(!detector.is_target_cursor(Some(0)));
    assert!(!detector.is_target_cursor(Some(65543)));
    assert!(!detector.is_target_cursor(None));
}

#[test]
fn cursor_detector_without_targets_matches_nothing() {
    let detector = CursorDetector::new(&[]);
    assert!(!detector.is_target_cursor(Some(65541)));
    assert!(!detector.is_target_cursor(Some(0)));
    let handles = CursorDetector::get_shared_cursor_handles(&[None, Some(0)]);
    assert!(handles.is_empty());
    let handles = CursorDetector::get_shared_cursor_handles(&[Some(-1)]);
    assert!(handles.contains(&-1));
}

#[test]
fn focused_window_prefers_focus_then_active_then_foreground() {
    let info = |focus, active| {
        Some(GuiThreadInfo {
            hwnd_active: active,
            hwnd_focus: focus,
            hwnd_caret: 99,
            rc_caret: Rect { left: 0, top: 0, right: 0, bottom: 0 },
        })
    };
    assert_eq!(get_focused_window(0, info(2, 3)), 0);
    assert_eq!(get_focused_window(1, info(2, 3)), 2);
    assert_eq!(get_focused_window(1, info(0, 3)), 3);
    assert_eq!(get_focused_window(1, info(0, 0)), 1);
    assert_eq!(get_focused_window(1, None), 1);
}

#[test]
fn native_mode_needs_open_ime_and_native_bit() {
    assert!(is_chinese_mode(7, Some(1), Some(1)));
    assert!(is_chinese_mode(7, Some(2), Some(0x409)));
    assert!(!is_chinese_mode(7, Some(1), Some(0x408)));
    assert!(!is_chinese_mode(7, Some(1), None));
    assert!(!is_chinese_mode(7, Some(0), Some(1)));
    assert!(!is_chinese_mode(7, None, Some(1)));
    assert!(!is_chinese_mode(0, Some(1), Some(1)));
    assert!(is_chinese_mode(-7, Some(1), Some(usize::MAX)));
}

#[test]
fn ime_questions_are_asked_only_while_open() {
    assert!(!needs_open_status(0));
    assert!(needs_open_status(5));
    assert!(!needs_conversion_mode(0, Some(1)));
    assert!(!needs_conversion_mode(5, None));
    assert!(!needs_conversion_mode(5, Some(0)));
    assert!(needs_conversion_mode(5, Some(1)));
}

#[test]
fn caps_lock_is_the_low_bit() {
    assert!(is_caps_lock_on(1));
    assert!(is_caps_lock_on(-127));
    assert!(is_caps_lock_on(-1));
    assert!(!is_caps_lock_on(0));
    assert!(!is_caps_lock_on(-128));
    assert!(!is_caps_lock_on(2));
}

#[test]
fn tray_messages() {
    assert_eq!(window_proc(0x0401, 0, 0x0205), TrayAction::ShowMenu);
    assert_eq!(window_proc(0x0401, 0, 0x0202), TrayAction::Unhandled);
    assert_eq!(window_proc(0x0401, 0, 0x1_0000_0205), TrayAction::ShowMenu);
    assert_eq!(window_proc(0x0111, 1004, 0), TrayAction::Quit);
    assert_eq!(window_proc(0x0111, 1001, 0), TrayAction::Restart);
    assert_eq!(window_proc(0x0111, 1002, 0), TrayAction::OpenConfig);
    assert_eq!(window_proc(0x0111, 1003, 0), TrayAction::ShowAbout);
    assert_eq!(window_proc(0x0111, 1005, 0), TrayAction::Ignore);
    assert_eq!(window_proc(0x0111, 0x1_0000_03EC, 0), TrayAction::Quit);
    assert_eq!(window_proc(0x0002, 0, 0), TrayAction::Quit);
    assert_eq!(window_proc(0x000F, 1004, 0x0205), TrayAction::Unhandled);
}
