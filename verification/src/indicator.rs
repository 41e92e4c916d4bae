//! When an indicator is visible. Each indicator is shown or hidden only when
//! what it should be differs from what it is.

use vstd::prelude::*;
use crate::caret_detector::CaretPos;
use crate::config::Config;
use crate::overlay::{selected_color, IndicatorOverlay, Placement};

verus! {

/// A call to the renderer that changes an indicator's visibility.
#[derive(Debug, Clone, Copy, PartialEq, Eq, Structural)]
pub enum Transition {
    Show,
    Hide,
}

/// The call that an indicator in state `active` makes when it should be
/// visible or not: none unless the two differ.
pub open spec fn edge(active: bool, should_show: bool) -> Option<Transition> {
    if should_show == active {
        None
    } else if should_show {
        Some(Transition::Show)
    } else {
        Some(Transition::Hide)
    }
}

/// Whether the caret indicator should be visible: in the native mode, with
/// Caps Lock on, or always if it is set to show in the alphabetic mode too.
pub open spec fn caret_wanted(is_cn: bool, is_caps: bool, show_en: bool) -> bool {
    is_cn || is_caps || show_en
}

/// Whether the pointer indicator should be visible: as the caret indicator,
/// and only over a pointer of a target shape.
pub open spec fn mouse_wanted(is_target: bool, is_cn: bool, is_caps: bool, show_en: bool) -> bool {
    is_target && (is_cn || is_caps || show_en)
}

/// Decides whether the caret indicator should be visible.
pub fn caret_should_show(is_cn: bool, is_caps: bool, show_en: bool) -> (should: bool)
    ensures
        should == caret_wanted(is_cn, is_caps, show_en),
{
    is_cn || is_caps || show_en
}

/// Decides whether the pointer indicator should be visible.
pub fn mouse_should_show(is_target: bool, is_cn: bool, is_caps: bool, show_en: bool) -> (should:
    bool)
    ensures
        should == mouse_wanted(is_target, is_cn, is_caps, show_en),
        !is_target ==> !should,
{
    is_target && (is_cn || is_caps || show_en)
}

/// Whether an indicator is shown.
#[derive(Debug, Clone, Copy, PartialEq, Eq, Structural)]
pub struct IndicatorState {
    pub active: bool,
}

impl IndicatorState {
    /// An indicator that is not shown.
    pub fn new() -> (state: Self)
        ensures
            !state.active,
    {
        IndicatorState { active: false }
    }

    /// Takes what the indicator should be and hands back the call to make,
    /// if any.
    pub fn observe(&mut self, should_show: bool) -> (call: Option<Transition>)
        ensures
            final(self).active == should_show,
            call == edge(old(self).active, should_show),
    {
        if should_show != self.active {
            self.active = should_show;
            if should_show {
                Some(Transition::Show)
            } else {
                Some(Transition::Hide)
            }
        } else {
            None
        }
    }
}

/// The calls that an indicator makes over a sequence of ticks, given what it
/// should be at each of them.
pub open spec fn calls(active: bool, wanted: Seq<bool>) -> Seq<Transition>
    decreases wanted.len(),
{
    if wanted.len() == 0 {
        Seq::empty()
    } else {
        let rest = calls(wanted[0], wanted.drop_first());
        match edge(active, wanted[0]) {
            Some(call) => seq![call] + rest,
            None => rest,
        }
    }
}

/// The value before the tick `i`: the initial state before the first tick.
pub open spec fn before(active: bool, wanted: Seq<bool>, i: int) -> bool {
    if i <= 0 {
        active
    } else {
        wanted[i - 1]
    }
}

/// The number of ticks among the first `n` at which the wanted value differs
/// from the value before.
pub open spec fn changes(active: bool, wanted: Seq<bool>, n: nat) -> nat
    decreases n,
{
    if n == 0 {
        0
    } else {
        let earlier = changes(active, wanted, (n - 1) as nat);
        if wanted[n - 1] != before(active, wanted, n - 1) {
            earlier + 1
        } else {
            earlier
        }
    }
}

/// The call of a given position in the sequence of calls of an indicator that
/// began in state `active`: calls alternate, beginning with the one that
/// changes the initial state.
pub open spec fn alternating(active: bool, k: int) -> Transition {
    if (k % 2 == 0) == active {
        Transition::Hide
    } else {
        Transition::Show
    }
}

proof fn lemma_changes_shift(active: bool, wanted: Seq<bool>, n: nat)
    requires
        0 < n <= wanted.len(),
    ensures
        changes(active, wanted, n) == changes(wanted[0], wanted.drop_first(), (n - 1) as nat) + (
        if wanted[0] != active {
            1nat
        } else {
            0nat
        }),
    decreases n,
{
    if n > 1 {
        lemma_changes_shift(active, wanted, (n - 1) as nat);
        let tail = wanted.drop_first();
        assert(tail[n - 2] == wanted[n - 1]);
        assert(before(wanted[0], tail, n - 2) == before(active, wanted, n - 1));
    } else {
        assert(changes(active, wanted, 0) == 0);
        assert(changes(wanted[0], wanted.drop_first(), 0) == 0);
    }
}

/// Visibility is edge-triggered. Over any sequence of ticks an indicator
/// makes exactly one call for each tick at which the wanted value differs
/// from the value before, and none else; the calls alternate between show
/// and hide, beginning with the one that changes the initial state.
pub proof fn law_edge_triggered(active: bool, wanted: Seq<bool>)
    ensures
        calls(active, wanted).len() == changes(active, wanted, wanted.len()),
        forall|k: int|
            0 <= k < calls(active, wanted).len() ==> #[trigger] calls(active, wanted)[k]
                == alternating(active, k),
    decreases wanted.len(),
{
    if wanted.len() > 0 {
        let tail = wanted.drop_first();
        law_edge_triggered(wanted[0], tail);
        lemma_changes_shift(active, wanted, wanted.len());
        let rest = calls(wanted[0], tail);
        assert forall|k: int| 0 <= k < calls(active, wanted).len() implies #[trigger] calls(
            active,
            wanted,
        )[k] == alternating(active, k) by {
            if wanted[0] != active {
                if k > 0 {
                    assert(calls(active, wanted)[k] == rest[k - 1]);
                    assert(rest[k - 1] == alternating(wanted[0], k - 1));
                }
            } else {
                assert(calls(active, wanted)[k] == rest[k]);
            }
        }
    }
}

/// The state of the polling loop: the input signals of the last state tick
/// and whether each indicator is shown.
#[derive(Debug, Clone, Copy, PartialEq, Eq, Structural)]
pub struct DetectorLoop {
    pub is_cn: bool,
    pub is_caps: bool,
    pub caret: IndicatorState,
    pub mouse: IndicatorState,
}

/// The calls that a state tick makes, for the caret and for the pointer
/// indicator.
#[derive(Debug, Clone, Copy, PartialEq, Eq, Structural)]
pub struct TickCalls {
    pub caret: Option<Transition>,
    pub mouse: Option<Transition>,
}

impl DetectorLoop {
    /// The loop before its first tick: no signal, nothing shown.
    pub fn new() -> (state: Self)
        ensures
            state == (DetectorLoop {
                is_cn: false,
                is_caps: false,
                caret: IndicatorState { active: false },
                mouse: IndicatorState { active: false },
            }),
    {
        DetectorLoop {
            is_cn: false,
            is_caps: false,
            caret: IndicatorState { active: false },
            mouse: IndicatorState { active: false },
        }
    }

    /// Whether the state tick is due, `elapsed_ms` after the last one.
    pub fn state_tick_due(config: &Config, elapsed_ms: u128) -> (due: bool)
        ensures
            due == (elapsed_ms >= config.poll_state_interval_ms),
    {
        elapsed_ms >= config.poll_state_interval_ms as u128
    }

    /// The state tick. Takes the fresh input signals: whether the input
    /// method is in the native mode, whether Caps Lock is toggled, which
    /// counts only where the settings enable it, and whether the pointer has
    /// a target shape. An indicator that the settings disable stays as it
    /// is and makes no call.
    pub fn state_tick(&mut self, config: &Config, is_cn: bool, caps_lock: bool, is_target: bool) -> (made:
        TickCalls)
        ensures
            final(self).is_cn == is_cn,
            final(self).is_caps == (config.caps_enable && caps_lock),
            config.caret_enable ==> {
                &&& final(self).caret.active == caret_wanted(
                    is_cn,
                    final(self).is_caps,
                    config.caret_show_en,
                )
                &&& made.caret == edge(old(self).caret.active, final(self).caret.active)
            },
            !config.caret_enable ==> final(self).caret == old(self).caret && made.caret is None,
            config.mouse_enable ==> {
                &&& final(self).mouse.active == mouse_wanted(
                    is_target,
                    is_cn,
                    final(self).is_caps,
                    config.mouse_show_en,
                )
                &&& made.mouse == edge(old(self).mouse.active, final(self).mouse.active)
            },
            !config.mouse_enable ==> final(self).mouse == old(self).mouse && made.mouse is None,
            config.mouse_enable && !is_target ==> !final(self).mouse.active && made.mouse
                != Some(Transition::Show),
    {
        self.is_cn = is_cn;
        self.is_caps = config.caps_enable && caps_lock;
        let mut made = TickCalls { caret: None, mouse: None };
        if config.caret_enable {
            let should = caret_should_show(self.is_cn, self.is_caps, config.caret_show_en);
            let mut caret = self.caret;
            made.caret = caret.observe(should);
            self.caret = caret;
        }
        if config.mouse_enable {
            let should = mouse_should_show(
                is_target,
                self.is_cn,
                self.is_caps,
                config.mouse_show_en,
            );
            let mut mouse = self.mouse;
            made.mouse = mouse.observe(should);
            self.mouse = mouse;
        }
        made
    }

    /// The track tick of the caret indicator: the drawing for the position
    /// that the detector found. An indicator that is not shown, or a run
    /// that found nothing, draws nothing and leaves the dot where it was.
    pub fn track_caret(&self, overlay: &IndicatorOverlay, found: Option<CaretPos>) -> (dot: Option<
        Placement,
    >)
        requires
            self.caret.active ==> match found {
                Some(pos) => overlay.reaches(pos.0, pos.1, pos.2),
                None => true,
            },
        ensures
            dot is Some <==> self.caret.active && found is Some,
            dot is Some ==> {
                let pos = found.unwrap();
                let drawn = dot.unwrap();
                &&& drawn.x == overlay.dot_x(pos.0 as int)
                &&& drawn.y == overlay.dot_y(pos.1 as int, pos.2 as int)
                &&& drawn.size == overlay.size
                &&& drawn.selector == selected_color(self.is_caps, self.is_cn)
                &&& drawn.color == overlay.color_of(drawn.selector)
            },
    {
        if !self.caret.active {
            return None;
        }
        match found {
            Some(pos) => Some(overlay.update(pos.0, pos.1, self.is_cn, self.is_caps, pos.2)),
            None => None,
        }
    }

    /// The track tick of the pointer indicator: the drawing for the
    /// pointer's own position, which has no height.
    pub fn track_mouse(&self, overlay: &IndicatorOverlay, pointer: Option<(i32, i32)>) -> (dot:
        Option<Placement>)
        requires
            self.mouse.active ==> match pointer {
                Some(point) => overlay.reaches(point.0, point.1, 0),
                None => true,
            },
        ensures
            dot is Some <==> self.mouse.active && pointer is Some,
            dot is Some ==> {
                let point = pointer.unwrap();
                let drawn = dot.unwrap();
                &&& drawn.x == overlay.dot_x(point.0 as int)
                &&& drawn.y == overlay.dot_y(point.1 as int, 0)
                &&& drawn.size == overlay.size
                &&& drawn.selector == selected_color(self.is_caps, self.is_cn)
                &&& drawn.color == overlay.color_of(drawn.selector)
            },
    {
        if !self.mouse.active {
            return None;
        }
        match pointer {
            Some(point) => Some(overlay.update(point.0, point.1, self.is_cn, self.is_caps, 0)),
            None => None,
        }
    }
}

} // verus!
