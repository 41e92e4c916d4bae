//! Where the indicator dot is drawn and in which colour.

use vstd::prelude::*;

verus! {

/// Which of an indicator's three colours applies.
#[derive(Debug, Clone, Copy, PartialEq, Eq, Structural)]
pub enum ColorSelector {
    /// The input method converts to native text.
    Native,
    /// The input method passes letters through.
    Alphabetic,
    /// Caps Lock is on.
    CapsLock,
}

/// The colour that applies: Caps Lock comes before the native mode, which
/// comes before the alphabetic mode.
pub open spec fn selected_color(is_caps: bool, is_chinese: bool) -> ColorSelector {
    if is_caps {
        ColorSelector::CapsLock
    } else if is_chinese {
        ColorSelector::Native
    } else {
        ColorSelector::Alphabetic
    }
}

/// Chooses the colour from the two input signals.
pub fn select_color(is_caps: bool, is_chinese: bool) -> (selector: ColorSelector)
    ensures
        selector == selected_color(is_caps, is_chinese),
        is_caps ==> selector == ColorSelector::CapsLock,
        !is_caps && is_chinese ==> selector == ColorSelector::Native,
        !is_caps && !is_chinese ==> selector == ColorSelector::Alphabetic,
{
    if is_caps {
        ColorSelector::CapsLock
    } else if is_chinese {
        ColorSelector::Native
    } else {
        ColorSelector::Alphabetic
    }
}

/// One drawing of the dot: the top left corner of its square on the screen,
/// the side of the square and the packed ARGB colour.
#[derive(Debug, Clone, Copy, PartialEq, Eq, Structural)]
pub struct Placement {
    pub x: i32,
    pub y: i32,
    pub size: i32,
    pub color: u32,
    pub selector: ColorSelector,
}

/// An indicator dot: its size, its three colours and its offset from the
/// anchor.
#[derive(Debug, Clone, PartialEq, Eq)]
pub struct IndicatorOverlay {
    pub name: String,
    pub size: i32,
    pub color_cn: u32,
    pub color_en: u32,
    pub color_caps: u32,
    pub offset_x: i32,
    pub offset_y: i32,
}

/// Half of a size, rounded toward zero.
pub open spec fn half(size: int) -> int {
    if size >= 0 {
        size / 2
    } else {
        -((-size) / 2)
    }
}

impl IndicatorOverlay {
    /// The colour of the overlay that `selector` names.
    pub open spec fn color_of(self, selector: ColorSelector) -> u32 {
        match selector {
            ColorSelector::CapsLock => self.color_caps,
            ColorSelector::Native => self.color_cn,
            ColorSelector::Alphabetic => self.color_en,
        }
    }

    /// The horizontal position of the dot for an anchor at `x`.
    pub open spec fn dot_x(self, x: int) -> int {
        x + self.offset_x - half(self.size as int)
    }

    /// The vertical position of the dot for an anchor at `y` that is
    /// `caret_h` high: the dot hangs below the anchor.
    pub open spec fn dot_y(self, y: int, caret_h: int) -> int {
        y + caret_h + self.offset_y - half(self.size as int)
    }

    /// The dot for the given anchor lies within the range of pixel
    /// coordinates.
    pub open spec fn reaches(self, x: i32, y: i32, caret_h: i32) -> bool {
        &&& i32::MIN <= self.dot_x(x as int) <= i32::MAX
        &&& i32::MIN <= self.dot_y(y as int, caret_h as int) <= i32::MAX
    }

    /// An overlay with the given size, colours and offsets.
    pub fn new(
        name: &str,
        size: i32,
        color_cn: u32,
        color_en: u32,
        color_caps: u32,
        offset_x: i32,
        offset_y: i32,
    ) -> (overlay: Self)
        ensures
            overlay.name@ == name@,
            overlay.size == size,
            overlay.color_cn == color_cn,
            overlay.color_en == color_en,
            overlay.color_caps == color_caps,
            overlay.offset_x == offset_x,
            overlay.offset_y == offset_y,
    {
        IndicatorOverlay {
            name: String::from_str(name),
            size,
            color_cn,
            color_en,
            color_caps,
            offset_x,
            offset_y,
        }
    }

    /// Tests `reaches`.
    pub fn can_reach(&self, x: i32, y: i32, caret_h: i32) -> (b: bool)
        ensures
            b == self.reaches(x, y, caret_h),
    {
        let half: i64 = (self.size / 2) as i64;
        let dot_x: i64 = x as i64 + self.offset_x as i64 - half;
        let dot_y: i64 = y as i64 + caret_h as i64 + self.offset_y as i64 - half;
        -0x8000_0000i64 <= dot_x && dot_x <= 0x7fff_ffffi64 && -0x8000_0000i64 <= dot_y && dot_y
            <= 0x7fff_ffffi64
    }

    /// The drawing of the dot for an anchor at `(x, y)` of height `caret_h`
    /// under the given input signals.
    pub fn update(&self, x: i32, y: i32, is_chinese: bool, is_caps: bool, caret_h: i32) -> (dot:
        Placement)
        requires
            self.reaches(x, y, caret_h),
        ensures
            dot.x == self.dot_x(x as int),
            dot.y == self.dot_y(y as int, caret_h as int),
            dot.size == self.size,
            dot.selector == selected_color(is_caps, is_chinese),
            dot.color == self.color_of(dot.selector),
    {
        let selector = select_color(is_caps, is_chinese);
        let color = match selector {
            ColorSelector::CapsLock => self.color_caps,
            ColorSelector::Native => self.color_cn,
            ColorSelector::Alphabetic => self.color_en,
        };
        let half: i64 = (self.size / 2) as i64;
        let dot_x: i64 = x as i64 + self.offset_x as i64 - half;
        let dot_y: i64 = y as i64 + caret_h as i64 + self.offset_y as i64 - half;
        Placement { x: dot_x as i32, y: dot_y as i32, size: self.size, color, selector }
    }
}

} // verus!
