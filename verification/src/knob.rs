//! The integer parameter knob: the bounds it reads from a parameter's range,
//! and the value it sets after a double click, a scroll and a drag.
//! The knob works on the distance of the value from the range's lower bound,
//! kept between 0 and the width of the range while the user turns it.
use vstd::prelude::*;

verus! {

/// The range of an integer parameter.
#[derive(Debug)]
pub enum IntRangeShape {
    /// The values from `min` to `max`.
    Linear { min: i32, max: i32 },
    /// Another range, shown the other way round.
    Reversed(Box<IntRangeShape>),
}

/// The lowest and the highest value of the transposition parameter, in semitones.
pub const TRANSPOSE_MIN: i32 = -48i32;

pub const TRANSPOSE_MAX: i32 = 48i32;

/// The range of the transposition parameter.
pub fn transpose_range() -> (r: IntRangeShape)
    ensures
        r == (IntRangeShape::Linear { min: TRANSPOSE_MIN, max: TRANSPOSE_MAX }),
{
    IntRangeShape::Linear { min: TRANSPOSE_MIN, max: TRANSPOSE_MAX }
}

/// The bounds the knob reads from a range: those of a linear range, also when
/// it is reversed once; (0, 0) for any other shape.
pub open spec fn spec_knob_bounds(range: IntRangeShape) -> (i32, i32) {
    match range {
        IntRangeShape::Linear { min, max } => (min, max),
        IntRangeShape::Reversed(inner) => match *inner {
            IntRangeShape::Linear { min, max } => (min, max),
            IntRangeShape::Reversed(_) => (0i32, 0i32),
        },
    }
}

/// The bounds the knob works between.
pub fn knob_bounds(range: &IntRangeShape) -> (b: (i32, i32))
    ensures
        b == spec_knob_bounds(*range),
        *range matches IntRangeShape::Linear { min, max } ==> b == (min, max),
        *range matches IntRangeShape::Reversed(inner) ==> (match *inner {
            IntRangeShape::Linear { min, max } => b == (min, max),
            IntRangeShape::Reversed(_) => b == (0i32, 0i32),
        }),
{
    match range {
        IntRangeShape::Linear { min, max } => (*min, *max),
        IntRangeShape::Reversed(inner) => match &**inner {
            IntRangeShape::Linear { min, max } => (*min, *max),
            IntRangeShape::Reversed(_) => (0, 0),
        },
    }
}

/// What the user did to the knob during one frame. The steps are whole numbers
/// of values, already converted from the scroll and drag distances.
#[derive(Debug, Clone, Copy, PartialEq, Eq, Structural)]
pub struct KnobGesture {
    pub double_clicked: bool,
    pub hovered: bool,
    pub scroll_steps: i32,
    pub dragged: bool,
    pub drag_steps: i32,
}

pub open spec fn clamp_int(x: int, lo: int, hi: int) -> int {
    if x < lo {
        lo
    } else if x > hi {
        hi
    } else {
        x
    }
}

/// Distance from `min` before the gesture moves the knob.
pub open spec fn start_offset(value: i32, default: i32, min: i32, g: KnobGesture) -> int {
    if g.double_clicked {
        default - min
    } else {
        value - min
    }
}

/// Distance from `min` after the scroll.
pub open spec fn scrolled_offset(value: i32, default: i32, min: i32, max: i32, g: KnobGesture) -> int {
    let n0 = start_offset(value, default, min, g);
    if g.hovered {
        clamp_int(n0 + g.scroll_steps, 0, max - min)
    } else {
        n0
    }
}

/// Distance from `min` after the drag.
pub open spec fn dragged_offset(value: i32, default: i32, min: i32, max: i32, g: KnobGesture) -> int {
    let n1 = scrolled_offset(value, default, min, max, g);
    if g.dragged {
        clamp_int(n1 + g.drag_steps, 0, max - min)
    } else {
        n1
    }
}

/// The value the knob sets.
pub open spec fn spec_knob_value(value: i32, default: i32, min: i32, max: i32, g: KnobGesture) -> int {
    dragged_offset(value, default, min, max, g) + min
}

/// The inputs on which the knob's integer arithmetic stays in range and its
/// clamping has bounds in order.
pub open spec fn knob_defined(value: i32, default: i32, min: i32, max: i32, g: KnobGesture) -> bool {
    &&& i32::MIN <= value - min <= i32::MAX
    &&& i32::MIN <= max - min <= i32::MAX
    &&& g.double_clicked ==> i32::MIN <= default - min <= i32::MAX
    &&& (g.hovered || g.dragged) ==> min <= max
    &&& g.hovered ==> i32::MIN <= start_offset(value, default, min, g) + g.scroll_steps <= i32::MAX
    &&& g.dragged ==> i32::MIN <= scrolled_offset(value, default, min, max, g) + g.drag_steps
        <= i32::MAX
}

fn clamp_offset(x: i32, hi: i32) -> (r: i32)
    requires
        0 <= hi,
    ensures
        r == clamp_int(x as int, 0, hi as int),
{
    if x < 0 {
        0
    } else if x > hi {
        hi
    } else {
        x
    }
}

/// The value the knob sets for the parameter with value `value`, default
/// `default` and bounds `min`, `max`, after the gesture `g`: a double click
/// starts from the default; the scroll and then the drag move the value, each
/// time kept between the bounds.
pub fn int_knob_value(value: i32, default: i32, min: i32, max: i32, g: KnobGesture) -> (r: i32)
    requires
        knob_defined(value, default, min, max, g),
    ensures
        r == spec_knob_value(value, default, min, max, g),
        min <= max && !g.double_clicked && g.hovered && !g.dragged ==> r == (if value + g.scroll_steps
            < min {
            min as int
        } else if value + g.scroll_steps > max {
            max as int
        } else {
            value + g.scroll_steps
        }),
        min <= max && !g.double_clicked && !g.hovered && g.dragged ==> r == (if value + g.drag_steps
            < min {
            min as int
        } else if value + g.drag_steps > max {
            max as int
        } else {
            value + g.drag_steps
        }),
        !g.hovered && !g.dragged ==> r == (if g.double_clicked {
            default
        } else {
            value
        }),
        (g.hovered || g.dragged) ==> min <= r <= max,
{
    let mut norm_val: i32 = value - min;
    let divisor: i32 = max - min;
    if g.double_clicked {
        norm_val = default - min;
    }
    if g.hovered {
        norm_val = clamp_offset(norm_val + g.scroll_steps, divisor);
    }
    if g.dragged {
        norm_val = clamp_offset(norm_val + g.drag_steps, divisor);
    }
    assert(norm_val == dragged_offset(value, default, min, max, g));
    norm_val + min
}

/// Whenever the knob is turned (scrolled or dragged), the value it sets lies
/// between the bounds.
pub proof fn lemma_turned_knob_stays_in_bounds(value: i32, default: i32, min: i32, max: i32, g: KnobGesture)
    requires
        knob_defined(value, default, min, max, g),
        g.hovered || g.dragged,
    ensures
        min <= spec_knob_value(value, default, min, max, g) <= max,
{
}

/// A value and a default between the bounds give a value between the bounds,
/// whatever the gesture.
pub proof fn lemma_knob_keeps_bounds(value: i32, default: i32, min: i32, max: i32, g: KnobGesture)
    requires
        knob_defined(value, default, min, max, g),
        min <= value <= max,
        min <= default <= max,
    ensures
        min <= spec_knob_value(value, default, min, max, g) <= max,
{
}

/// Scrolling the knob moves its value by the number of scroll steps, up or
/// down, and stops at the bounds.
pub proof fn lemma_scroll_moves_value(value: i32, default: i32, min: i32, max: i32, g: KnobGesture)
    requires
        knob_defined(value, default, min, max, g),
        !g.double_clicked,
        g.hovered,
        !g.dragged,
    ensures
        min <= value + g.scroll_steps <= max ==> spec_knob_value(value, default, min, max, g) == value
            + g.scroll_steps,
        value + g.scroll_steps < min ==> spec_knob_value(value, default, min, max, g) == min,
        value + g.scroll_steps > max ==> spec_knob_value(value, default, min, max, g) == max,
{
}

/// Dragging the knob moves its value by the number of drag steps, up or down,
/// and stops at the bounds.
pub proof fn lemma_drag_moves_value(value: i32, default: i32, min: i32, max: i32, g: KnobGesture)
    requires
        knob_defined(value, default, min, max, g),
        !g.double_clicked,
        !g.hovered,
        g.dragged,
    ensures
        min <= value + g.drag_steps <= max ==> spec_knob_value(value, default, min, max, g) == value
            + g.drag_steps,
        value + g.drag_steps < min ==> spec_knob_value(value, default, min, max, g) == min,
        value + g.drag_steps > max ==> spec_knob_value(value, default, min, max, g) == max,
{
}

/// Turning further never turns back: with everything else equal, more scroll
/// steps never give a lower value, and neither do more drag steps.
pub proof fn lemma_knob_is_monotone(value: i32, default: i32, min: i32, max: i32, g1: KnobGesture, g2: KnobGesture)
    requires
        knob_defined(value, default, min, max, g1),
        knob_defined(value, default, min, max, g2),
        g1.double_clicked == g2.double_clicked,
        g1.hovered == g2.hovered,
        g1.dragged == g2.dragged,
        g1.scroll_steps <= g2.scroll_steps,
        g1.drag_steps <= g2.drag_steps,
    ensures
        spec_knob_value(value, default, min, max, g1) <= spec_knob_value(value, default, min, max, g2),
{
}

/// A double click makes the knob start from the default: the value before it
/// plays no part.
pub proof fn lemma_double_click_forgets_value(v1: i32, v2: i32, default: i32, min: i32, max: i32, g: KnobGesture)
    requires
        knob_defined(v1, default, min, max, g),
        knob_defined(v2, default, min, max, g),
        g.double_clicked,
    ensures
        spec_knob_value(v1, default, min, max, g) == spec_knob_value(v2, default, min, max, g),
{
}

/// A knob left alone sets the value it had; one only double clicked sets the default.
pub proof fn lemma_untouched_knob(value: i32, default: i32, min: i32, max: i32, g: KnobGesture)
    requires
        !g.hovered,
        !g.dragged,
    ensures
        !g.double_clicked ==> spec_knob_value(value, default, min, max, g) == value,
        g.double_clicked ==> spec_knob_value(value, default, min, max, g) == default,
{
}

} // verus!
