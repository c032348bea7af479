use daleth::knob::{int_knob_value, knob_bounds, transpose_range, IntRangeShape, KnobGesture, TRANSPOSE_MAX, TRANSPOSE_MIN};

fn idle() -> KnobGesture {
    KnobGesture { double_clicked: false, hovered: false, scroll_steps: 0, dragged: false, drag_steps: 0 }
}

#[test]
fn bounds_of_the_ranges() {
    assert_eq!(knob_bounds(&IntRangeShape::Linear { min: -3, max: 9 }), (-3, 9));
    assert_eq!(knob_bounds(&IntRangeShape::Reversed(Box::new(IntRangeShape::Linear { min: 1, max: 4 }))), (1, 4));
    let twice = IntRangeShape::Reversed(Box::new(IntRangeShape::Reversed(Box::new(IntRangeShape::Linear { min: 1, max: 4 }))));
    assert_eq!(knob_bounds(&twice), (0, 0));
    assert_eq!(knob_bounds(&transpose_range()), (-48, 48));
    assert_eq!((TRANSPOSE_MIN, TRANSPOSE_MAX), (-48, 48));
}

#[test]
fn untouched_knob_keeps_its_value() {
    assert_eq!(int_knob_value(5, 0, -48, 48, idle()), 5);
}

#[test]
fn double_click_restores_the_default() {
    let g = KnobGesture { double_clicked: true, ..idle() };
    assert_eq!(int_knob_value(20, 0, -48, 48, g), 0);
}

#[test]
fn scroll_and_drag_move_the_value() {
    let g = KnobGesture { hovered: true, scroll_steps: 3, ..idle() };
    assert_eq!(int_knob_value(5, 0, -48, 48, g), 8);
    let g = KnobGesture { dragged: true, drag_steps: -10, ..idle() };
    assert_eq!(int_knob_value(5, 0, -48, 48, g), -5);
    let g = KnobGesture { double_clicked: true, hovered: true, scroll_steps: 2, dragged: true, drag_steps: 1 };
    assert_eq!(int_knob_value(40, 0, -48, 48, g), 3);
}

#[test]
fn turning_stops_at_the_bounds() {
    let g = KnobGesture { hovered: true, scroll_steps: 100, ..idle() };
    assert_eq!(int_knob_value(5, 0, -48, 48, g), 48);
    let g = KnobGesture { dragged: true, drag_steps: -100, ..idle() };
    assert_eq!(int_knob_value(5, 0, -48, 48, g), -48);
    let g = KnobGesture { hovered: true, scroll_steps: 0, ..idle() };
    assert_eq!(int_knob_value(60, 0, -48, 48, g), 48);
}
