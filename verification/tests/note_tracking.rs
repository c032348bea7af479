use daleth::notes::{handle_note, handle_notes, transposed_note, ActiveNote, GateChange, NoteInput};

fn held(n: u8) -> Option<ActiveNote> {
    Some(ActiveNote { midi_note: n })
}

#[test]
fn audible_press_holds_the_note_and_opens() {
    assert_eq!(handle_note(None, NoteInput::NoteOn { note: 60, audible: true }), (held(60), GateChange::Open));
    assert_eq!(handle_note(held(50), NoteInput::NoteOn { note: 62, audible: true }), (held(62), GateChange::Open));
}

#[test]
fn silent_press_is_ignored() {
    assert_eq!(handle_note(held(50), NoteInput::NoteOn { note: 62, audible: false }), (held(50), GateChange::Unchanged));
    assert_eq!(handle_note(None, NoteInput::NoteOn { note: 62, audible: false }), (None, GateChange::Unchanged));
}

#[test]
fn release_of_the_held_note_closes() {
    assert_eq!(handle_note(held(60), NoteInput::NoteOff { note: 60 }), (None, GateChange::Close));
}

#[test]
fn release_of_another_note_is_ignored() {
    assert_eq!(handle_note(held(60), NoteInput::NoteOff { note: 61 }), (held(60), GateChange::Unchanged));
    assert_eq!(handle_note(None, NoteInput::NoteOff { note: 61 }), (None, GateChange::Unchanged));
}

#[test]
fn other_events_are_ignored() {
    assert_eq!(handle_note(held(7), NoteInput::Other), (held(7), GateChange::Unchanged));
}

#[test]
fn last_pressed_note_has_priority() {
    let events = vec![
        NoteInput::NoteOn { note: 60, audible: true },
        NoteInput::NoteOn { note: 64, audible: true },
        NoteInput::NoteOff { note: 60 },
    ];
    let (after, changes) = handle_notes(None, &events);
    assert_eq!(after, held(64));
    assert_eq!(changes, vec![GateChange::Open, GateChange::Open, GateChange::Unchanged]);
}

#[test]
fn block_of_events_in_order() {
    let events = vec![
        NoteInput::NoteOn { note: 60, audible: true },
        NoteInput::Other,
        NoteInput::NoteOff { note: 60 },
        NoteInput::NoteOff { note: 60 },
        NoteInput::NoteOn { note: 72, audible: false },
    ];
    let (after, changes) = handle_notes(held(10), &events);
    assert_eq!(after, None);
    assert_eq!(
        changes,
        vec![GateChange::Open, GateChange::Unchanged, GateChange::Close, GateChange::Unchanged, GateChange::Unchanged]
    );
    let (same, none) = handle_notes(held(10), &Vec::new());
    assert_eq!(same, held(10));
    assert!(none.is_empty());
}

#[test]
fn transposition_of_the_held_note() {
    assert_eq!(transposed_note(held(60), 12), Some(72));
    assert_eq!(transposed_note(held(0), -48), Some(-48));
    assert_eq!(transposed_note(held(255), 48), Some(303));
    assert_eq!(transposed_note(None, 5), None);
}

#[test]
fn gates_are_open_exactly_while_a_note_is_held() {
    let events = vec![
        NoteInput::NoteOn { note: 60, audible: true },
        NoteInput::NoteOn { note: 62, audible: false },
        NoteInput::NoteOn { note: 64, audible: true },
        NoteInput::NoteOff { note: 60 },
        NoteInput::Other,
        NoteInput::NoteOff { note: 64 },
        NoteInput::NoteOff { note: 64 },
    ];
    let mut held_now: Option<ActiveNote> = None;
    let mut open = false;
    for e in &events {
        let (next, change) = handle_note(held_now, *e);
        open = match change {
            GateChange::Open => true,
            GateChange::Close => false,
            GateChange::Unchanged => open,
        };
        held_now = next;
        assert_eq!(open, held_now.is_some());
    }
    let (after, _) = handle_notes(None, &events);
    assert_eq!(after, held_now);
}
