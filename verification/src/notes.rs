//! Monophonic note tracking: which MIDI note is held, and when the envelope
//! gates open and close. The last note pressed is the one that sounds; a
//! release closes the gates only when it lets go of that note.
use vstd::prelude::*;

verus! {

/// The note that is held.
#[derive(Debug, Clone, Copy, PartialEq, Eq, Structural)]
pub struct ActiveNote {
    pub midi_note: u8,
}

/// A note event as the synthesizer reads it.
#[derive(Debug, Clone, Copy, PartialEq, Eq, Structural)]
pub enum NoteInput {
    /// A key was pressed; `audible` is whether its velocity is above 0.
    NoteOn { note: u8, audible: bool },
    /// A key was released.
    NoteOff { note: u8 },
    /// Any other event, which the synthesizer ignores.
    Other,
}

/// What an event does to the gates of every voice.
#[derive(Debug, Clone, Copy, PartialEq, Eq, Structural)]
pub enum GateChange {
    Unchanged,
    Open,
    Close,
}

/// The held note and the change to the gates after `input`, given the held note `active`.
pub open spec fn spec_handle_note(active: Option<ActiveNote>, input: NoteInput) -> (
    Option<ActiveNote>,
    GateChange,
) {
    match input {
        NoteInput::NoteOn { note, audible } => if audible {
            (Some(ActiveNote { midi_note: note }), GateChange::Open)
        } else {
            (active, GateChange::Unchanged)
        },
        NoteInput::NoteOff { note } => match active {
            Some(a) => if a.midi_note == note {
                (None, GateChange::Close)
            } else {
                (active, GateChange::Unchanged)
            },
            None => (active, GateChange::Unchanged),
        },
        NoteInput::Other => (active, GateChange::Unchanged),
    }
}

/// The held note after the events of `inputs`, in order.
pub open spec fn spec_held_after(active: Option<ActiveNote>, inputs: Seq<NoteInput>) -> Option<
    ActiveNote,
>
    decreases inputs.len(),
{
    if inputs.len() == 0 {
        active
    } else {
        spec_handle_note(spec_held_after(active, inputs.drop_last()), inputs.last()).0
    }
}

/// Handles one note event.
pub fn handle_note(active: Option<ActiveNote>, input: NoteInput) -> (res: (
    Option<ActiveNote>,
    GateChange,
))
    ensures
        res == spec_handle_note(active, input),
        input is Other ==> res == (active, GateChange::Unchanged),
        (res.1 == GateChange::Open) <==> (input matches NoteInput::NoteOn { note, audible } && audible),
        (res.1 == GateChange::Close) <==> (input matches NoteInput::NoteOff { note } && active matches Some(a)
            && a.midi_note == note),
        res.1 == GateChange::Open ==> (input matches NoteInput::NoteOn { note, audible } && res.0 == Some(
            ActiveNote { midi_note: note },
        )),
        res.1 == GateChange::Close ==> res.0.is_none(),
        res.1 == GateChange::Unchanged ==> res.0 == active,
{
    match input {
        NoteInput::NoteOn { note, audible } => {
            if audible {
                (Some(ActiveNote { midi_note: note }), GateChange::Open)
            } else {
                (active, GateChange::Unchanged)
            }
        },
        NoteInput::NoteOff { note } => {
            match active {
                Some(a) => {
                    if a.midi_note == note {
                        (None, GateChange::Close)
                    } else {
                        (active, GateChange::Unchanged)
                    }
                },
                None => (active, GateChange::Unchanged),
            }
        },
        NoteInput::Other => (active, GateChange::Unchanged),
    }
}

/// Handles the events of one audio block in order. Returns the held note after
/// them and the change to the gates made by each event, in the order of the events.
pub fn handle_notes(active: Option<ActiveNote>, inputs: &Vec<NoteInput>) -> (res: (
    Option<ActiveNote>,
    Vec<GateChange>,
))
    ensures
        res.0 == spec_held_after(active, inputs@),
        res.1@.len() == inputs@.len(),
        forall|i: int|
            0 <= i < inputs@.len() ==> #[trigger] res.1@[i] == spec_handle_note(
                spec_held_after(active, inputs@.take(i)),
                inputs@[i],
            ).1,
{
    let mut held = active;
    let mut changes: Vec<GateChange> = Vec::new();
    let n = inputs.len();
    let mut k: usize = 0;
    while k < n
        invariant
            n == inputs@.len(),
            k <= n,
            held == spec_held_after(active, inputs@.take(k as int)),
            changes@.len() == k,
            forall|i: int|
                0 <= i < k ==> #[trigger] changes@[i] == spec_handle_note(
                    spec_held_after(active, inputs@.take(i)),
                    inputs@[i],
                ).1,
        decreases n - k,
    {
        let (next, change) = handle_note(held, inputs[k]);
        assert(inputs@.take(k + 1).drop_last() =~= inputs@.take(k as int));
        held = next;
        changes.push(change);
        k = k + 1;
    }
    assert(inputs@.take(n as int) =~= inputs@);
    (held, changes)
}

/// The MIDI note number that sounds: the held note moved by `transpose`
/// semitones, or `None` when no note is held.
pub fn transposed_note(active: Option<ActiveNote>, transpose: i32) -> (res: Option<i32>)
    requires
        active matches Some(a) ==> a.midi_note + transpose <= i32::MAX,
    ensures
        res == (match active {
            Some(a) => Some((a.midi_note + transpose) as i32),
            None => None::<i32>,
        }),
{
    match active {
        Some(a) => Some(a.midi_note as i32 + transpose),
        None => None,
    }
}

/// A release of a key other than the held one changes nothing.
pub proof fn lemma_other_release_ignored(a: ActiveNote, note: u8)
    requires
        a.midi_note != note,
    ensures
        spec_handle_note(Some(a), NoteInput::NoteOff { note }) == (
            Some(a),
            GateChange::Unchanged,
        ),
{
}

/// Pressing a key and releasing it leaves no note held and closes the gates,
/// whatever was held before.
pub proof fn lemma_press_release_silences(active: Option<ActiveNote>, note: u8)
    ensures
        ({
            let (held, open) = spec_handle_note(active, NoteInput::NoteOn { note, audible: true });
            let (after, close) = spec_handle_note(held, NoteInput::NoteOff { note });
            open == GateChange::Open && after.is_none() && close == GateChange::Close
        }),
{
}

/// Last-note priority: when a second key is pressed while the first is held,
/// releasing the first key keeps the second one sounding and the gates open.
pub proof fn lemma_last_note_priority(active: Option<ActiveNote>, first: u8, second: u8)
    requires
        first != second,
    ensures
        ({
            let s = seq![
                NoteInput::NoteOn { note: first, audible: true },
                NoteInput::NoteOn { note: second, audible: true },
                NoteInput::NoteOff { note: first },
            ];
            spec_held_after(active, s) == Some(ActiveNote { midi_note: second })
                && spec_handle_note(spec_held_after(active, s.drop_last()), s.last()).1
                == GateChange::Unchanged
        }),
{
    let s = seq![
        NoteInput::NoteOn { note: first, audible: true },
        NoteInput::NoteOn { note: second, audible: true },
        NoteInput::NoteOff { note: first },
    ];
    assert(s.drop_last().drop_last().drop_last() =~= Seq::<NoteInput>::empty());
    reveal_with_fuel(spec_held_after, 4);
}

/// Whether the gates are open after a change, given whether they were open before.
pub open spec fn gate_after(open: bool, change: GateChange) -> bool {
    match change {
        GateChange::Unchanged => open,
        GateChange::Open => true,
        GateChange::Close => false,
    }
}

/// Whether the gates are open after the events of `inputs`, in order.
pub open spec fn gates_after(active: Option<ActiveNote>, open: bool, inputs: Seq<NoteInput>) -> bool
    decreases inputs.len(),
{
    if inputs.len() == 0 {
        open
    } else {
        gate_after(
            gates_after(active, open, inputs.drop_last()),
            spec_handle_note(spec_held_after(active, inputs.drop_last()), inputs.last()).1,
        )
    }
}

/// The gates are open exactly while a note is held: where that holds before a
/// sequence of events, it holds after each of them.
pub proof fn lemma_gates_follow_held_note(active: Option<ActiveNote>, inputs: Seq<NoteInput>)
    ensures
        gates_after(active, active.is_some(), inputs) == spec_held_after(active, inputs).is_some(),
    decreases inputs.len(),
{
    if inputs.len() > 0 {
        lemma_gates_follow_held_note(active, inputs.drop_last());
    }
}

/// Handling a block of events is handling its events one after the other: no
/// event leaves the held note as it was before the block, and an empty block
/// changes nothing.
pub proof fn lemma_block_is_sequential(active: Option<ActiveNote>, inputs: Seq<NoteInput>, next: NoteInput)
    ensures
        spec_held_after(active, Seq::<NoteInput>::empty()) == active,
        spec_held_after(active, inputs.push(next)) == spec_handle_note(
            spec_held_after(active, inputs),
            next,
        ).0,
        spec_held_after(active, seq![next]) == spec_handle_note(active, next).0,
{
    assert(inputs.push(next).drop_last() =~= inputs);
    assert(seq![next].drop_last() =~= Seq::<NoteInput>::empty());
}

/// Events other than a key press or release change neither the held note nor
/// the gates.
pub proof fn lemma_other_events_ignored(active: Option<ActiveNote>)
    ensures
        spec_handle_note(active, NoteInput::Other) == (active, GateChange::Unchanged),
{
}

/// The gates open exactly on an audible key press, which makes that key the
/// held note; they close exactly on the release of the held key, which leaves
/// no note held; every other event leaves the held note as it was.
pub proof fn lemma_gate_changes(active: Option<ActiveNote>, input: NoteInput)
    ensures
        ({
            let (held, change) = spec_handle_note(active, input);
            &&& (change == GateChange::Open) <==> (input matches NoteInput::NoteOn { note, audible }
                && audible)
            &&& (change == GateChange::Close) <==> (input matches NoteInput::NoteOff { note }
                && active matches Some(a) && a.midi_note == note)
            &&& change == GateChange::Open ==> (input matches NoteInput::NoteOn { note, audible }
                && held == Some(ActiveNote { midi_note: note }))
            &&& change == GateChange::Close ==> held.is_none()
            &&& change == GateChange::Unchanged ==> held == active
        }),
{
}

/// A key pressed with zero velocity changes nothing.
pub proof fn lemma_silent_press_ignored(active: Option<ActiveNote>, note: u8)
    ensures
        spec_handle_note(active, NoteInput::NoteOn { note, audible: false }) == (
            active,
            GateChange::Unchanged,
        ),
{
}

} // verus!
