//! The MIDI events the voice consumes, and the mathematical model of how
//! a batch of them moves the active-note counter.

use vstd::prelude::*;

verus! {

/// Status byte of a channel-zero MIDI note-on message.
pub const NOTE_ON: u8 = 144;

/// Status byte of a channel-zero MIDI note-off message.
pub const NOTE_OFF: u8 = 128;

/// A decoded MIDI message: the raw status byte and the two data bytes,
/// pitch and velocity. Only the status byte drives the voice; the noise
/// is pitch-independent.
#[derive(Clone, Copy, PartialEq, Eq, Structural, Debug)]
pub struct MidiMessage {
    pub status: u8,
    pub pitch: u8,
    pub velocity: u8,
}

/// One event handed over by the host: either a decoded MIDI message or
/// some other kind of event, which the voice ignores.
#[derive(Clone, Copy, PartialEq, Eq, Structural, Debug)]
pub enum HostEvent {
    Midi(MidiMessage),
    Other,
}

/// Whether an event is a channel-zero note-on message.
pub open spec fn is_note_on(event: HostEvent) -> bool {
    event matches HostEvent::Midi(m) && m.status == NOTE_ON
}

/// Whether an event is a channel-zero note-off message.
pub open spec fn is_note_off(event: HostEvent) -> bool {
    event matches HostEvent::Midi(m) && m.status == NOTE_OFF
}

/// The active-note counter after one event: a note-on raises it, a
/// note-off lowers it, and anything else leaves it alone. Both
/// directions saturate, so an unmatched note-off can never wrap the
/// counter below zero.
pub open spec fn step(notes: u8, event: HostEvent) -> u8 {
    if is_note_on(event) {
        if notes < 255 {
            (notes + 1) as u8
        } else {
            255
        }
    } else if is_note_off(event) {
        if notes > 0 {
            (notes - 1) as u8
        } else {
            0
        }
    } else {
        notes
    }
}

/// The counter after a whole batch of events, applied in order.
pub open spec fn notes_after(notes: u8, events: Seq<HostEvent>) -> u8
    decreases events.len(),
{
    if events.len() == 0 {
        notes
    } else {
        step(notes_after(notes, events.drop_last()), events.last())
    }
}

/// How many note-on messages a batch holds.
pub open spec fn note_ons(events: Seq<HostEvent>) -> nat
    decreases events.len(),
{
    if events.len() == 0 {
        0
    } else {
        note_ons(events.drop_last()) + (if is_note_on(events.last()) {
            1nat
        } else {
            0nat
        })
    }
}

/// How many note-off messages a batch holds.
pub open spec fn note_offs(events: Seq<HostEvent>) -> nat
    decreases events.len(),
{
    if events.len() == 0 {
        0
    } else {
        note_offs(events.drop_last()) + (if is_note_off(events.last()) {
            1nat
        } else {
            0nat
        })
    }
}

/// A batch of note-on events alone leaves one active note per event,
/// as long as the counter's range is not exhausted, and the voice is
/// sounding exactly when the batch is non-empty.
pub proof fn lemma_note_ons_accumulate(events: Seq<HostEvent>)
    requires
        events.len() <= 255,
        forall|i: int| 0 <= i < events.len() ==> is_note_on(#[trigger] events[i]),
    ensures
        notes_after(0, events) == events.len(),
        notes_after(0, events) > 0 <==> events.len() >= 1,
    decreases events.len(),
{
    if events.len() > 0 {
        assert(forall|i: int|
            0 <= i < events.drop_last().len() ==> events.drop_last()[i] == events[i]);
        lemma_note_ons_accumulate(events.drop_last());
    }
}

/// A batch of note-off events alone, delivered to a silent voice,
/// leaves it silent: every unmatched note-off saturates at zero instead
/// of wrapping the counter.
pub proof fn lemma_note_offs_saturate(events: Seq<HostEvent>)
    requires
        forall|i: int| 0 <= i < events.len() ==> is_note_off(#[trigger] events[i]),
    ensures
        notes_after(0, events) == 0,
    decreases events.len(),
{
    if events.len() > 0 {
        assert(forall|i: int|
            0 <= i < events.drop_last().len() ==> events.drop_last()[i] == events[i]);
        lemma_note_offs_saturate(events.drop_last());
    }
}

/// Events that are neither a channel-zero note-on nor a channel-zero
/// note-off never move the counter, whatever its value.
pub proof fn lemma_unrelated_events_ignored(notes: u8, events: Seq<HostEvent>)
    requires
        forall|i: int|
            0 <= i < events.len() ==> !is_note_on(#[trigger] events[i]) && !is_note_off(events[i]),
    ensures
        notes_after(notes, events) == notes,
    decreases events.len(),
{
    if events.len() > 0 {
        assert(forall|i: int|
            0 <= i < events.drop_last().len() ==> events.drop_last()[i] == events[i]);
        lemma_unrelated_events_ignored(notes, events.drop_last());
    }
}

/// Starting from silence, the counter always equals the number of
/// note-ons seen minus the number of note-offs seen, as long as no
/// prefix of the batch holds more note-offs than note-ons and no prefix
/// holds more than 255 unmatched note-ons.
pub proof fn lemma_prefix_balance(events: Seq<HostEvent>)
    requires
        forall|k: int|
            0 <= k <= events.len() ==> note_offs(#[trigger] events.take(k)) <= note_ons(
                events.take(k),
            ),
        forall|k: int|
            0 <= k <= events.len() ==> note_ons(#[trigger] events.take(k)) - note_offs(
                events.take(k),
            ) <= 255,
    ensures
        notes_after(0, events) == note_ons(events) - note_offs(events),
    decreases events.len(),
{
    assert(events.take(events.len() as int) =~= events);
    if events.len() > 0 {
        let prefix = events.drop_last();
        assert(events.take(events.len() - 1) =~= prefix);
        assert forall|k: int| 0 <= k <= prefix.len() implies #[trigger] prefix.take(k)
            =~= events.take(k) by {
            assert(prefix.take(k) =~= events.take(k));
        }
        lemma_prefix_balance(prefix);
    }
}

/// An interleaving of note-on and note-off events in which every
/// note-off follows a matching note-on, every note-on is eventually
/// matched by a note-off, and never more than 255 notes are held at
/// once, leaves the voice exactly where it started: silent.
pub proof fn lemma_balanced_batch_ends_silent(events: Seq<HostEvent>)
    requires
        forall|k: int|
            0 <= k <= events.len() ==> note_offs(#[trigger] events.take(k)) <= note_ons(
                events.take(k),
            ),
        forall|k: int|
            0 <= k <= events.len() ==> note_ons(#[trigger] events.take(k)) - note_offs(
                events.take(k),
            ) <= 255,
        note_ons(events) == note_offs(events),
    ensures
        notes_after(0, events) == 0,
{
    lemma_prefix_balance(events);
}

} // verus!
