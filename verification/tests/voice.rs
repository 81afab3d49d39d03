use whisper::Capability;
use whisper::HostEvent;
use whisper::MidiMessage;
use whisper::PluginCategory;
use whisper::Support;
use whisper::Whisper;
use whisper::NOTE_OFF;
use whisper::NOTE_ON;

fn note_on(pitch: u8) -> HostEvent {
    HostEvent::Midi(MidiMessage { status: NOTE_ON, pitch, velocity: 100 })
}

fn note_off(pitch: u8) -> HostEvent {
    HostEvent::Midi(MidiMessage { status: NOTE_OFF, pitch, velocity: 0 })
}

#[test]
fn fresh_voice_is_silent() {
    let voice = Whisper::new();
    assert_eq!(voice.active_notes(), 0);
    assert!(!voice.is_sounding());
}

#[test]
fn note_ons_accumulate() {
    let mut voice = Whisper::new();
    voice.process_events(&vec![note_on(60), note_on(64), note_on(67)]);
    assert_eq!(voice.active_notes(), 3);
    assert!(voice.is_sounding());
}

#[test]
fn single_note_on_sounds() {
    let mut voice = Whisper::new();
    voice.process_events(&vec![note_on(60)]);
    assert_eq!(voice.active_notes(), 1);
    assert!(voice.is_sounding());
}

#[test]
fn balanced_pairs_end_silent() {
    let mut voice = Whisper::new();
    voice.process_events(&vec![
        note_on(60),
        note_on(64),
        note_off(60),
        note_on(67),
        note_off(67),
        note_off(64),
    ]);
    assert_eq!(voice.active_notes(), 0);
    assert!(!voice.is_sounding());
}

#[test]
fn unmatched_note_off_saturates_at_zero() {
    let mut voice = Whisper::new();
    voice.process_events(&vec![note_off(60)]);
    assert_eq!(voice.active_notes(), 0);
    assert!(!voice.is_sounding());
    voice.process_events(&vec![note_off(61), note_on(62)]);
    assert_eq!(voice.active_notes(), 1);
}

#[test]
fn counter_saturates_at_its_top() {
    let mut voice = Whisper::new();
    let batch: Vec<HostEvent> = (0..300).map(|i| note_on((i % 128) as u8)).collect();
    voice.process_events(&batch);
    assert_eq!(voice.active_notes(), 255);
}

#[test]
fn unrelated_events_are_ignored() {
    let mut voice = Whisper::new();
    voice.process_events(&vec![
        HostEvent::Midi(MidiMessage { status: 176, pitch: 1, velocity: 64 }),
        HostEvent::Midi(MidiMessage { status: 145, pitch: 60, velocity: 100 }),
        HostEvent::Other,
    ]);
    assert_eq!(voice.active_notes(), 0);
    voice.process_events(&vec![note_on(60)]);
    voice.process_events(&vec![
        HostEvent::Midi(MidiMessage { status: 176, pitch: 1, velocity: 64 }),
        HostEvent::Other,
    ]);
    assert_eq!(voice.active_notes(), 1);
}

#[test]
fn info_reports_registration_data() {
    let voice = Whisper::new();
    let info = voice.get_info();
    assert_eq!(info.name.as_str(), "Whisper");
    assert_eq!(info.unique_id, 1337);
    assert_eq!(info.inputs, 0);
    assert_eq!(info.outputs, 2);
    assert_eq!(info.category, PluginCategory::Synth);
}

#[test]
fn can_do_reports_midi_support() {
    let voice = Whisper::new();
    assert_eq!(voice.can_do(Capability::ReceiveMidiEvent), Support::Yes);
    assert_eq!(voice.can_do(Capability::Other), Support::Maybe);
}

#[test]
fn default_voice_is_silent() {
    let voice = Whisper::default();
    assert_eq!(voice.active_notes(), 0);
    assert!(!voice.is_sounding());
}
