//! A minimal noise voice for an audio plugin.
//!
//! The voice keeps one piece of state: a counter of currently held MIDI
//! notes, raised by note-on events and lowered by note-off events. While
//! at least one note is held the voice is sounding, and a render call
//! overwrites every sample of the output block with fresh noise; while no
//! note is held a render call leaves the block exactly as the host handed
//! it over.

pub mod audio;
pub mod info;
pub mod midi;
pub mod voice;

pub use audio::AudioBlock;
pub use info::Capability;
pub use info::PluginCategory;
pub use info::PluginInfo;
pub use info::Support;
pub use midi::HostEvent;
pub use midi::MidiMessage;
pub use midi::NOTE_OFF;
pub use midi::NOTE_ON;
pub use voice::Whisper;
