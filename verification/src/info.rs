//! What the voice reports to its host at registration, and how it
//! answers capability questions.

use vstd::prelude::*;

verus! {

/// The category a plugin registers under: this voice is a sound
/// generator, so it reports itself as a synthesizer.
#[derive(Clone, Copy, PartialEq, Eq, Structural, Debug)]
pub enum PluginCategory {
    Synth,
    Other,
}

/// The registration data a host asks a plugin for: a display name, a
/// stable numeric identity, and the declared channel counts and
/// category.
#[derive(PartialEq, Eq, Debug)]
pub struct PluginInfo {
    pub name: String,
    pub unique_id: i32,
    pub inputs: i32,
    pub outputs: i32,
    pub category: PluginCategory,
}

/// A capability a host may ask about before it decides what to send
/// the plugin; most hosts only deliver MIDI events to a plugin that
/// says it receives them.
#[derive(Clone, Copy, PartialEq, Eq, Structural, Debug)]
pub enum Capability {
    ReceiveMidiEvent,
    Other,
}

/// A plugin's answer to a capability question.
#[derive(Clone, Copy, PartialEq, Eq, Structural, Debug)]
pub enum Support {
    Yes,
    Maybe,
    No,
}

/// The answer this voice gives to each capability question: a definite
/// yes for receiving MIDI events, a maybe for everything else.
pub open spec fn capability_answer(capability: Capability) -> Support {
    match capability {
        Capability::ReceiveMidiEvent => Support::Yes,
        Capability::Other => Support::Maybe,
    }
}

} // verus!
