//! The noise voice itself: the active-note counter, the event handler
//! that drives it, and the render call that fills an audio block.

use vstd::prelude::*;
use vstd::string::StringExecFns;

use crate::audio::AudioBlock;
use crate::audio::draw_noise;
use crate::info::Capability;
use crate::info::PluginCategory;
use crate::info::PluginInfo;
use crate::info::Support;
use crate::info::capability_answer;
use crate::midi::HostEvent;
use crate::midi::NOTE_OFF;
use crate::midi::NOTE_ON;
use crate::midi::notes_after;

verus! {

/// A single noise voice. Its only state is the number of MIDI notes the
/// host currently holds down; the voice sounds while that number is
/// positive and is silent otherwise.
pub struct Whisper {
    notes: u8,
}

impl Whisper {
    /// The number of currently held notes, as the voice tracks it.
    pub closed spec fn active(&self) -> u8 {
        self.notes
    }

    /// Whether at least one note is held: the Sounding state, as
    /// opposed to Silent.
    pub open spec fn sounding(&self) -> bool {
        self.active() > 0
    }

    /// A fresh voice holds no notes and starts Silent.
    pub fn new() -> (voice: Whisper)
        ensures
            voice.active() == 0,
    {
        Whisper { notes: 0 }
    }

    /// How many notes are currently held.
    pub fn active_notes(&self) -> (n: u8)
        ensures
            n == self.active(),
    {
        self.notes
    }

    /// True in the Sounding state, false in the Silent state.
    pub fn is_sounding(&self) -> (sounding: bool)
        ensures
            sounding == self.sounding(),
    {
        self.notes > 0
    }

    /// Consume one batch of host events, in order: each note-on raises
    /// the active-note counter, each note-off lowers it, and every
    /// other event leaves it alone. The counter saturates in both
    /// directions, so an unmatched note-off keeps it at zero.
    pub fn process_events(&mut self, events: &Vec<HostEvent>)
        ensures
            final(self).active() == notes_after(old(self).active(), events@),
    {
        let mut i: usize = 0;
        while i < events.len()
            invariant
                i <= events.len(),
                self.active() == notes_after(old(self).active(), events@.take(i as int)),
            decreases events.len() - i,
        {
            let ghost prefix = events@.take(i as int);
            match events[i] {
                HostEvent::Midi(m) => {
                    if m.status == NOTE_ON {
                        if self.notes < 255 {
                            self.notes = self.notes + 1;
                        }
                    } else if m.status == NOTE_OFF {
                        if self.notes > 0 {
                            self.notes = self.notes - 1;
                        }
                    }
                },
                HostEvent::Other => {},
            }
            proof {
                assert(events@.take(i as int + 1).drop_last() =~= prefix);
                assert(events@.take(i as int + 1).last() == events@[i as int]);
            }
            i = i + 1;
        }
        proof {
            assert(events@.take(events@.len() as int) =~= events@);
        }
    }

    /// Fill one audio block. While Silent the block is left exactly as
    /// the host handed it over; while Sounding every sample of every
    /// channel is overwritten with a freshly drawn noise word. The
    /// block keeps its channel count and every channel its length, and
    /// the voice's own state is never touched.
    pub fn process(&self, block: &mut AudioBlock)
        ensures
            final(block)@.len() == old(block)@.len(),
            forall|c: int|
                0 <= c < old(block)@.len() ==> #[trigger] final(block)@[c].len() == old(
                    block,
                )@[c].len(),
            !self.sounding() ==> final(block)@ == old(block)@,
    {
        if self.notes == 0 {
            return;
        }
        let channels = block.channel_count();
        let mut c: usize = 0;
        while c < channels
            invariant
                c <= channels,
                channels == block@.len(),
                block@.len() == old(block)@.len(),
                forall|j: int|
                    0 <= j < channels ==> #[trigger] block@[j].len() == old(block)@[j].len(),
            decreases channels - c,
        {
            let len = block.channel_len(c);
            let words = draw_noise(len);
            block.set_channel(c, words);
            c = c + 1;
        }
    }

    /// The registration data for this voice: named Whisper, with a
    /// stable identity, no input channels, two output channels, and
    /// the sound-generator category.
    pub fn get_info(&self) -> (info: PluginInfo)
        ensures
            info.name@ == "Whisper"@,
            info.unique_id == 1337,
            info.inputs == 0,
            info.outputs == 2,
            info.category == PluginCategory::Synth,
    {
        PluginInfo {
            name: String::from_str("Whisper"),
            unique_id: 1337,
            inputs: 0,
            outputs: 2,
            category: PluginCategory::Synth,
        }
    }

    /// Answer one capability question: the voice definitely receives
    /// MIDI events, and may or may not support anything else.
    pub fn can_do(&self, capability: Capability) -> (support: Support)
        ensures
            support == capability_answer(capability),
    {
        match capability {
            Capability::ReceiveMidiEvent => Support::Yes,
            Capability::Other => Support::Maybe,
        }
    }
}

impl Default for Whisper {
    /// A default voice holds no notes, like a fresh one.
    fn default() -> (voice: Whisper)
        ensures
            voice.active() == 0,
    {
        Whisper { notes: 0 }
    }
}

} // verus!
