//! The audio block the voice renders into, and the source of fresh
//! noise words.
//!
//! A sample is carried as a raw 32-bit noise word; the host binding maps
//! each word onto a single-precision sample spread uniformly over
//! [-1.0, 1.0). Keeping the words raw lets every step around the random
//! draw be verified exactly.

use vstd::pervasive::VecAdditionalExecFns;
use vstd::prelude::*;

verus! {

/// Relied on for fresh noise: rand::random draws a value from the
/// process-wide generator. Nothing can be promised of a random value.
pub assume_specification<T>[ rand::random::<T> ]() -> (r: T)
    where
        rand::distributions::Standard: rand::distributions::Distribution<T>,
;

/// One block of audio, as the host exchanges it: a small number of
/// channels, each an ordered sequence of samples, every sample carried
/// as a raw 32-bit word.
pub struct AudioBlock {
    channels: Vec<Vec<u32>>,
}

impl View for AudioBlock {
    type V = Seq<Seq<u32>>;

    closed spec fn view(&self) -> Seq<Seq<u32>> {
        Seq::new(self.channels@.len(), |c: int| self.channels@[c]@)
    }
}

impl AudioBlock {
    /// A block of `channels` channels holding `len` zero samples each.
    pub fn new(channels: usize, len: usize) -> (block: AudioBlock)
        ensures
            block@.len() == channels,
            forall|c: int| 0 <= c < channels ==> #[trigger] block@[c].len() == len,
            forall|c: int, i: int|
                0 <= c < channels && 0 <= i < len ==> #[trigger] block@[c][i] == 0,
    {
        let mut data: Vec<Vec<u32>> = Vec::new();
        let mut c: usize = 0;
        while c < channels
            invariant
                c <= channels,
                data@.len() == c,
                forall|j: int| 0 <= j < c ==> (#[trigger] data@[j])@.len() == len,
                forall|j: int, i: int|
                    0 <= j < c && 0 <= i < len ==> #[trigger] data@[j]@[i] == 0,
            decreases channels - c,
        {
            let mut channel: Vec<u32> = Vec::new();
            let mut i: usize = 0;
            while i < len
                invariant
                    i <= len,
                    channel@.len() == i,
                    forall|k: int| 0 <= k < i ==> #[trigger] channel@[k] == 0,
                decreases len - i,
            {
                channel.push(0);
                i = i + 1;
            }
            data.push(channel);
            c = c + 1;
        }
        AudioBlock { channels: data }
    }

    /// The number of channels in the block.
    pub fn channel_count(&self) -> (n: usize)
        ensures
            n == self@.len(),
    {
        self.channels.len()
    }

    /// The number of samples held by channel `c`.
    pub fn channel_len(&self, c: usize) -> (n: usize)
        requires
            c < self@.len(),
        ensures
            n == self@[c as int].len(),
    {
        self.channels[c].len()
    }

    /// The sample at position `i` of channel `c`.
    pub fn sample(&self, c: usize, i: usize) -> (s: u32)
        requires
            c < self@.len(),
            i < self@[c as int].len(),
        ensures
            s == self@[c as int][i as int],
    {
        self.channels[c][i]
    }

    /// Replace channel `c` wholesale with the given samples.
    pub fn set_channel(&mut self, c: usize, samples: Vec<u32>)
        requires
            c < old(self)@.len(),
        ensures
            final(self)@ == old(self)@.update(c as int, samples@),
    {
        self.channels.set(c, samples);
        proof {
            assert(self@ =~= old(self)@.update(c as int, samples@));
        }
    }
}

/// A fresh vector of `len` noise words, each drawn anew from the
/// process-wide random generator.
pub fn draw_noise(len: usize) -> (words: Vec<u32>)
    ensures
        words@.len() == len,
{
    let mut words: Vec<u32> = Vec::new();
    let mut i: usize = 0;
    while i < len
        invariant
            i <= len,
            words@.len() == i,
        decreases len - i,
    {
        words.push(rand::random::<u32>());
        i = i + 1;
    }
    words
}

} // verus!
