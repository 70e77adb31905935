use vstd::prelude::*;

use crate::config::StreamConfig;
use crate::sample::CanonicalSample;

verus! {

/// The samples of a sequence of batches, in order: every sample of the
/// first batch, then every sample of the second, and so on. No batch is
/// reordered, merged with another, or dropped.
pub open spec fn flat(batches: Seq<Seq<CanonicalSample>>) -> Seq<CanonicalSample>
    decreases batches.len(),
{
    if batches.len() == 0 {
        Seq::empty()
    } else {
        flat(batches.drop_last()) + batches.last()
    }
}

/// A complete, finite, length-known sequence of canonical samples,
/// paired with the stream configuration the playback engine needs to
/// interpret it. Immutable after construction, but consumed from the
/// front sample by sample, so the remaining length is always known.
pub struct AudioTrack {
    samples: Vec<CanonicalSample>,
    pos: usize,
    config: StreamConfig,
}

impl AudioTrack {
    /// The samples not yet consumed.
    pub closed spec fn remaining(self) -> Seq<CanonicalSample> {
        self.samples@.skip(self.pos as int)
    }

    /// The configuration the track was built with.
    pub closed spec fn cfg(self) -> StreamConfig {
        self.config
    }

    #[verifier::type_invariant]
    spec fn wf(self) -> bool {
        self.pos <= self.samples.len()
    }

    pub fn new(samples: Vec<CanonicalSample>, config: StreamConfig) -> (t: AudioTrack)
        ensures
            t.remaining() == samples@,
            t.cfg() == config,
    {
        let t = AudioTrack { samples, pos: 0, config };
        proof {
            assert(t.remaining() =~= t.samples@);
        }
        t
    }

    /// Builds one track out of the batches a capture sequence yielded,
    /// in order, losing none of their samples.
    pub fn from_batches(batches: &Vec<Vec<CanonicalSample>>, config: StreamConfig) -> (t:
        AudioTrack)
        ensures
            t.remaining() == flat(batches@.map_values(|b: Vec<CanonicalSample>| b@)),
            t.cfg() == config,
    {
        let ghost views = batches@.map_values(|b: Vec<CanonicalSample>| b@);
        let mut acc: Vec<CanonicalSample> = Vec::new();
        let mut i: usize = 0;
        while i < batches.len()
            invariant
                i <= batches.len(),
                views == batches@.map_values(|b: Vec<CanonicalSample>| b@),
                acc@ == flat(views.take(i as int)),
            decreases batches.len() - i,
        {
            let batch = &batches[i];
            let mut j: usize = 0;
            while j < batch.len()
                invariant
                    i < batches.len(),
                    j <= batch.len(),
                    batch == &batches[i as int],
                    views == batches@.map_values(|b: Vec<CanonicalSample>| b@),
                    acc@ == flat(views.take(i as int)) + batch@.take(j as int),
                decreases batch.len() - j,
            {
                acc.push(batch[j]);
                j = j + 1;
                proof {
                    assert(batch@.take(j as int) =~= batch@.take(j - 1).push(batch@[j - 1]));
                }
            }
            i = i + 1;
            proof {
                assert(views.take(i as int).drop_last() =~= views.take(i - 1));
                assert(views.take(i as int).last() == batch@);
                assert(batch@.take(batch@.len() as int) =~= batch@);
            }
        }
        proof {
            assert(views.take(batches@.len() as int) =~= views);
        }
        AudioTrack::new(acc, config)
    }

    /// Yields the next sample, consuming it; `None` once the track is
    /// exhausted.
    pub fn next(&mut self) -> (r: Option<CanonicalSample>)
        ensures
            final (self).cfg() == old(self).cfg(),
            old(self).remaining().len() == 0 ==> r is None && final (self).remaining()
                == old(self).remaining(),
            old(self).remaining().len() > 0 ==> r == Some(old(self).remaining()[0]) && final (
            self).remaining() == old(self).remaining().drop_first(),
    {
        proof {
            use_type_invariant(&*self);
        }
        if self.pos < self.samples.len() {
            let s = self.samples[self.pos];
            self.pos = self.pos + 1;
            proof {
                assert(final (self).remaining() =~= old(self).remaining().drop_first());
            }
            Some(s)
        } else {
            None
        }
    }

    /// The number of samples still to be played. Known in advance for
    /// any track, which is what lets the playback engine report
    /// remaining-frame information.
    pub fn current_frame_len(&self) -> (r: Option<usize>)
        ensures
            r == Some((self.remaining().len()) as usize),
    {
        proof {
            use_type_invariant(self);
        }
        Some(self.samples.len() - self.pos)
    }

    pub fn channels(&self) -> (r: u16)
        ensures
            r == self.cfg().channels,
    {
        self.config.channels
    }

    pub fn sample_rate(&self) -> (r: u32)
        ensures
            r == self.cfg().sample_rate,
    {
        self.config.sample_rate
    }

    /// The total duration is deliberately left unknown: it is a derived
    /// property the playback engine is not required to precompute.
    pub fn total_duration(&self) -> (r: Option<u64>)
        ensures
            r is None,
    {
        None
    }
}

} // verus!
