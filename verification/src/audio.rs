use vstd::prelude::*;

verus! {

/// A stereo sample.
#[derive(Debug, Copy, Clone)]
pub struct AudioSample {
    pub left: i16,
    pub right: i16,
}

impl AudioSample {
    /// A sample from its (left, right) pair.
    pub fn new_lr(lr: (i16, i16)) -> (r: Self)
        ensures
            r.left == lr.0 && r.right == lr.1,
    {
        let (left, right) = lr;
        AudioSample { left, right }
    }
}

/// Where samples are played.
pub trait AudioDevice {
    fn play_sample(&mut self, sample: AudioSample);
}

/// Samples per second of the output stream.
pub const OUTPUT_SAMPLE_RATE: usize = 44100;

/// The output device's sample path: samples gather in a buffer of `buffer_size` entries,
/// and a full buffer moves to the queue that the output stream plays from.
pub struct CpalAudioDevice {
    pub buffer: Vec<AudioSample>,
    pub buffer_size: usize,
    pub audio_queue: Vec<AudioSample>,
}

impl CpalAudioDevice {
    /// A device whose buffer holds `buffer_capacity_in_millis` milliseconds of stereo output.
    pub fn new(buffer_capacity_in_millis: usize) -> (r: Self)
        requires
            2 * buffer_capacity_in_millis * OUTPUT_SAMPLE_RATE <= usize::MAX,
        ensures
            r.buffer_size == 2 * buffer_capacity_in_millis * OUTPUT_SAMPLE_RATE / 1000,
            r.buffer@ == Seq::<AudioSample>::empty(),
            r.audio_queue@ == Seq::<AudioSample>::empty(),
    {
        let buffer_capacity = 2 * buffer_capacity_in_millis * OUTPUT_SAMPLE_RATE / 1000;
        CpalAudioDevice { buffer: Vec::new(), buffer_size: buffer_capacity, audio_queue: Vec::new() }
    }

    /// How many samples make a full buffer.
    pub fn buffer_size(&self) -> (r: usize)
        ensures
            r == self.buffer_size,
    {
        self.buffer_size
    }

    /// The samples gathered since the last move to the queue.
    pub fn buffered(&self) -> (r: &Vec<AudioSample>)
        ensures
            r@ == self.buffer@,
    {
        &self.buffer
    }

    /// The samples waiting for the output stream, oldest first.
    pub fn queued(&self) -> (r: &Vec<AudioSample>)
        ensures
            r@ == self.audio_queue@,
    {
        &self.audio_queue
    }

    /// The next stereo frame for the output stream: the oldest queued sample, or silence when
    /// the queue is empty.
    pub fn next_output_frame(&mut self) -> (r: (i16, i16))
        ensures
            old(self).audio_queue@.len() == 0 ==> r == (0i16, 0i16) && final(self).audio_queue@ == old(self).audio_queue@,
            old(self).audio_queue@.len() > 0 ==> r == (old(self).audio_queue@[0].left, old(self).audio_queue@[0].right)
                && final(self).audio_queue@ == old(self).audio_queue@.drop_first(),
            final(self).buffer@ == old(self).buffer@,
            final(self).buffer_size == old(self).buffer_size,
    {
        if self.audio_queue.len() == 0 {
            (0, 0)
        } else {
            let s = self.audio_queue.remove(0);
            proof {
                assert(old(self).audio_queue@.remove(0) =~= old(self).audio_queue@.drop_first());
            }
            (s.left, s.right)
        }
    }
}

impl AudioDevice for CpalAudioDevice {
    /// Gathers a sample; when the buffer is full, the whole buffer moves to the end of the queue.
    /// Samples leave in the order they were played: queue then buffer grow by the sample.
    fn play_sample(&mut self, sample: AudioSample)
        ensures
            old(self).buffer@.len() + 1 >= old(self).buffer_size ==> final(self).buffer@ == Seq::<AudioSample>::empty()
                && final(self).audio_queue@ == old(self).audio_queue@ + old(self).buffer@.push(sample),
            old(self).buffer@.len() + 1 < old(self).buffer_size ==> final(self).buffer@ == old(self).buffer@.push(sample)
                && final(self).audio_queue@ == old(self).audio_queue@,
            final(self).buffer_size == old(self).buffer_size,
            final(self).audio_queue@ + final(self).buffer@ == old(self).audio_queue@ + old(self).buffer@.push(sample),
    {
        self.buffer.push(sample);
        if self.buffer.len() >= self.buffer_size {
            self.audio_queue.append(&mut self.buffer);
        }
        proof {
            assert(self.audio_queue@ + self.buffer@ =~= old(self).audio_queue@ + old(self).buffer@.push(sample));
        }
    }
}

} // verus!
