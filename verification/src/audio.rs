//! The buffer that collects audio samples while a recording runs, and the
//! description of the device they come from.
//!
//! The buffer does not look into a sample, so it is generic in the sample
//! type. It takes `&mut self` for every change: whoever shares it between
//! threads puts it behind a lock, and a drain then happens in one step with
//! respect to every append.

use vstd::prelude::*;
use vstd::slice::slice_subrange;
use vstd::string::*;
use crate::text::{decimal, push_decimal};

verus! {

/// The buffer after `samples` arrive: they are appended while recording and
/// dropped otherwise.
pub open spec fn appended<T>(buffer: Seq<T>, recording: bool, samples: Seq<T>) -> Seq<T> {
    if recording {
        buffer + samples
    } else {
        buffer
    }
}

/// The buffer after all of `chunks` arrive in order during a recording.
pub open spec fn appended_all<T>(buffer: Seq<T>, chunks: Seq<Seq<T>>) -> Seq<T>
    decreases chunks.len(),
{
    if chunks.len() == 0 {
        buffer
    } else {
        appended(appended_all(buffer, chunks.drop_last()), true, chunks.last())
    }
}

/// A drain of `buffer`: first what is handed out, then what is left.
pub open spec fn drained<T>(buffer: Seq<T>) -> (Seq<T>, Seq<T>) {
    (buffer, Seq::empty())
}

/// Draining twice in a row hands out nothing the second time.
pub proof fn lemma_second_drain_is_empty<T>(buffer: Seq<T>)
    ensures
        drained(drained(buffer).1).0 == Seq::<T>::empty(),
{
}

/// Samples that arrive while nothing is recorded never reach a drain.
pub proof fn lemma_idle_samples_are_dropped<T>(buffer: Seq<T>, samples: Seq<T>)
    ensures
        drained(appended(buffer, false, samples)) == drained(buffer),
{
}

/// A drain after a recording window hands out the samples that were
/// appended during the window, each once and in the order of arrival, and
/// leaves nothing behind for the next drain.
pub proof fn lemma_drain_returns_window<T>(chunks: Seq<Seq<T>>)
    ensures
        drained(appended_all(Seq::<T>::empty(), chunks)).0 == chunks.flatten(),
        drained(appended_all(Seq::<T>::empty(), chunks)).1 == Seq::<T>::empty(),
        drained(drained(appended_all(Seq::<T>::empty(), chunks)).1).0 == Seq::<T>::empty(),
{
    lemma_appended_all_is_flatten(chunks);
}

proof fn lemma_appended_all_is_flatten<T>(chunks: Seq<Seq<T>>)
    ensures
        appended_all(Seq::<T>::empty(), chunks) == chunks.flatten(),
    decreases chunks.len(),
{
    chunks.lemma_flatten_and_flatten_alt_are_equivalent();
    if chunks.len() == 0 {
        assert(chunks.flatten_alt() =~= Seq::<T>::empty());
    } else {
        lemma_appended_all_is_flatten(chunks.drop_last());
        chunks.drop_last().lemma_flatten_and_flatten_alt_are_equivalent();
        assert(chunks.flatten_alt() =~= chunks.drop_last().flatten_alt() + chunks.last());
    }
}

/// The number of whole frames in `samples` interleaved samples of `channels`
/// channels each. Samples after the last whole frame belong to no frame.
pub open spec fn frame_count_spec(samples: int, channels: int) -> int {
    samples / channels
}

/// Frame number `k` of the interleaved samples `data`: one sample of each
/// of the `channels` channels.
pub open spec fn frame_of<S>(data: Seq<S>, channels: int, k: int) -> Seq<S> {
    data.subrange(k * channels, k * channels + channels)
}

/// Whether `mix` may turn the frame `frame` into the sample `value`.
pub open spec fn mixes_to<S, T, F: Fn(&[S]) -> T>(mix: F, frame: Seq<S>, value: T) -> bool {
    exists|slice: &[S]| slice@ == frame && call_ensures(mix, (slice,), value)
}

/// Whether `after` is `before` followed by one sample for each whole frame
/// of `data`, in order, each mixed from its frame by `mix`.
pub open spec fn is_mixed_onto<S, T, F: Fn(&[S]) -> T>(
    before: Seq<T>,
    after: Seq<T>,
    data: Seq<S>,
    channels: int,
    mix: F,
) -> bool {
    &&& after.len() == before.len() + frame_count_spec(data.len() as int, channels)
    &&& after.subrange(0, before.len() as int) == before
    &&& forall|k: int|
        0 <= k < frame_count_spec(data.len() as int, channels) ==> mixes_to(
            mix,
            frame_of(data, channels, k),
            #[trigger] after[before.len() + k],
        )
}

/// Mono samples collected during a recording, in the order of arrival.
pub struct AudioBuffer<T> {
    samples: Vec<T>,
}

impl<T> View for AudioBuffer<T> {
    type V = Seq<T>;

    closed spec fn view(&self) -> Seq<T> {
        self.samples@
    }
}

impl<T> AudioBuffer<T> {
    /// An empty buffer.
    pub fn new() -> (buffer: AudioBuffer<T>)
        ensures
            buffer@ == Seq::<T>::empty(),
    {
        AudioBuffer { samples: Vec::new() }
    }

    /// The number of buffered samples.
    pub fn len(&self) -> (len: usize)
        ensures
            len == self@.len(),
    {
        self.samples.len()
    }

    /// Whether nothing is buffered.
    pub fn is_empty(&self) -> (empty: bool)
        ensures
            empty == (self@.len() == 0),
    {
        self.samples.len() == 0
    }

    /// Takes one sample: buffers it while `recording`, drops it otherwise.
    pub fn push(&mut self, recording: bool, sample: T)
        ensures
            final(self)@ == appended(old(self)@, recording, seq![sample]),
    {
        if recording {
            self.samples.push(sample);
            assert(self.samples@ =~= old(self).samples@ + seq![sample]);
        }
    }

    /// Takes a chunk of samples: buffers them in order while `recording`,
    /// drops them otherwise.
    pub fn append(&mut self, recording: bool, samples: Vec<T>)
        ensures
            final(self)@ == appended(old(self)@, recording, samples@),
    {
        if recording {
            let mut samples = samples;
            self.samples.append(&mut samples);
        }
    }

    /// Takes a chunk of interleaved samples of `channels` channels: while
    /// `recording`, buffers one sample per whole frame, which `mix` makes of
    /// the frame; drops the chunk otherwise. Samples after the last whole
    /// frame are dropped.
    pub fn append_frames<S, F: Fn(&[S]) -> T>(
        &mut self,
        recording: bool,
        data: &[S],
        channels: u16,
        mix: F,
    )
        requires
            channels > 0,
            forall|frame: &[S]| frame@.len() == channels ==> call_requires(mix, (frame,)),
        ensures
            !recording ==> final(self)@ == old(self)@,
            recording ==> is_mixed_onto(old(self)@, final(self)@, data@, channels as int, mix),
    {
        if !recording {
            return ;
        }
        let width: usize = channels as usize;
        let frames: usize = data.len() / width;
        let mut k: usize = 0;
        let mut start: usize = 0;
        assert(self.samples@.subrange(0, old(self)@.len() as int) =~= old(self)@);
        assert(frames * width <= data@.len()) by (nonlinear_arith)
            requires
                frames == (data@.len() as int) / (width as int),
                width > 0,
        ;
        while k < frames
            invariant
                k <= frames,
                width == channels,
                width > 0,
                frames == frame_count_spec(data@.len() as int, channels as int),
                start == k * width,
                frames * width <= data@.len() <= usize::MAX,
                forall|frame: &[S]| frame@.len() == channels ==> call_requires(mix, (frame,)),
                self.samples@.len() == old(self)@.len() + k,
                self.samples@.subrange(0, old(self)@.len() as int) == old(self)@,
                forall|j: int|
                    0 <= j < k ==> mixes_to(
                        mix,
                        frame_of(data@, channels as int, j),
                        #[trigger] self.samples@[old(self)@.len() + j],
                    ),
            decreases frames - k,
        {
            assert(k * width + width <= frames * width) by (nonlinear_arith)
                requires
                    k + 1 <= frames,
                    width > 0,
            ;
            let frame = slice_subrange(data, start, start + width);
            let value = mix(frame);
            let ghost before = self.samples@;
            self.samples.push(value);
            proof {
                assert(frame@ == frame_of(data@, channels as int, k as int));
                assert(self.samples@.subrange(0, old(self)@.len() as int) =~= before.subrange(
                    0,
                    old(self)@.len() as int,
                ));
                assert forall|j: int| 0 <= j < k + 1 implies mixes_to(
                    mix,
                    frame_of(data@, channels as int, j),
                    #[trigger] self.samples@[old(self)@.len() + j],
                ) by {
                    if j < k {
                        assert(self.samples@[old(self)@.len() + j] == before[old(self)@.len() + j]);
                    }
                }
                assert((k + 1) * width == k * width + width) by (nonlinear_arith);
            }
            start = start + width;
            k = k + 1;
        }
    }

    /// Drains the buffer: hands out everything that is buffered, in order,
    /// and leaves the buffer empty.
    pub fn take_audio(&mut self) -> (audio: Vec<T>)
        ensures
            audio@ == drained(old(self)@).0,
            final(self)@ == drained(old(self)@).1,
    {
        let mut audio: Vec<T> = Vec::new();
        std::mem::swap(&mut self.samples, &mut audio);
        audio
    }
}

/// The audio input device, as found when capture was set up.
#[derive(Clone, Debug, PartialEq, Eq)]
pub struct DeviceInfo {
    pub name: String,
    pub sample_rate: u32,
    pub channels: u16,
}

/// The device in one line: its name and its sample rate in whole kilohertz.
pub open spec fn device_display(name: Seq<char>, sample_rate: u32) -> Seq<char> {
    name + " ("@ + decimal((sample_rate / 1000) as nat) + "kHz)"@
}

impl DeviceInfo {
    /// Renders the device for display.
    pub fn display(&self) -> (line: String)
        ensures
            line@ == device_display(self.name@, self.sample_rate),
    {
        let mut line = self.name.clone();
        line.append(" (");
        push_decimal(&mut line, (self.sample_rate / 1000) as u64);
        line.append("kHz)");
        line
    }
}

} // verus!
