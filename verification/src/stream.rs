//! The frame stream: a single-pass cursor over one completed period that
//! yields one frame per buffer index.

use crate::buffer::PeriodBuffer;
use crate::frame::Frame;
use crate::mask::{spread, spread_sample};
use core::marker::PhantomData;
use vstd::prelude::*;

verus! {

/// The channels of the frame that a stream yields for one raw sample: the
/// sample spread over the channels of the mask, cut to the layout's channel
/// count.
pub open spec fn frame_channels(mask: u8, sample: i16, channel_count: nat) -> Seq<i16> {
    spread(mask, sample).take(channel_count as int)
}

/// The abstract value of a [`FrameStream`].
pub struct StreamView {
    /// The period that the stream walks.
    pub period: Seq<i16>,
    /// The index of the next sample to yield.
    pub position: nat,
    /// The channel mask of the device.
    pub mask: u8,
    /// The sample rate of the session, in hertz.
    pub sample_rate: u32,
}

impl StreamView {
    /// The cursor never runs past the end of the period.
    pub open spec fn well_formed(self) -> bool {
        self.position <= self.period.len()
    }

    /// A stream at the start of `period`.
    pub open spec fn fresh(period: Seq<i16>, mask: u8, sample_rate: u32) -> Self {
        StreamView { period, position: 0, mask, sample_rate }
    }

    /// Nothing is left to yield.
    pub open spec fn exhausted(self) -> bool {
        self.position >= self.period.len()
    }

    /// How many frames are left to yield.
    pub open spec fn remaining(self) -> nat {
        if self.exhausted() {
            0
        } else {
            (self.period.len() - self.position) as nat
        }
    }

    /// The channels of the frame that the next call yields, for a layout of
    /// `channel_count` channels; `None` once the stream is exhausted.
    pub open spec fn yielded(self, channel_count: nat) -> Option<Seq<i16>> {
        if self.exhausted() {
            None
        } else {
            Some(frame_channels(self.mask, self.period[self.position as int], channel_count))
        }
    }

    /// The stream after one call: one index further, or unchanged once it is
    /// exhausted.
    pub open spec fn advanced(self) -> Self {
        if self.exhausted() {
            self
        } else {
            StreamView { position: self.position + 1, ..self }
        }
    }

    /// The stream after `calls` calls.
    pub open spec fn after(self, calls: nat) -> Self
        decreases calls,
    {
        if calls == 0 {
            self
        } else {
            self.advanced().after((calls - 1) as nat)
        }
    }
}

/// A cursor over one completed period.
///
/// The stream borrows the buffer, so the period cannot be overwritten while
/// the stream is alive.  It is not restartable: for the next period a new
/// stream is made.
pub struct FrameStream<'a, F: Frame> {
    buffer: &'a PeriodBuffer,
    index: usize,
    mask: u8,
    sample_rate: u32,
    layout: PhantomData<F>,
}

impl<'a, F: Frame> View for FrameStream<'a, F> {
    type V = StreamView;

    closed spec fn view(&self) -> StreamView {
        StreamView {
            period: self.buffer@,
            position: self.index as nat,
            mask: self.mask,
            sample_rate: self.sample_rate,
        }
    }
}

impl<'a, F: Frame> FrameStream<'a, F> {
    #[verifier::type_invariant]
    spec fn cursor_in_period(self) -> bool {
        self.index <= self.buffer@.len()
    }

    /// A stream at the start of the period in `buffer`.
    pub fn new(buffer: &'a PeriodBuffer, mask: u8, sample_rate: u32) -> (stream: Self)
        ensures
            stream@ == StreamView::fresh(buffer@, mask, sample_rate),
    {
        FrameStream { buffer, index: 0, mask, sample_rate, layout: PhantomData }
    }

    /// The frame at the cursor, which then moves on by one; `None` once every
    /// index of the period has been yielded, and on every call after that.
    pub fn next(&mut self) -> (frame: Option<F>)
        ensures
            old(self)@.well_formed(),
            final(self)@ == old(self)@.advanced(),
            frame is Some <==> !old(self)@.exhausted(),
            frame matches Some(f) ==> Some(f.channels()) == old(self)@.yielded(
                F::spec_channel_count(),
            ),
    {
        proof {
            use_type_invariant(&*self);
            F::lemma_channel_count_bounds();
        }
        if self.index >= self.buffer.len() {
            return None;
        }
        let raw = spread_sample(self.mask, self.buffer.read(self.index));
        let frame = F::from_channels(raw.as_slice());
        self.index = self.index + 1;
        frame
    }

    /// Every frame that is left, in order.  The stream is exhausted
    /// afterwards.
    pub fn drain(&mut self) -> (frames: Vec<F>)
        ensures
            frames@.len() == old(self)@.remaining(),
            forall|k: int|
                0 <= k < frames@.len() ==> Some(#[trigger] frames@[k].channels()) == old(
                    self,
                )@.after(k as nat).yielded(F::spec_channel_count()),
            final(self)@ == old(self)@.after(old(self)@.remaining()),
            final(self)@.exhausted(),
    {
        proof {
            use_type_invariant(&*self);
        }
        let ghost start = self@;
        let mut frames: Vec<F> = Vec::new();
        loop
            invariant
                start.well_formed(),
                self@ == start.after(frames@.len()),
                frames@.len() <= start.remaining(),
                self@.remaining() == start.remaining() - frames@.len(),
                forall|k: int|
                    0 <= k < frames@.len() ==> Some(#[trigger] frames@[k].channels())
                        == start.after(k as nat).yielded(F::spec_channel_count()),
            ensures
                frames@.len() == start.remaining(),
                self@ == start.after(start.remaining()),
                self@.exhausted(),
                forall|k: int|
                    0 <= k < frames@.len() ==> Some(#[trigger] frames@[k].channels())
                        == start.after(k as nat).yielded(F::spec_channel_count()),
            decreases self@.remaining(),
        {
            let ghost done = frames@.len();
            match self.next() {
                Some(frame) => {
                    proof {
                        lemma_after_then_advanced(start, done);
                    }
                    frames.push(frame);
                },
                None => {
                    break ;
                },
            }
        }
        frames
    }

    /// The sample rate of the session, in hertz.  It is known before any
    /// frame is consumed.
    pub fn sample_rate(&self) -> (rate: Option<u32>)
        ensures
            rate == Some(self@.sample_rate),
    {
        Some(self.sample_rate)
    }

    /// The number of frames in the period.  It is known before any frame is
    /// consumed and does not shrink as the stream is read.
    pub fn len(&self) -> (count: Option<usize>)
        ensures
            count == Some(self@.period.len() as usize),
            self@.period.len() <= usize::MAX,
    {
        Some(self.buffer.len())
    }

    /// The number of frames that are left to yield.
    pub fn remaining(&self) -> (count: usize)
        ensures
            count == self@.remaining(),
    {
        proof {
            use_type_invariant(self);
        }
        self.buffer.len() - self.index
    }
}

/// On a device that populates only its first channel, a stereo frame carries
/// the captured sample on the left and exact silence on the right.
pub proof fn lemma_single_channel_stereo(sample: i16)
    ensures
        frame_channels(0b0000_0001u8, sample, 2) == seq![sample, 0i16],
{
    crate::mask::lemma_single_channel_mask(sample);
    assert(frame_channels(0b0000_0001u8, sample, 2) =~= seq![sample, 0i16]);
}

/// A channel of a frame that the mask does not populate is exactly zero,
/// whatever was captured.
pub proof fn lemma_unpopulated_frame_channel_is_silent(
    mask: u8,
    sample: i16,
    channel_count: nat,
    channel: u8,
)
    requires
        channel < channel_count <= 8,
        !crate::mask::channel_active(mask, channel),
    ensures
        frame_channels(mask, sample, channel_count)[channel as int] == 0i16,
{
}

/// One more call after `calls` calls is `calls + 1` calls.
pub proof fn lemma_after_then_advanced(start: StreamView, calls: nat)
    ensures
        start.after(calls).advanced() == start.after(calls + 1),
    decreases calls,
{
    reveal_with_fuel(StreamView::after, 2);
    if calls > 0 {
        lemma_after_then_advanced(start.advanced(), (calls - 1) as nat);
    }
}

/// Where a stream stands after `calls` calls: `calls` indices further, but
/// never past the end of the period.
pub proof fn lemma_after_position(start: StreamView, calls: nat)
    requires
        start.well_formed(),
    ensures
        start.after(calls).period == start.period,
        start.after(calls).mask == start.mask,
        start.after(calls).sample_rate == start.sample_rate,
        start.after(calls).position == (if calls <= start.remaining() {
            start.position + calls
        } else {
            start.period.len()
        }),
    decreases calls,
{
    if calls > 0 {
        lemma_after_position(start.advanced(), (calls - 1) as nat);
    }
}

/// A stream over a period of `n` samples yields exactly `n` frames, the
/// `k`-th from the sample at index `k`, and nothing on any call after that.
pub proof fn lemma_stream_yields_period(
    period: Seq<i16>,
    mask: u8,
    sample_rate: u32,
    channel_count: nat,
    calls: nat,
)
    requires
        period.len() >= 1,
    ensures
        StreamView::fresh(period, mask, sample_rate).remaining() == period.len(),
        calls < period.len() ==> StreamView::fresh(period, mask, sample_rate).after(calls).yielded(
            channel_count,
        ) == Some(frame_channels(mask, period[calls as int], channel_count)),
        calls >= period.len() ==> StreamView::fresh(period, mask, sample_rate).after(
            calls,
        ).yielded(channel_count) is None,
{
    lemma_after_position(StreamView::fresh(period, mask, sample_rate), calls);
}

} // verus!
