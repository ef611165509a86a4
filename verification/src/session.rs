//! The device session: one backend connection with its period buffer and its
//! completion signal.

use crate::buffer::{silence, PeriodBuffer};
use crate::error::AudioError;
use crate::frame::Frame;
use crate::signal::{CompletionSignal, PollOutcome, SignalView};
use crate::stream::{FrameStream, StreamView};
use vstd::prelude::*;

verus! {

/// Which way samples flow through an endpoint.
#[derive(Clone, Copy, Debug, PartialEq, Eq, Structural)]
pub enum Direction {
    /// The hardware produces samples (a microphone).
    Input,
    /// The hardware consumes samples (a speaker).
    Output,
}

/// What a native backend reports of one endpoint, as plain values.
pub struct Backend {
    /// Which way samples flow.
    pub direction: Direction,
    /// Hardware is present.
    pub present: bool,
    /// Access to the hardware has been granted.
    pub permitted: bool,
    /// The sample rates, in hertz, at which the hardware can run.
    pub rates: Vec<u32>,
    /// The number of samples in one period.
    pub period_length: usize,
    /// Which physical channels are populated.
    pub channel_mask: u8,
}

/// The abstract value of a [`DeviceSession`].
pub struct SessionView<W> {
    /// Which way samples flow.
    pub direction: Direction,
    /// The samples of the current period.
    pub period: Seq<i16>,
    /// The completion signal.
    pub signal: SignalView<W>,
    /// The negotiated sample rate, in hertz.
    pub sample_rate: u32,
    /// Which physical channels are populated.
    pub mask: u8,
}

/// What opening a session on `backend` at `rate` comes to.
///
/// Missing hardware is reported first, then a refused permission, then a rate
/// that the hardware cannot run at.  A session that opens starts with a
/// silent period and an idle signal.
pub open spec fn opened<W>(backend: Backend, rate: u32) -> Result<SessionView<W>, AudioError> {
    if !backend.present {
        Err(AudioError::DeviceUnavailable)
    } else if !backend.permitted {
        Err(AudioError::PermissionDenied)
    } else if !backend.rates@.contains(rate) {
        Err(AudioError::UnsupportedRate)
    } else {
        Ok(
            SessionView {
                direction: backend.direction,
                period: silence(backend.period_length as nat),
                signal: SignalView::idle(),
                sample_rate: rate,
                mask: backend.channel_mask,
            },
        )
    }
}

/// The samples of `frames`, frame after frame, each frame channel after
/// channel.
pub open spec fn interleave(frames: Seq<Seq<i16>>) -> Seq<i16>
    decreases frames.len(),
{
    if frames.len() == 0 {
        Seq::empty()
    } else {
        interleave(frames.drop_last()) + frames.last()
    }
}

/// How many of `offered` frames of `channel_count` channels fit into a
/// period of `period_length` samples.
pub open spec fn frames_that_fit(offered: nat, channel_count: nat, period_length: nat) -> nat {
    let capacity = period_length / channel_count;
    if offered < capacity {
        offered
    } else {
        capacity
    }
}

/// The period that plays `frames`: as many whole frames as fit, interleaved
/// from the start, and silence in what is left.
pub open spec fn output_period(
    frames: Seq<Seq<i16>>,
    channel_count: nat,
    period_length: nat,
) -> Seq<i16> {
    let played = frames_that_fit(frames.len(), channel_count, period_length);
    let head = interleave(frames.take(played as int));
    head + silence((period_length - head.len()) as nat)
}

/// The channels of each frame of `frames`.
pub open spec fn channels_of<F: Frame>(frames: Seq<F>) -> Seq<Seq<i16>> {
    frames.map_values(|f: F| f.channels())
}

/// Interleaving one more frame appends its channels.
pub proof fn lemma_interleave_push(frames: Seq<Seq<i16>>, frame: Seq<i16>)
    ensures
        interleave(frames.push(frame)) == interleave(frames) + frame,
{
    assert(frames.push(frame).drop_last() =~= frames);
}

/// Frames of `channel_count` channels each interleave to `channel_count`
/// samples per frame.
pub proof fn lemma_interleave_len(frames: Seq<Seq<i16>>, channel_count: nat)
    requires
        forall|k: int| 0 <= k < frames.len() ==> (#[trigger] frames[k]).len() == channel_count,
    ensures
        interleave(frames).len() == frames.len() * channel_count,
    decreases frames.len(),
{
    if frames.len() > 0 {
        lemma_interleave_len(frames.drop_last(), channel_count);
        assert(frames.len() * channel_count == (frames.len() - 1) * channel_count + channel_count)
            by (nonlinear_arith);
    }
}

impl Backend {
    /// Whether the hardware can run at `rate` hertz.
    pub fn supports_rate(&self, rate: u32) -> (supported: bool)
        ensures
            supported == self.rates@.contains(rate),
    {
        let mut i: usize = 0;
        while i < self.rates.len()
            invariant
                i <= self.rates@.len(),
                forall|k: int| 0 <= k < i ==> self.rates@[k] != rate,
            decreases self.rates@.len() - i,
        {
            if self.rates[i] == rate {
                return true;
            }
            i = i + 1;
        }
        false
    }
}

/// One open endpoint: the period buffer, the completion signal and the fixed
/// facts of the session.
///
/// `W` is the type of the handle that resumes the consumer task.
pub struct DeviceSession<W> {
    direction: Direction,
    buffer: PeriodBuffer,
    signal: CompletionSignal<W>,
    sample_rate: u32,
    mask: u8,
}

impl<W> View for DeviceSession<W> {
    type V = SessionView<W>;

    closed spec fn view(&self) -> SessionView<W> {
        SessionView {
            direction: self.direction,
            period: self.buffer@,
            signal: self.signal@,
            sample_rate: self.sample_rate,
            mask: self.mask,
        }
    }
}

impl<W> DeviceSession<W> {
    /// Open a session on `backend` at `requested_sample_rate` hertz.
    ///
    /// Every failure is an error value; on failure nothing is allocated.
    pub fn open(backend: &Backend, requested_sample_rate: u32) -> (session: Result<Self, AudioError>)
        ensures
            match session {
                Ok(s) => opened::<W>(*backend, requested_sample_rate) == Ok::<
                    SessionView<W>,
                    AudioError,
                >(s@),
                Err(e) => opened::<W>(*backend, requested_sample_rate) == Err::<
                    SessionView<W>,
                    AudioError,
                >(e),
            },
    {
        if !backend.present {
            return Err(AudioError::DeviceUnavailable);
        }
        if !backend.permitted {
            return Err(AudioError::PermissionDenied);
        }
        if !backend.supports_rate(requested_sample_rate) {
            return Err(AudioError::UnsupportedRate);
        }
        Ok(
            DeviceSession {
                direction: backend.direction,
                buffer: PeriodBuffer::new(backend.period_length),
                signal: CompletionSignal::new(),
                sample_rate: requested_sample_rate,
                mask: backend.channel_mask,
            },
        )
    }

    /// Which way samples flow.
    pub fn direction(&self) -> (direction: Direction)
        ensures
            direction == self@.direction,
    {
        self.direction
    }

    /// Which physical channels are populated.
    pub fn channel_mask(&self) -> (mask: u8)
        ensures
            mask == self@.mask,
    {
        self.mask
    }

    /// The negotiated sample rate, in hertz.
    pub fn sample_rate(&self) -> (rate: u32)
        ensures
            rate == self@.sample_rate,
    {
        self.sample_rate
    }

    /// The number of samples in one period.
    pub fn period_length(&self) -> (n: usize)
        ensures
            n == self@.period.len(),
    {
        self.buffer.len()
    }

    /// Producer side: overwrite one sample of the period in place.
    pub fn write(&mut self, index: usize, value: i16)
        requires
            index < old(self)@.period.len(),
        ensures
            final(self)@ == old(self)@.filled(old(self)@.period.update(index as int, value)),
    {
        self.buffer.write(index, value);
    }

    /// Producer side: overwrite the whole period in place.  A block of
    /// another length is refused and the session is unchanged.
    pub fn fill(&mut self, period: &[i16]) -> (written: bool)
        ensures
            written == (period@.len() == old(self)@.period.len()),
            final(self)@ == (if written {
                old(self)@.filled(period@)
            } else {
                old(self)@
            }),
    {
        self.buffer.fill(period)
    }

    /// How many whole frames of layout `F` one period holds.
    pub fn frame_capacity<F: Frame>(&self) -> (capacity: usize)
        ensures
            capacity == self@.period.len() / F::spec_channel_count(),
    {
        proof {
            F::lemma_channel_count_bounds();
        }
        self.buffer.len() / F::channel_count()
    }

    /// Output side: lay `frames` into the period for the hardware to play.
    ///
    /// As many whole frames as fit are written from the start of the period,
    /// channel after channel; what is left of the period is silenced, so that
    /// nothing of an earlier period plays again.  Returns how many frames
    /// were written.
    pub fn write_frames<F: Frame>(&mut self, frames: &[F]) -> (played: usize)
        ensures
            played == frames_that_fit(
                frames@.len(),
                F::spec_channel_count(),
                old(self)@.period.len(),
            ),
            final(self)@ == old(self)@.filled(
                output_period(
                    channels_of(frames@),
                    F::spec_channel_count(),
                    old(self)@.period.len(),
                ),
            ),
    {
        proof {
            F::lemma_channel_count_bounds();
        }
        let count: usize = F::channel_count();
        let len: usize = self.buffer.len();
        let capacity: usize = len / count;
        let played: usize = if frames.len() < capacity {
            frames.len()
        } else {
            capacity
        };
        let ghost all = channels_of(frames@);
        let ghost shown = all.take(played as int);
        assert(capacity * count <= len) by (nonlinear_arith)
            requires
                capacity == len / count,
                count >= 1,
        ;
        let mut pos: usize = 0;
        let mut k: usize = 0;
        while k < played
            invariant
                k <= played <= capacity,
                played <= frames@.len(),
                capacity * count <= len,
                count == F::spec_channel_count(),
                1 <= count <= 8,
                pos == k * count,
                self.buffer@.len() == len,
                all == channels_of(frames@),
                self.buffer@.take(pos as int) == interleave(all.take(k as int)),
                self@ == (SessionView { period: self.buffer@, ..old(self)@ }),
            decreases played - k,
        {
            let mut c: usize = 0;
            proof {
                frames@[k as int].lemma_channels_len();
                assert((k + 1) * count <= capacity * count) by (nonlinear_arith)
                    requires
                        k + 1 <= capacity,
                        count >= 1,
                ;
                assert((k + 1) * count == k * count + count) by (nonlinear_arith);
                assert(all[k as int].take(0) =~= Seq::<i16>::empty());
                assert(interleave(all.take(k as int)) + all[k as int].take(0) =~= interleave(
                    all.take(k as int),
                ));
            }
            while c < count
                invariant
                    c <= count,
                    k < played,
                    played <= frames@.len(),
                    pos == k * count + c,
                    k * count + count <= len,
                    self.buffer@.len() == len,
                    count == F::spec_channel_count(),
                    all == channels_of(frames@),
                    all[k as int].len() == count,
                    self.buffer@.take(pos as int) == interleave(all.take(k as int)) + all[k as int].take(
                        c as int,
                    ),
                    self@ == (SessionView { period: self.buffer@, ..old(self)@ }),
                decreases count - c,
            {
                let ghost before = self.buffer@;
                let sample = frames[k].channel(c);
                self.buffer.write(pos, sample);
                proof {
                    assert(self.buffer@.take(pos + 1) =~= before.take(pos as int).push(sample));
                    assert(all[k as int].take(c + 1) =~= all[k as int].take(c as int).push(sample));
                    assert(self.buffer@.take(pos + 1) =~= interleave(all.take(k as int))
                        + all[k as int].take(c + 1));
                }
                pos = pos + 1;
                c = c + 1;
            }
            proof {
                assert(all[k as int].take(count as int) =~= all[k as int]);
                assert(all.take(k + 1) =~= all.take(k as int).push(all[k as int]));
                lemma_interleave_push(all.take(k as int), all[k as int]);
            }
            k = k + 1;
        }
        let ghost head = interleave(shown);
        proof {
            assert forall|j: int| 0 <= j < shown.len() implies (#[trigger] shown[j]).len()
                == count by {
                frames@[j].lemma_channels_len();
            }
            lemma_interleave_len(shown, count as nat);
            assert(shown.len() == played);
            assert(played * count <= capacity * count) by (nonlinear_arith)
                requires
                    played <= capacity,
                    count >= 1,
            ;
            assert(head + silence(0) =~= head);
        }
        while pos < len
            invariant
                head.len() <= pos <= len,
                self.buffer@.len() == len,
                self.buffer@.take(pos as int) == head + silence((pos - head.len()) as nat),
                self@ == (SessionView { period: self.buffer@, ..old(self)@ }),
            decreases len - pos,
        {
            let ghost before = self.buffer@;
            self.buffer.write(pos, 0i16);
            proof {
                assert(self.buffer@.take(pos + 1) =~= before.take(pos as int).push(0i16));
                assert(self.buffer@.take(pos + 1) =~= head + silence((pos + 1 - head.len()) as nat));
            }
            pos = pos + 1;
        }
        assert(self.buffer@.take(len as int) =~= self.buffer@);
        played
    }

    /// The sample at `index` of the current period, or `None` past its end.
    pub fn sample(&self, index: usize) -> (value: Option<i16>)
        ensures
            value == (if index < self@.period.len() {
                Some(self@.period[index as int])
            } else {
                None
            }),
    {
        self.buffer.get(index)
    }

    /// Producer side: a full period has been exchanged with the hardware.
    ///
    /// Returns the waker of the waiting consumer, if there is one, for the
    /// producer to invoke.  The period is untouched.
    pub fn signal_ready(&mut self) -> (woken: Option<W>)
        ensures
            final(self)@ == old(self)@.signalled(),
            woken == old(self)@.signal.woken(),
    {
        self.signal.signal_ready()
    }

    /// Consumer side: one poll of the wait for the next period.
    ///
    /// `Complete` means that a period is ready: of an input session, that it
    /// can be read; of an output session, that it can be filled.
    pub fn poll_period(&mut self, waker: W) -> (outcome: PollOutcome)
        ensures
            final(self)@ == old(self)@.polled(waker),
            outcome == old(self)@.signal.outcome(),
    {
        self.signal.poll(waker)
    }

    /// A stream over the current period, one frame of layout `F` per sample.
    ///
    /// The stream borrows the session: until it is dropped the period can
    /// neither be overwritten nor awaited again.
    pub fn frames<F: Frame>(&self) -> (stream: FrameStream<'_, F>)
        ensures
            stream@ == self@.stream(),
    {
        FrameStream::new(&self.buffer, self.mask, self.sample_rate)
    }

    /// How many periods the hardware has exchanged while the one before was
    /// still waiting for the consumer.
    pub fn missed_periods(&self) -> (count: u64)
        ensures
            count == self@.signal.missed,
    {
        self.signal.missed()
    }

    /// The cadence error of the session so far: none while the consumer has
    /// kept up, an overrun once an input session has missed a period, an
    /// underrun once an output session has.  The session goes on either way.
    pub fn cadence_error(&self) -> (error: Option<AudioError>)
        ensures
            error == self@.cadence_error(),
    {
        if self.signal.missed() == 0 {
            None
        } else {
            match self.direction {
                Direction::Input => Some(AudioError::BufferOverrun),
                Direction::Output => Some(AudioError::BufferUnderrun),
            }
        }
    }
}

impl<W> SessionView<W> {
    /// The session after the producer has overwritten the period with
    /// `period`.
    pub open spec fn filled(self, period: Seq<i16>) -> Self {
        SessionView { period, ..self }
    }

    /// The session after the producer has signalled a period.
    pub open spec fn signalled(self) -> Self {
        SessionView { signal: self.signal.signalled(), ..self }
    }

    /// The session after the consumer has polled with `waker`.
    pub open spec fn polled(self, waker: W) -> Self {
        SessionView { signal: self.signal.polled(waker), ..self }
    }

    /// A fresh stream over the current period.
    pub open spec fn stream(self) -> StreamView {
        StreamView::fresh(self.period, self.mask, self.sample_rate)
    }

    /// The cadence error that a session of this value reports.
    pub open spec fn cadence_error(self) -> Option<AudioError> {
        if self.signal.missed == 0 {
            None
        } else if self.direction == Direction::Input {
            Some(AudioError::BufferOverrun)
        } else {
            Some(AudioError::BufferUnderrun)
        }
    }
}

/// Two cycles see disjoint periods: once the producer has overwritten the
/// period and signalled, the poll completes and every frame of the stream
/// comes from the new period alone, whatever the period before held.
pub proof fn lemma_cycles_are_disjoint<W>(
    session: SessionView<W>,
    second: Seq<i16>,
    waker: W,
    channel_count: nat,
    k: nat,
)
    requires
        second.len() == session.period.len(),
        k < second.len(),
    ensures
        session.filled(second).signalled().signal.outcome() == PollOutcome::Complete,
        session.filled(second).signalled().polled(waker).stream().after(k).yielded(channel_count)
            == Some(crate::stream::frame_channels(session.mask, second[k as int], channel_count)),
        session.filled(second).signalled().polled(waker).stream().remaining() == second.len(),
{
    let stream = session.filled(second).signalled().polled(waker).stream();
    crate::stream::lemma_after_position(stream, k);
}

} // verus!
