//! Speaker and microphone systems: sessions that exchange 5.1 samples and
//! stereo pairs instead of raw periods.

use crate::error::AudioError;
use crate::frame::{Frame, Stereo16};
use crate::session::{
    channels_of, frames_that_fit, opened, output_period, Backend, DeviceSession, Direction,
    SessionView,
};
use crate::signal::PollOutcome;
use crate::stream::frame_channels;
use vstd::prelude::*;

verus! {

/// The mean of two samples, rounded towards zero.
pub open spec fn average(a: i16, b: i16) -> i16 {
    let sum = a + b;
    if sum >= 0 {
        (sum / 2) as i16
    } else {
        (-((-sum) / 2)) as i16
    }
}

/// How a 5.1 sample is brought down to a stereo pair.
#[derive(Clone, Copy, Debug, PartialEq, Eq, Structural)]
pub enum DownmixPolicy {
    /// Each side is the mean of its front and surround channels; center and
    /// LFE are dropped.
    Average,
    /// Each side is its front channel; everything else is dropped.
    Front,
}

/// The stereo pair that `policy` makes of the six channels of a sample,
/// given as front left, front right, center, LFE, surround left, surround
/// right.
pub open spec fn downmixed(channels: Seq<i16>, policy: DownmixPolicy) -> Stereo16 {
    match policy {
        DownmixPolicy::Average => Stereo16 {
            left: average(channels[0], channels[4]),
            right: average(channels[1], channels[5]),
        },
        DownmixPolicy::Front => Stereo16 { left: channels[0], right: channels[1] },
    }
}

/// The stereo frames, as channel sequences, that `policy` makes of `samples`.
pub open spec fn mixdown(samples: Seq<AudioSample>, policy: DownmixPolicy) -> Seq<Seq<i16>> {
    samples.map_values(|s: AudioSample| downmixed(s@, policy).channels())
}

/// One sample instant of 5.1 surround sound.
///
/// Its view is the six channels in the order front left, front right,
/// center, LFE, surround left, surround right.
#[derive(Clone, Copy, Debug)]
pub struct AudioSample {
    front_left: i16,
    front_right: i16,
    center: i16,
    lfe: i16,
    surround_left: i16,
    surround_right: i16,
}

impl View for AudioSample {
    type V = Seq<i16>;

    closed spec fn view(&self) -> Seq<i16> {
        seq![
            self.front_left,
            self.front_right,
            self.center,
            self.lfe,
            self.surround_left,
            self.surround_right,
        ]
    }
}

impl AudioSample {
    /// A stereo sample: the surround pair repeats the front pair, center and
    /// LFE are silent.
    pub fn stereo(left: i16, right: i16) -> (sample: AudioSample)
        ensures
            sample@ == seq![left, right, 0i16, 0i16, left, right],
    {
        AudioSample {
            front_left: left,
            front_right: right,
            center: 0,
            lfe: 0,
            surround_left: left,
            surround_right: right,
        }
    }

    /// A 5.1 surround sample.
    pub fn surround(
        front_left: i16,
        front_right: i16,
        front_center: i16,
        lfe: i16,
        surround_left: i16,
        surround_right: i16,
    ) -> (sample: AudioSample)
        ensures
            sample@ == seq![
                front_left,
                front_right,
                front_center,
                lfe,
                surround_left,
                surround_right,
            ],
    {
        AudioSample {
            front_left,
            front_right,
            center: front_center,
            lfe,
            surround_left,
            surround_right,
        }
    }

    /// The six channels: front left, front right, center, LFE, surround
    /// left, surround right.
    pub fn channels(&self) -> (six: [i16; 6])
        ensures
            six@ == self@,
    {
        let six: [i16; 6] = [
            self.front_left,
            self.front_right,
            self.center,
            self.lfe,
            self.surround_left,
            self.surround_right,
        ];
        assert(six@ =~= self@);
        six
    }

    /// The stereo pair that `policy` makes of this sample.
    pub fn downmix(&self, policy: DownmixPolicy) -> (pair: Stereo16)
        ensures
            pair == downmixed(self@, policy),
    {
        match policy {
            DownmixPolicy::Average => Stereo16 {
                left: mean(self.front_left, self.surround_left),
                right: mean(self.front_right, self.surround_right),
            },
            DownmixPolicy::Front => Stereo16 { left: self.front_left, right: self.front_right },
        }
    }
}

/// The mean of two samples, rounded towards zero.
pub fn mean(a: i16, b: i16) -> (m: i16)
    ensures
        m == average(a, b),
{
    let sum: i32 = a as i32 + b as i32;
    let half: i32 = sum / 2;
    half as i16
}

/// A stereo sample downmixes to itself under either policy.
pub proof fn lemma_stereo_downmix(left: i16, right: i16, policy: DownmixPolicy)
    ensures
        downmixed(seq![left, right, 0i16, 0i16, left, right], policy) == (Stereo16 { left, right }),
{
}

/// What opening a speaker system on `backend` at `rate` comes to: an input
/// endpoint is no speaker; anything else opens as a session does.
pub open spec fn speaker_opened<W>(backend: Backend, rate: u32) -> Result<
    SessionView<W>,
    AudioError,
> {
    if backend.direction != Direction::Output {
        Err(AudioError::DeviceUnavailable)
    } else {
        opened(backend, rate)
    }
}

/// What opening a microphone system on `backend` at `rate` comes to: an
/// output endpoint is no microphone; anything else opens as a session does.
pub open spec fn microphone_opened<W>(backend: Backend, rate: u32) -> Result<
    SessionView<W>,
    AudioError,
> {
    if backend.direction != Direction::Input {
        Err(AudioError::DeviceUnavailable)
    } else {
        opened(backend, rate)
    }
}

/// Audio output: a session on a speaker endpoint that plays 5.1 samples as
/// stereo.
pub struct SpeakerSystem<W> {
    session: DeviceSession<W>,
    policy: DownmixPolicy,
}

impl<W> SpeakerSystem<W> {
    /// The value of the session underneath.
    pub closed spec fn session_view(&self) -> SessionView<W> {
        self.session@
    }

    /// The downmix policy in force.
    pub closed spec fn spec_policy(&self) -> DownmixPolicy {
        self.policy
    }

    /// Connect to the speaker system at `sr` hertz.  The policy starts as
    /// `Average`.
    pub fn new(backend: &Backend, sr: u32) -> (system: Result<Self, AudioError>)
        ensures
            match system {
                Ok(s) => speaker_opened::<W>(*backend, sr) == Ok::<SessionView<W>, AudioError>(
                    s.session_view(),
                ) && s.spec_policy() == DownmixPolicy::Average,
                Err(e) => speaker_opened::<W>(*backend, sr) == Err::<SessionView<W>, AudioError>(e),
            },
    {
        match backend.direction {
            Direction::Input => Err(AudioError::DeviceUnavailable),
            Direction::Output => {
                match DeviceSession::open(backend, sr) {
                    Ok(session) => Ok(SpeakerSystem { session, policy: DownmixPolicy::Average }),
                    Err(e) => Err(e),
                }
            },
        }
    }

    /// The downmix policy in force.
    pub fn policy(&self) -> (policy: DownmixPolicy)
        ensures
            policy == self.spec_policy(),
    {
        self.policy
    }

    /// Change the downmix policy.  The session is untouched.
    pub fn set_policy(&mut self, policy: DownmixPolicy)
        ensures
            final(self).spec_policy() == policy,
            final(self).session_view() == old(self).session_view(),
    {
        self.policy = policy;
    }

    /// The session underneath.
    pub fn session(&self) -> (session: &DeviceSession<W>)
        ensures
            session@ == self.session_view(),
    {
        &self.session
    }

    /// Producer side: the hardware can take another period.
    pub fn signal_ready(&mut self) -> (woken: Option<W>)
        ensures
            final(self).session_view() == old(self).session_view().signalled(),
            final(self).spec_policy() == old(self).spec_policy(),
            woken == old(self).session_view().signal.woken(),
    {
        self.session.signal_ready()
    }

    /// Consumer side: one poll of the wait until a period can be filled.
    pub fn poll_period(&mut self, waker: W) -> (outcome: PollOutcome)
        ensures
            final(self).session_view() == old(self).session_view().polled(waker),
            final(self).spec_policy() == old(self).spec_policy(),
            outcome == old(self).session_view().signal.outcome(),
    {
        self.session.poll_period(waker)
    }

    /// How many samples one period plays.
    pub fn capacity(&self) -> (capacity: usize)
        ensures
            capacity == self.session_view().period.len() / 2,
    {
        self.session.frame_capacity::<Stereo16>()
    }

    /// Play `samples`: each is brought down to a stereo pair by the policy in
    /// force, and the pairs are laid into the period, left before right, as
    /// many as fit; the rest of the period is silent.  Returns how many
    /// samples were played.
    pub fn play(&mut self, samples: &[AudioSample]) -> (played: usize)
        ensures
            played == frames_that_fit(samples@.len(), 2, old(self).session_view().period.len()),
            final(self).session_view() == old(self).session_view().filled(
                output_period(
                    mixdown(samples@, old(self).spec_policy()),
                    2,
                    old(self).session_view().period.len(),
                ),
            ),
            final(self).spec_policy() == old(self).spec_policy(),
    {
        let mut pairs: Vec<Stereo16> = Vec::new();
        let mut i: usize = 0;
        while i < samples.len()
            invariant
                i <= samples@.len(),
                pairs@.len() == i,
                forall|k: int|
                    0 <= k < i ==> #[trigger] pairs@[k] == downmixed(samples@[k]@, self.policy),
            decreases samples@.len() - i,
        {
            pairs.push(samples[i].downmix(self.policy));
            i = i + 1;
        }
        assert(channels_of(pairs@) =~= mixdown(samples@, self.policy));
        self.session.write_frames(pairs.as_slice())
    }
}

/// Audio input: a session on a microphone endpoint that is read as stereo
/// pairs.
pub struct MicrophoneSystem<W> {
    session: DeviceSession<W>,
}

/// The stereo pair, tagged with the microphone it came from, that a
/// microphone system reports for one raw sample.
pub open spec fn recorded_pair(mask: u8, sample: i16) -> (usize, i16, i16) {
    (0usize, frame_channels(mask, sample, 2)[0], frame_channels(mask, sample, 2)[1])
}

impl<W> MicrophoneSystem<W> {
    /// The value of the session underneath.
    pub closed spec fn session_view(&self) -> SessionView<W> {
        self.session@
    }

    /// Connect to the microphone system at `sr` hertz.
    pub fn new(backend: &Backend, sr: u32) -> (system: Result<Self, AudioError>)
        ensures
            match system {
                Ok(s) => microphone_opened::<W>(*backend, sr) == Ok::<SessionView<W>, AudioError>(
                    s.session_view(),
                ),
                Err(e) => microphone_opened::<W>(*backend, sr) == Err::<
                    SessionView<W>,
                    AudioError,
                >(e),
            },
    {
        match backend.direction {
            Direction::Output => Err(AudioError::DeviceUnavailable),
            Direction::Input => {
                match DeviceSession::open(backend, sr) {
                    Ok(session) => Ok(MicrophoneSystem { session }),
                    Err(e) => Err(e),
                }
            },
        }
    }

    /// The session underneath.
    pub fn session(&self) -> (session: &DeviceSession<W>)
        ensures
            session@ == self.session_view(),
    {
        &self.session
    }

    /// Which physical channels the microphone populates.
    pub fn channels(&self) -> (mask: u8)
        ensures
            mask == self.session_view().mask,
    {
        self.session.channel_mask()
    }

    /// Producer side: overwrite the whole period in place.  A block of
    /// another length is refused and the system is unchanged.
    pub fn fill(&mut self, period: &[i16]) -> (written: bool)
        ensures
            written == (period@.len() == old(self).session_view().period.len()),
            final(self).session_view() == (if written {
                old(self).session_view().filled(period@)
            } else {
                old(self).session_view()
            }),
    {
        self.session.fill(period)
    }

    /// Producer side: the hardware has captured a period.
    pub fn signal_ready(&mut self) -> (woken: Option<W>)
        ensures
            final(self).session_view() == old(self).session_view().signalled(),
            woken == old(self).session_view().signal.woken(),
    {
        self.session.signal_ready()
    }

    /// Consumer side: one poll of the wait until a period has been captured.
    pub fn poll_period(&mut self, waker: W) -> (outcome: PollOutcome)
        ensures
            final(self).session_view() == old(self).session_view().polled(waker),
            outcome == old(self).session_view().signal.outcome(),
    {
        self.session.poll_period(waker)
    }

    /// The current period as stereo pairs, one per sample, each with the id
    /// of the microphone it came from: the id, the left sample, the right
    /// sample.  The system is unchanged.
    pub fn record(&mut self) -> (recorded: Vec<(usize, i16, i16)>)
        ensures
            final(self).session_view() == old(self).session_view(),
            recorded@.len() == old(self).session_view().period.len(),
            forall|k: int|
                0 <= k < recorded@.len() ==> #[trigger] recorded@[k] == recorded_pair(
                    old(self).session_view().mask,
                    old(self).session_view().period[k],
                ),
    {
        let mut stream = self.session.frames::<Stereo16>();
        let ghost start = stream@;
        let frames = stream.drain();
        let mut recorded: Vec<(usize, i16, i16)> = Vec::new();
        let mut i: usize = 0;
        while i < frames.len()
            invariant
                i <= frames@.len(),
                recorded@.len() == i,
                frames@.len() == start.period.len(),
                start.position == 0,
                forall|k: int|
                    0 <= k < frames@.len() ==> Some(#[trigger] frames@[k].channels())
                        == start.after(k as nat).yielded(2),
                forall|k: int|
                    0 <= k < i ==> #[trigger] recorded@[k] == recorded_pair(
                        start.mask,
                        start.period[k],
                    ),
            decreases frames@.len() - i,
        {
            proof {
                crate::stream::lemma_after_position(start, i as nat);
                assert(Some(frames@[i as int].channels()) == start.after(i as nat).yielded(2));
            }
            let frame = frames[i];
            recorded.push((0usize, frame.left, frame.right));
            i = i + 1;
        }
        recorded
    }
}

} // verus!
