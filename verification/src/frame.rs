//! Audio frames: one sample instant over the channels of a layout.
//!
//! A frame is built from a slice of raw channel values, of which it takes as
//! many as its layout has channels.  The three layouts are those of the `fon`
//! crate, and its constructors build them.

use vstd::prelude::*;

verus! {

/// A frame of 16-bit samples in a fixed channel layout.
pub trait Frame: Sized {
    /// How many channels the layout has.
    spec fn spec_channel_count() -> nat;

    /// The samples of the frame, one per channel, in the layout's order.
    spec fn channels(&self) -> Seq<i16>;

    /// Every layout has at least one channel and at most as many as a channel
    /// mask can name.
    proof fn lemma_channel_count_bounds()
        ensures
            1 <= Self::spec_channel_count() <= 8,
    ;

    /// A frame holds exactly one sample per channel.
    proof fn lemma_channels_len(&self)
        ensures
            self.channels().len() == Self::spec_channel_count(),
    ;

    /// How many channels the layout has.
    fn channel_count() -> (count: usize)
        ensures
            count == Self::spec_channel_count(),
    ;

    /// The frame whose channels are the first values of `raw`, or `None` if
    /// `raw` is too short to fill every channel.
    fn from_channels(raw: &[i16]) -> (frame: Option<Self>)
        ensures
            frame is Some <==> raw@.len() >= Self::spec_channel_count(),
            frame matches Some(f) ==> f.channels() == raw@.take(Self::spec_channel_count() as int),
    ;

    /// The sample on channel `index`.
    fn channel(&self, index: usize) -> (sample: i16)
        requires
            index < Self::spec_channel_count(),
        ensures
            sample == self.channels()[index as int],
    ;

    /// The samples of the frame as a vector, one per channel.
    fn to_channels(&self) -> (samples: Vec<i16>)
        ensures
            samples@ == self.channels(),
    ;
}

/// One channel.
#[derive(Clone, Copy, Debug, PartialEq, Eq, Structural)]
pub struct Mono16 {
    /// The only channel.
    pub mono: i16,
}

/// Two channels: left, then right.
#[derive(Clone, Copy, Debug, PartialEq, Eq, Structural)]
pub struct Stereo16 {
    /// The left channel.
    pub left: i16,
    /// The right channel.
    pub right: i16,
}

/// Six channels of 5.1 surround sound, in the order of the raw values they
/// were built from.
#[derive(Clone, Copy, Debug, PartialEq, Eq)]
pub struct Surround16 {
    /// The six channels.
    pub channels: [i16; 6],
}

/// Builds a mono frame with `fon`'s `Mono::<Ch16>::from_channels` and reads
/// its one channel back.  That constructor reads `ch[0]`, so it
/// needs one value; the channel of the frame it builds is that value.
#[verifier::external_body]
fn fon_mono(raw: &[i16]) -> (mono: i16)
    requires
        raw@.len() >= 1,
    ensures
        mono == raw@[0],
{
    let chans: Vec<fon::chan::Ch16> = raw.iter().map(|s| fon::chan::Ch16::new(*s)).collect();
    let frame = <fon::mono::Mono<fon::chan::Ch16> as fon::Frame>::from_channels(&chans);
    let built = fon::Frame::channels(&frame);
    i16::from(built[0])
}

/// Builds a stereo frame with `fon`'s `Stereo::<Ch16>::from_channels` and
/// reads its two channels back.  That constructor reads `ch[0]` and `ch[1]`,
/// so it needs two values; the channels of the frame it builds are those
/// two, in that order.
#[verifier::external_body]
fn fon_stereo(raw: &[i16]) -> (pair: (i16, i16))
    requires
        raw@.len() >= 2,
    ensures
        pair.0 == raw@[0],
        pair.1 == raw@[1],
{
    let chans: Vec<fon::chan::Ch16> = raw.iter().map(|s| fon::chan::Ch16::new(*s)).collect();
    let frame = <fon::stereo::Stereo<fon::chan::Ch16> as fon::Frame>::from_channels(&chans);
    let built = fon::Frame::channels(&frame);
    (i16::from(built[0]), i16::from(built[1]))
}

/// Builds a surround frame with `fon`'s `Surround::<Ch16>::from_channels` and
/// reads its six channels back.  That constructor reads `ch[0]` to `ch[5]`,
/// so it needs six values; the channels of the frame it builds are those
/// six, in that order.
#[verifier::external_body]
fn fon_surround(raw: &[i16]) -> (six: [i16; 6])
    requires
        raw@.len() >= 6,
    ensures
        six@ == raw@.take(6),
{
    let chans: Vec<fon::chan::Ch16> = raw.iter().map(|s| fon::chan::Ch16::new(*s)).collect();
    let frame = <fon::surround::Surround<fon::chan::Ch16> as fon::Frame>::from_channels(&chans);
    let built = fon::Frame::channels(&frame);
    [
        i16::from(built[0]),
        i16::from(built[1]),
        i16::from(built[2]),
        i16::from(built[3]),
        i16::from(built[4]),
        i16::from(built[5]),
    ]
}

impl Frame for Mono16 {
    open spec fn spec_channel_count() -> nat {
        1
    }

    open spec fn channels(&self) -> Seq<i16> {
        seq![self.mono]
    }

    proof fn lemma_channel_count_bounds() {
    }

    proof fn lemma_channels_len(&self) {
    }

    fn channel_count() -> (count: usize) {
        1
    }

    fn from_channels(raw: &[i16]) -> (frame: Option<Self>) {
        if raw.len() < 1 {
            return None;
        }
        let frame = Mono16 { mono: fon_mono(raw) };
        assert(frame.channels() =~= raw@.take(1));
        Some(frame)
    }

    fn channel(&self, index: usize) -> (sample: i16) {
        self.mono
    }

    fn to_channels(&self) -> (samples: Vec<i16>) {
        let mut samples: Vec<i16> = Vec::new();
        samples.push(self.mono);
        assert(samples@ =~= self.channels());
        samples
    }
}

impl Frame for Stereo16 {
    open spec fn spec_channel_count() -> nat {
        2
    }

    open spec fn channels(&self) -> Seq<i16> {
        seq![self.left, self.right]
    }

    proof fn lemma_channel_count_bounds() {
    }

    proof fn lemma_channels_len(&self) {
    }

    fn channel_count() -> (count: usize) {
        2
    }

    fn from_channels(raw: &[i16]) -> (frame: Option<Self>) {
        if raw.len() < 2 {
            return None;
        }
        let pair = fon_stereo(raw);
        let frame = Stereo16 { left: pair.0, right: pair.1 };
        assert(frame.channels() =~= raw@.take(2));
        Some(frame)
    }

    fn channel(&self, index: usize) -> (sample: i16) {
        if index == 0 {
            self.left
        } else {
            self.right
        }
    }

    fn to_channels(&self) -> (samples: Vec<i16>) {
        let mut samples: Vec<i16> = Vec::new();
        samples.push(self.left);
        samples.push(self.right);
        assert(samples@ =~= self.channels());
        samples
    }
}

impl Frame for Surround16 {
    open spec fn spec_channel_count() -> nat {
        6
    }

    open spec fn channels(&self) -> Seq<i16> {
        self.channels@
    }

    proof fn lemma_channel_count_bounds() {
    }

    proof fn lemma_channels_len(&self) {
    }

    fn channel_count() -> (count: usize) {
        6
    }

    fn from_channels(raw: &[i16]) -> (frame: Option<Self>) {
        if raw.len() < 6 {
            return None;
        }
        Some(Surround16 { channels: fon_surround(raw) })
    }

    fn channel(&self, index: usize) -> (sample: i16) {
        self.channels[index]
    }

    fn to_channels(&self) -> (samples: Vec<i16>) {
        let mut samples: Vec<i16> = Vec::new();
        let mut i: usize = 0;
        while i < 6
            invariant
                i <= 6,
                samples@ == self.channels@.take(i as int),
            decreases 6 - i,
        {
            samples.push(self.channels[i]);
            i = i + 1;
            assert(samples@ =~= self.channels@.take(i as int));
        }
        assert(samples@ =~= self.channels@);
        samples
    }
}

} // verus!
