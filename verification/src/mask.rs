//! Channel masks: which physical channels of a device are populated.
//!
//! Bit `c` of a mask is set when channel `c` carries samples.  A sample that
//! the device captured is spread over the eight channels that a mask can
//! name: populated channels carry it, the others are silent.

use vstd::prelude::*;

verus! {

/// The number of channels that a mask can name.
pub const MAX_CHANNELS: usize = 8;

/// Whether `mask` marks `channel` as populated.
pub open spec fn channel_active(mask: u8, channel: u8) -> bool {
    channel < 8 && (mask >> channel) & 1u8 == 1u8
}

/// One sample instant over all eight channels: `sample` on the channels that
/// `mask` populates, silence on the others.
pub open spec fn spread(mask: u8, sample: i16) -> Seq<i16> {
    Seq::new(
        8,
        |c: int|
            if channel_active(mask, c as u8) {
                sample
            } else {
                0i16
            },
    )
}

/// Whether `mask` marks `channel` as populated.
pub fn is_channel_active(mask: u8, channel: u8) -> (active: bool)
    ensures
        active == channel_active(mask, channel),
{
    channel < 8 && (mask >> channel) & 1u8 == 1u8
}

/// Spread `sample` over the eight channels of `mask`.
pub fn spread_sample(mask: u8, sample: i16) -> (raw: [i16; 8])
    ensures
        raw@ == spread(mask, sample),
{
    let mut raw: [i16; 8] = [0i16; 8];
    let mut c: u8 = 0;
    while c < 8
        invariant
            c <= 8,
            forall|k: int| 0 <= k < c ==> raw@[k] == spread(mask, sample)[k],
            forall|k: int| c <= k < 8 ==> raw@[k] == 0i16,
        decreases 8 - c,
    {
        if is_channel_active(mask, c) {
            raw[c as usize] = sample;
        }
        c = c + 1;
    }
    assert(raw@ =~= spread(mask, sample));
    raw
}

/// A channel that the mask does not populate is silent, whatever was
/// captured.
pub proof fn lemma_unpopulated_channel_is_silent(mask: u8, sample: i16, channel: u8)
    requires
        channel < 8,
        !channel_active(mask, channel),
    ensures
        spread(mask, sample)[channel as int] == 0i16,
{
}

/// A channel that the mask populates carries the captured sample.
pub proof fn lemma_populated_channel_carries_sample(mask: u8, sample: i16, channel: u8)
    requires
        channel_active(mask, channel),
    ensures
        spread(mask, sample)[channel as int] == sample,
{
}

/// With only the first channel populated, the sample stands on channel 0 and
/// every other channel is exactly zero.
pub proof fn lemma_single_channel_mask(sample: i16)
    ensures
        spread(0b0000_0001u8, sample) == seq![sample, 0i16, 0i16, 0i16, 0i16, 0i16, 0i16, 0i16],
{
    assert(forall|c: u8| c < 8 ==> (((0b0000_0001u8 >> c) & 1u8 == 1u8) <==> c == 0)) by (bit_vector);
    assert(spread(0b0000_0001u8, sample) =~= seq![
        sample,
        0i16,
        0i16,
        0i16,
        0i16,
        0i16,
        0i16,
        0i16,
    ]);
}

} // verus!
