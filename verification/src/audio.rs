use vstd::prelude::*;

use crate::lame::{
    build_encoder, encode_dual, encode_mono, flush_no_gap, lame_writes, new_builder, set_bitrate_192,
    set_num_channels, set_quality_best, set_sample_rate,
};

verus! {

// ---------------------------------------------------------------------------
// Samples
// ---------------------------------------------------------------------------

/// An unsigned 16-bit sample re-centred around zero.
pub open spec fn centred_sample(s: u16) -> i16 {
    (s as int - 32768) as i16
}

/// Unsigned 16-bit samples as signed ones: each shifted down by 32768.
pub fn u16_samples_to_i16(data: &[u16]) -> (r: Vec<i16>)
    ensures
        r@ == data@.map_values(|s: u16| centred_sample(s)),
{
    let mut out: Vec<i16> = Vec::new();
    let mut i: usize = 0;
    while i < data.len()
        invariant
            i <= data@.len(),
            out@ == data@.take(i as int).map_values(|s: u16| centred_sample(s)),
        decreases data.len() - i,
    {
        let s = data[i];
        let v = (s as i32 - 32768) as i16;
        out.push(v);
        assert(out@ =~= data@.take(i + 1).map_values(|s: u16| centred_sample(s)));
        i += 1;
    }
    assert(data@.take(data@.len() as int) =~= data@);
    out
}

/// The samples at even positions (the left channel of interleaved stereo).
pub open spec fn even_samples(s: Seq<i16>) -> Seq<i16> {
    Seq::new(((s.len() + 1) / 2) as nat, |k: int| s[2 * k])
}

/// The samples at odd positions (the right channel of interleaved stereo).
pub open spec fn odd_samples(s: Seq<i16>) -> Seq<i16> {
    Seq::new((s.len() / 2) as nat, |k: int| s[2 * k + 1])
}

/// Interleaved samples split into the left (even positions) and right (odd positions)
/// channels.
pub fn split_stereo(samples: &[i16]) -> (r: (Vec<i16>, Vec<i16>))
    ensures
        r.0@ == even_samples(samples@),
        r.1@ == odd_samples(samples@),
{
    let len = samples.len();
    let mut left: Vec<i16> = Vec::new();
    let mut right: Vec<i16> = Vec::new();
    let mut i: usize = 0;
    while i < len
        invariant
            len == samples@.len(),
            i <= len,
            i % 2 == 0,
            left@ == Seq::new((i / 2) as nat, |k: int| samples@[2 * k]),
            right@ == Seq::new((i / 2) as nat, |k: int| samples@[2 * k + 1]),
        decreases len - i,
    {
        left.push(samples[i]);
        assert(left@ =~= Seq::new((i / 2 + 1) as nat, |k: int| samples@[2 * k]));
        if i + 1 < len {
            right.push(samples[i + 1]);
            assert(right@ =~= Seq::new((i / 2 + 1) as nat, |k: int| samples@[2 * k + 1]));
            i += 2;
        } else {
            assert(left@ =~= even_samples(samples@));
            assert(right@ =~= odd_samples(samples@));
            return (left, right);
        }
    }
    assert(left@ =~= even_samples(samples@));
    assert(right@ =~= odd_samples(samples@));
    (left, right)
}

// ---------------------------------------------------------------------------
// MP3 encoding
// ---------------------------------------------------------------------------

/// The step of the MP3 encoding that failed.
#[derive(Debug, Clone, Copy, PartialEq, Eq, Structural)]
pub enum Mp3Error {
    Init,
    Channels,
    SampleRate,
    Bitrate,
    Quality,
    Build,
    Encode,
    Flush,
}

/// LAME takes the channel count (as a byte) when it is one or two.
pub open spec fn channel_count_accepted(channels: usize) -> bool {
    1 <= (channels as u8) <= 2
}

/// The samples handed to LAME as its first channel: all of them for a mono recording,
/// the even-indexed ones otherwise.
pub open spec fn lame_left(samples: Seq<i16>, channels: usize) -> Seq<i16> {
    if channels == 1 {
        samples
    } else {
        even_samples(samples)
    }
}

/// The samples handed to LAME as its second channel: none for a mono recording, the
/// odd-indexed ones otherwise.
pub open spec fn lame_right(samples: Seq<i16>, channels: usize) -> Option<Seq<i16>> {
    if channels == 1 {
        None
    } else {
        Some(odd_samples(samples))
    }
}

/// What LAME is handed for a recording: a mono recording reaches it whole, as its only
/// channel; an interleaved recording with an even number of samples reaches it as two
/// channels of half the length, the first sample of each pair on the left and the second
/// on the right. Either way LAME is given every recorded sample, once.
pub proof fn lemma_samples_handed_to_lame(samples: Seq<i16>, channels: usize)
    ensures
        channels == 1 ==> lame_left(samples, channels) == samples && lame_right(samples, channels) is None,
        channels != 1 && samples.len() % 2 == 0 ==> ({
            let l = lame_left(samples, channels);
            let r = lame_right(samples, channels)->0;
            &&& lame_right(samples, channels) is Some
            &&& l.len() == samples.len() / 2
            &&& r.len() == samples.len() / 2
            &&& l.len() + r.len() == samples.len()
            &&& forall|k: int| 0 <= k < l.len() ==> l[k] == samples[2 * k] && r[k] == samples[2 * k + 1]
        }),
{
}

/// The recorded `samples` (interleaved when `channels` is not 1) encoded as a 192 kbit/s
/// MP3 of the best quality. A mono recording is encoded as it is; any other is encoded
/// as two channels made of the even and the odd samples, so an interleaved recording
/// has an even number of samples. LAME counts the samples of a channel in a C `int`. A channel count that is not one or two (as a byte)
/// fails with `Channels`, then a sample rate of 0 with `SampleRate`; the bit rate and
/// quality are always taken. Whether LAME can allocate an encoder, accepts the rate when
/// it builds one and encodes without error, and which of its streams it writes, are
/// LAME's.
pub fn encode_mp3(samples: &[i16], channels: usize, sample_rate: u32) -> (r: Result<Vec<u8>, Mp3Error>)
    requires
        samples@.len() <= isize::MAX / 2,
        channels == 1 ==> samples@.len() <= i32::MAX,
        channels != 1 ==> samples@.len() % 2 == 0 && samples@.len() / 2 <= i32::MAX,
    ensures
        r matches Ok(b) ==> lame_writes(
            channels as u8,
            sample_rate,
            Some(192u32),
            Some(0u8),
            lame_left(samples@, channels),
            lame_right(samples@, channels),
            b@,
        ),
        r is Ok ==> channel_count_accepted(channels) && sample_rate >= 1,
        r == Err::<Vec<u8>, Mp3Error>(Mp3Error::Channels) ==> !channel_count_accepted(channels),
        !channel_count_accepted(channels) ==> r == Err::<Vec<u8>, Mp3Error>(Mp3Error::Init) || r == Err::<
            Vec<u8>,
            Mp3Error,
        >(Mp3Error::Channels),
        r == Err::<Vec<u8>, Mp3Error>(Mp3Error::SampleRate) ==> channel_count_accepted(channels) && sample_rate
            == 0,
        channel_count_accepted(channels) && sample_rate == 0 ==> r == Err::<Vec<u8>, Mp3Error>(Mp3Error::Init)
            || r == Err::<Vec<u8>, Mp3Error>(Mp3Error::SampleRate),
        r matches Err(e) ==> e != Mp3Error::Bitrate && e != Mp3Error::Quality,
        r matches Err(e) ==> (e == Mp3Error::Encode || e == Mp3Error::Flush || e == Mp3Error::Build) ==> (
        channel_count_accepted(channels) && sample_rate >= 1),
{
    let mut builder = match new_builder() {
        Some(b) => b,
        None => return Err(Mp3Error::Init),
    };
    if set_num_channels(&mut builder, channels as u8).is_err() {
        return Err(Mp3Error::Channels);
    }
    if set_sample_rate(&mut builder, sample_rate).is_err() {
        return Err(Mp3Error::SampleRate);
    }
    if set_bitrate_192(&mut builder).is_err() {
        return Err(Mp3Error::Bitrate);
    }
    if set_quality_best(&mut builder).is_err() {
        return Err(Mp3Error::Quality);
    }
    let mut encoder = match build_encoder(builder) {
        Ok(e) => e,
        Err(_) => return Err(Mp3Error::Build),
    };
    let encoded = if channels == 1 {
        encode_mono(&mut encoder, samples)
    } else {
        let (left, right) = split_stereo(samples);
        encode_dual(&mut encoder, left.as_slice(), right.as_slice())
    };
    let mut mp3 = match encoded {
        Ok(v) => v,
        Err(_) => return Err(Mp3Error::Encode),
    };
    let tail = match flush_no_gap(&mut encoder) {
        Ok(v) => v,
        Err(_) => return Err(Mp3Error::Flush),
    };
    let ghost head = mp3@;
    let mut i: usize = 0;
    while i < tail.len()
        invariant
            i <= tail@.len(),
            mp3@ == head + tail@.take(i as int),
        decreases tail.len() - i,
    {
        mp3.push(tail[i]);
        assert(tail@.take(i + 1) =~= tail@.take(i as int).push(tail@[i as int]));
        i += 1;
    }
    assert(tail@.take(tail@.len() as int) =~= tail@);
    Ok(mp3)
}

} // verus!
