//! The LAME MP3 encoder as the recorder uses it: a builder, an encoder that is fed the
//! whole recording in one call and then flushed. Each handle carries, as ghost state,
//! what has been handed to LAME, so that the bytes can be tied to the settings and
//! samples that produced them.

use vstd::prelude::*;

use mp3lame_encoder::{BuildError, Builder, DualPcm, EncodeError, Encoder, FlushNoGap, MonoPcm};

verus! {

#[verifier::external_type_specification]
#[verifier::external_body]
pub struct ExBuilder(mp3lame_encoder::Builder);

#[verifier::external_type_specification]
#[verifier::external_body]
pub struct ExEncoder(mp3lame_encoder::Encoder);

#[verifier::external_type_specification]
#[verifier::external_body]
pub struct ExBuildError(mp3lame_encoder::BuildError);

#[verifier::external_type_specification]
#[verifier::external_body]
pub struct ExEncodeError(mp3lame_encoder::EncodeError);

/// The settings handed to LAME: channel count, input sample rate, bit rate in kbit/s and
/// quality (`None` where LAME's default is left in place).
pub struct LameSettings {
    pub channels: u8,
    pub sample_rate: u32,
    pub bitrate: Option<u32>,
    pub quality: Option<u8>,
}

/// The settings of a fresh builder: two channels at 44 100 Hz, default bit rate and
/// quality.
pub open spec fn default_settings() -> LameSettings {
    LameSettings { channels: 2, sample_rate: 44100, bitrate: None, quality: None }
}

/// Whether `mp3` is an MP3 stream that LAME 3.100 writes, when it is configured with
/// `channels`, `sample_rate`, `bitrate` and `quality` (`None`: LAME's default), is fed
/// `left` (with `right` as the second channel, when there is one) in one call, and is
/// then flushed without gap. LAME computes in floating point, so which of the streams
/// it writes may depend on the machine; this says only that the stream is one it writes
/// for these inputs.
pub uninterp spec fn lame_writes(
    channels: u8,
    sample_rate: u32,
    bitrate: Option<u32>,
    quality: Option<u8>,
    left: Seq<i16>,
    right: Option<Seq<i16>>,
    mp3: Seq<u8>,
) -> bool;

/// A LAME configuration and the settings handed to it so far.
pub struct LameBuilder {
    builder: Builder,
    settings: Ghost<LameSettings>,
}

impl LameBuilder {
    pub closed spec fn settings(&self) -> LameSettings {
        self.settings@
    }
}

/// A LAME encoder: its settings, the samples it has been fed (`None` before the one
/// encoding call) and the bytes that call wrote.
pub struct LameEncoder {
    encoder: Encoder,
    settings: Ghost<LameSettings>,
    input: Ghost<Option<(Seq<i16>, Option<Seq<i16>>)>>,
    written: Ghost<Seq<u8>>,
}

impl LameEncoder {
    pub closed spec fn settings(&self) -> LameSettings {
        self.settings@
    }

    pub closed spec fn input(&self) -> Option<(Seq<i16>, Option<Seq<i16>>)> {
        self.input@
    }

    pub closed spec fn written(&self) -> Seq<u8> {
        self.written@
    }
}

/// `Builder::new`: a LAME configuration with its defaults (LAME's `lame_init`), or `None`
/// when LAME cannot allocate one.
#[verifier::external_body]
pub(crate) fn new_builder() -> (r: Option<LameBuilder>)
    ensures
        r matches Some(b) ==> b.settings() == default_settings(),
{
    match Builder::new() {
        Some(builder) => Some(LameBuilder { builder, settings: Ghost(default_settings()) }),
        None => None,
    }
}

/// `Builder::set_num_channels`. LAME's `lame_set_num_channels` accepts one or two
/// channels and refuses any other count, leaving the setting as it was (a builder made
/// by `Builder::new` is always a valid LAME handle).
#[verifier::external_body]
pub(crate) fn set_num_channels(b: &mut LameBuilder, channels: u8) -> (r: Result<(), BuildError>)
    ensures
        r is Ok <==> 1 <= channels <= 2,
        final(b).settings() == (if r is Ok {
            LameSettings { channels, ..old(b).settings() }
        } else {
            old(b).settings()
        }),
{
    b.builder.set_num_channels(channels)
}

/// `Builder::set_sample_rate`. LAME's `lame_set_in_samplerate` accepts any rate of at
/// least 1 Hz (a rate above `c_int::MAX` is passed as `c_int::MAX`) and refuses 0,
/// leaving the setting as it was.
#[verifier::external_body]
pub(crate) fn set_sample_rate(b: &mut LameBuilder, rate: u32) -> (r: Result<(), BuildError>)
    ensures
        r is Ok <==> rate >= 1,
        final(b).settings() == (if r is Ok {
            LameSettings { sample_rate: rate, ..old(b).settings() }
        } else {
            old(b).settings()
        }),
{
    b.builder.set_sample_rate(rate)
}

/// `Builder::set_brate` with 192 kbit/s. LAME's `lame_set_brate` accepts every bit rate
/// on a valid handle.
#[verifier::external_body]
pub(crate) fn set_bitrate_192(b: &mut LameBuilder) -> (r: Result<(), BuildError>)
    ensures
        r is Ok,
        final(b).settings() == (LameSettings { bitrate: Some(192u32), ..old(b).settings() }),
{
    b.builder.set_brate(mp3lame_encoder::Bitrate::Kbps192)
}

/// `Builder::set_quality` with `Quality::Best` (0). LAME's `lame_set_quality` accepts
/// every quality on a valid handle.
#[verifier::external_body]
pub(crate) fn set_quality_best(b: &mut LameBuilder) -> (r: Result<(), BuildError>)
    ensures
        r is Ok,
        final(b).settings() == (LameSettings { quality: Some(0u8), ..old(b).settings() }),
{
    b.builder.set_quality(mp3lame_encoder::Quality::Best)
}

/// `Builder::build`: an encoder with the builder's settings that has not been fed yet,
/// or the error LAME reports for the settings.
#[verifier::external_body]
pub(crate) fn build_encoder(b: LameBuilder) -> (r: Result<LameEncoder, BuildError>)
    ensures
        r matches Ok(e) ==> e.settings() == b.settings() && e.input() is None && e.written() == Seq::<u8>::empty(),
{
    let settings = b.settings;
    b.builder.build().map(|encoder| LameEncoder { encoder, settings, input: Ghost(None), written: Ghost(Seq::empty()) })
}

/// `Encoder::encode_to_vec` with the mono samples `pcm`, whose count LAME takes as a C
/// `int` (so it is at most `i32::MAX`), into a buffer reserved with
/// `max_required_buffer_size` (LAME refuses, rather than overruns, a buffer that is too
/// small). Gives the bytes written; the encoder records what it was fed.
#[verifier::external_body]
pub(crate) fn encode_mono(e: &mut LameEncoder, pcm: &[i16]) -> (r: Result<Vec<u8>, EncodeError>)
    requires
        old(e).input() is None,
        pcm@.len() <= isize::MAX / 2,
        pcm@.len() <= i32::MAX,
    ensures
        final(e).settings() == old(e).settings(),
        r matches Ok(v) ==> final(e).input() == Some((pcm@, None::<Seq<i16>>)) && final(e).written() == v@,
{
    let mut out = Vec::with_capacity(mp3lame_encoder::max_required_buffer_size(pcm.len()));
    e.encoder.encode_to_vec(MonoPcm(pcm), &mut out).map(|_| out)
}

/// `Encoder::encode_to_vec` with the two channels `left` and `right`, which must be of
/// one length (`DualPcm` asserts it) that LAME takes as a C `int`, into a buffer reserved
/// as for `encode_mono`.
#[verifier::external_body]
pub(crate) fn encode_dual(e: &mut LameEncoder, left: &[i16], right: &[i16]) -> (r: Result<Vec<u8>, EncodeError>)
    requires
        old(e).input() is None,
        left@.len() == right@.len(),
        left@.len() <= isize::MAX / 2,
        left@.len() <= i32::MAX,
    ensures
        final(e).settings() == old(e).settings(),
        r matches Ok(v) ==> final(e).input() == Some((left@, Some(right@))) && final(e).written() == v@,
{
    let mut out = Vec::with_capacity(mp3lame_encoder::max_required_buffer_size(left.len()));
    e.encoder.encode_to_vec(DualPcm { left, right }, &mut out).map(|_| out)
}

/// `Encoder::flush_to_vec::<FlushNoGap>` into a buffer of the 7200 bytes that the crate
/// documents as enough for the final frames. With the bytes of the encoding call before
/// it, they make a stream that LAME writes for the settings and samples (`lame_writes`).
#[verifier::external_body]
pub(crate) fn flush_no_gap(e: &mut LameEncoder) -> (r: Result<Vec<u8>, EncodeError>)
    requires
        old(e).input() is Some,
    ensures
        r matches Ok(v) ==> lame_writes(
            old(e).settings().channels,
            old(e).settings().sample_rate,
            old(e).settings().bitrate,
            old(e).settings().quality,
            old(e).input().unwrap().0,
            old(e).input().unwrap().1,
            old(e).written() + v@,
        ),
{
    let mut out = Vec::with_capacity(7200);
    e.encoder.flush_to_vec::<FlushNoGap>(&mut out).map(|_| out)
}

} // verus!
