//! An opened, decodable audio session and its trusted decode adapters.
//!
//! A `FileHandle` owns one decode session: a container reader and a decoder,
//! both trait objects of the external decode library (symphonia), held in an
//! opaque backend that Verus never looks into. The adapters below copy each
//! decoded block out of the backend as plain per-channel sample vectors, so
//! that everything downstream of the decoder runs in verified code.

use vstd::prelude::*;

use crate::samples::{RawBlock, SampleS24, SampleU24};

verus! {

use crate::samples::uniform_rows;

/// The decode session owned by the external decode library: a container
/// reader and a decoder, both trait objects. The struct is opaque to Verus
/// (trait objects of an external library cannot be declared to it); every
/// use goes through the trusted adapters in this module.
#[verifier::external_body]
pub struct DecodeBackend {
    reader: Box<dyn symphonia::core::formats::FormatReader>,
    decoder: Box<dyn symphonia::core::codecs::audio::AudioDecoder>,
}

/// What one decode step did.
pub enum DecodeStep {
    /// A packet was read and decoded; the block is readable from the session.
    Decoded,
    /// A packet was read but did not decode; the next packet may.
    Corrupt,
    /// No further packet can be read: end of stream or a fatal read error.
    End,
}

/// The runtime tag of the most recently decoded block.
pub enum SampleTag {
    U8,
    U16,
    U24,
    U32,
    S8,
    S16,
    S24,
    S32,
    F32,
    F64,
}

/// A probed container: the format reader symphonia's probe constructed
/// over a byte source. Opaque for the same reason as `DecodeBackend`.
#[verifier::external_body]
pub struct ProbedReader {
    reader: Box<dyn symphonia::core::formats::FormatReader>,
}

/// Whether the decode library opens the given bytes: the probe finds a
/// container format, it holds a default audio track, the codec registry
/// holds a decoder for that track's codec, and the codec declares a sample
/// rate and a channel layout. For a fixed build of the decode library this
/// chain reads nothing but the bytes, so its outcome is a function of them.
pub uninterp spec fn session_ok(data: Seq<u8>) -> bool;

/// The sample rate the codec declares for the given bytes' default audio
/// track, where `session_ok` holds of them.
pub uninterp spec fn session_rate(data: Seq<u8>) -> u32;

/// The channel count the codec declares for the given bytes' default audio
/// track, where `session_ok` holds of them.
pub uninterp spec fn session_chans(data: Seq<u8>) -> usize;

/// A probed container paired with the very bytes it was probed from. Only
/// `probe_bytes` constructs one, so the reader inside is always the one the
/// probe built over the bytes alongside it.
pub struct ProbedSource {
    data: Vec<u8>,
    probed: ProbedReader,
}

/// Relies on symphonia's probe: searches the given bytes for a container
/// format and constructs its reader, handing it back together with the
/// bytes. A failed probe means the decode library cannot open these bytes
/// at all, so no session exists for them.
#[verifier::external_body]
fn probe_bytes(data: Vec<u8>) -> (r: Result<ProbedSource, ()>)
    ensures
        r is Err ==> !session_ok(data@),
        r matches Ok(s) ==> s.data@ == data@,
{
    let source = Box::new(std::io::Cursor::new(data.clone()));
    let mss = symphonia::core::io::MediaSourceStream::new(source, Default::default());
    let hint = symphonia::core::formats::probe::Hint::new();
    match symphonia::default::get_probe().probe(&hint, mss, Default::default(), Default::default()) {
        Ok(reader) => Ok(ProbedSource { data, probed: ProbedReader { reader } }),
        Err(_) => Err(()),
    }
}

/// Relies on FormatReader::default_track, symphonia's codec registry, and
/// the codec's declared parameters: picks the probed container's default
/// audio track, constructs a decoder for it, and reads the declared sample
/// rate and channel count. Together with `probe_bytes` this pins the
/// session names down: a `ProbedSource` exists only through `probe_bytes`,
/// so the reader here is the one probed from the bytes the contract speaks
/// of, and the whole chain is deterministic in them.
#[verifier::external_body]
fn make_decoder(probed: ProbedSource) -> (r: Result<(DecodeBackend, u32, usize), ()>)
    ensures
        (r is Ok) == session_ok(probed.data@),
        r matches Ok(t) ==> t.1 == session_rate(probed.data@) && t.2 == session_chans(
            probed.data@,
        ),
{
    let reader = probed.probed.reader;
    let track = reader.default_track(symphonia::core::formats::TrackType::Audio).ok_or(())?;
    let p = match &track.codec_params {
        Some(symphonia::core::codecs::CodecParameters::Audio(p)) => p,
        _ => return Err(()),
    };
    let rate = p.sample_rate.ok_or(())?;
    let chans = p.channels.as_ref().ok_or(())?.count();
    let decoder = (symphonia::default::get_codecs().get_audio_decoder(p.codec).ok_or(())?.factory)(p, &Default::default()).map_err(|_| ())?;
    Ok((DecodeBackend { reader, decoder }, rate, chans))
}

/// Relies on FormatReader::next_packet and AudioDecoder::decode: reads the
/// next packet and decodes it; on success the decoded block is retained by
/// the decoder and readable through `last_decoded`.
#[verifier::external_body]
fn advance_backend(b: &mut DecodeBackend) -> (r: DecodeStep) {
    let packet = match b.reader.next_packet() {
        Ok(Some(p)) => p,
        Ok(None) => return DecodeStep::End,
        Err(_) => return DecodeStep::End,
    };
    match b.decoder.decode(&packet) {
        Ok(_) => DecodeStep::Decoded,
        Err(_) => DecodeStep::Corrupt,
    }
}

/// Relies on AudioDecoder::last_decoded: the sample-format tag of the most
/// recently decoded block.
#[verifier::external_body]
fn last_tag(b: &DecodeBackend) -> (t: SampleTag) {
    match b.decoder.last_decoded() {
        symphonia::core::audio::GenericAudioBufferRef::U8(_) => SampleTag::U8,
        symphonia::core::audio::GenericAudioBufferRef::U16(_) => SampleTag::U16,
        symphonia::core::audio::GenericAudioBufferRef::U24(_) => SampleTag::U24,
        symphonia::core::audio::GenericAudioBufferRef::U32(_) => SampleTag::U32,
        symphonia::core::audio::GenericAudioBufferRef::S8(_) => SampleTag::S8,
        symphonia::core::audio::GenericAudioBufferRef::S16(_) => SampleTag::S16,
        symphonia::core::audio::GenericAudioBufferRef::S24(_) => SampleTag::S24,
        symphonia::core::audio::GenericAudioBufferRef::S32(_) => SampleTag::S32,
        symphonia::core::audio::GenericAudioBufferRef::F32(_) => SampleTag::F32,
        symphonia::core::audio::GenericAudioBufferRef::F64(_) => SampleTag::F64,
    }
}

/// Relies on Audio::iter_planes on the last decoded block: one slice per
/// channel, all of the same length (the block's frame count).
#[verifier::external_body]
fn last_chans_u8(b: &DecodeBackend) -> (r: Vec<Vec<u8>>)
    ensures
        uniform_rows(r@),
{
    match b.decoder.last_decoded() {
        symphonia::core::audio::GenericAudioBufferRef::U8(buf) => symphonia::core::audio::Audio::iter_planes(buf).map(|p| p.to_vec()).collect(),
        _ => Vec::new(),
    }
}

/// Relies on Audio::iter_planes on the last decoded block: one slice per
/// channel, all of the same length (the block's frame count).
#[verifier::external_body]
fn last_chans_u16(b: &DecodeBackend) -> (r: Vec<Vec<u16>>)
    ensures
        uniform_rows(r@),
{
    match b.decoder.last_decoded() {
        symphonia::core::audio::GenericAudioBufferRef::U16(buf) => symphonia::core::audio::Audio::iter_planes(buf).map(|p| p.to_vec()).collect(),
        _ => Vec::new(),
    }
}

/// Relies on Audio::iter_planes on the last decoded block: one slice per
/// channel, all of the same length; each 24-bit sample's 32-bit storage is
/// carried over unchanged.
#[verifier::external_body]
fn last_chans_u24(b: &DecodeBackend) -> (r: Vec<Vec<SampleU24>>)
    ensures
        uniform_rows(r@),
{
    match b.decoder.last_decoded() {
        symphonia::core::audio::GenericAudioBufferRef::U24(buf) => symphonia::core::audio::Audio::iter_planes(buf)
            .map(|p| p.iter().map(|s| SampleU24(s.0)).collect())
            .collect(),
        _ => Vec::new(),
    }
}

/// Relies on Audio::iter_planes on the last decoded block: one slice per
/// channel, all of the same length (the block's frame count).
#[verifier::external_body]
fn last_chans_u32(b: &DecodeBackend) -> (r: Vec<Vec<u32>>)
    ensures
        uniform_rows(r@),
{
    match b.decoder.last_decoded() {
        symphonia::core::audio::GenericAudioBufferRef::U32(buf) => symphonia::core::audio::Audio::iter_planes(buf).map(|p| p.to_vec()).collect(),
        _ => Vec::new(),
    }
}

/// Relies on Audio::iter_planes on the last decoded block: one slice per
/// channel, all of the same length (the block's frame count).
#[verifier::external_body]
fn last_chans_s8(b: &DecodeBackend) -> (r: Vec<Vec<i8>>)
    ensures
        uniform_rows(r@),
{
    match b.decoder.last_decoded() {
        symphonia::core::audio::GenericAudioBufferRef::S8(buf) => symphonia::core::audio::Audio::iter_planes(buf).map(|p| p.to_vec()).collect(),
        _ => Vec::new(),
    }
}

/// Relies on Audio::iter_planes on the last decoded block: one slice per
/// channel, all of the same length (the block's frame count).
#[verifier::external_body]
fn last_chans_s16(b: &DecodeBackend) -> (r: Vec<Vec<i16>>)
    ensures
        uniform_rows(r@),
{
    match b.decoder.last_decoded() {
        symphonia::core::audio::GenericAudioBufferRef::S16(buf) => symphonia::core::audio::Audio::iter_planes(buf).map(|p| p.to_vec()).collect(),
        _ => Vec::new(),
    }
}

/// Relies on Audio::iter_planes on the last decoded block: one slice per
/// channel, all of the same length; each 24-bit sample's 32-bit storage is
/// carried over unchanged.
#[verifier::external_body]
fn last_chans_s24(b: &DecodeBackend) -> (r: Vec<Vec<SampleS24>>)
    ensures
        uniform_rows(r@),
{
    match b.decoder.last_decoded() {
        symphonia::core::audio::GenericAudioBufferRef::S24(buf) => symphonia::core::audio::Audio::iter_planes(buf)
            .map(|p| p.iter().map(|s| SampleS24(s.0)).collect())
            .collect(),
        _ => Vec::new(),
    }
}

/// Relies on Audio::iter_planes on the last decoded block: one slice per
/// channel, all of the same length (the block's frame count).
#[verifier::external_body]
fn last_chans_s32(b: &DecodeBackend) -> (r: Vec<Vec<i32>>)
    ensures
        uniform_rows(r@),
{
    match b.decoder.last_decoded() {
        symphonia::core::audio::GenericAudioBufferRef::S32(buf) => symphonia::core::audio::Audio::iter_planes(buf).map(|p| p.to_vec()).collect(),
        _ => Vec::new(),
    }
}

/// Relies on Audio::iter_planes and symphonia's FromSample conversion of
/// single-precision float samples to full-scale 32-bit integers: one
/// converted vector per channel, all of the same length.
#[verifier::external_body]
fn last_chans_f32(b: &DecodeBackend) -> (r: Vec<Vec<i32>>)
    ensures
        uniform_rows(r@),
{
    match b.decoder.last_decoded() {
        symphonia::core::audio::GenericAudioBufferRef::F32(buf) => symphonia::core::audio::Audio::iter_planes(buf)
            .map(|p| p.iter().map(|&s| symphonia::core::audio::conv::IntoSample::into_sample(s)).collect())
            .collect(),
        _ => Vec::new(),
    }
}

/// Relies on Audio::iter_planes and symphonia's FromSample conversion of
/// double-precision float samples to full-scale 32-bit integers: one
/// converted vector per channel, all of the same length.
#[verifier::external_body]
fn last_chans_f64(b: &DecodeBackend) -> (r: Vec<Vec<i32>>)
    ensures
        uniform_rows(r@),
{
    match b.decoder.last_decoded() {
        symphonia::core::audio::GenericAudioBufferRef::F64(buf) => symphonia::core::audio::Audio::iter_planes(buf)
            .map(|p| p.iter().map(|&s| symphonia::core::audio::conv::IntoSample::into_sample(s)).collect())
            .collect(),
        _ => Vec::new(),
    }
}

/// One opened decodable audio session: the stream parameters the codec
/// declares, and the decode cursor state owned by the external decode
/// library.
pub struct FileHandle {
    /// The source stream's sample rate in Hz.
    pub sample_rate: u32,
    /// The number of audio channels in the source stream.
    pub channel_count: usize,
    /// The decode cursor state owned by the external decode library.
    pub backend: DecodeBackend,
}

impl FileHandle {
    /// Open a decodable audio session over the given encoded bytes: probe
    /// the container, pick the default audio track, and construct its
    /// decoder. Succeeds exactly when the decode library opens these
    /// bytes, and the session then carries exactly the sample rate and
    /// channel count the codec declares for them; it fails exactly when
    /// they are not decodable audio or the codec declares no rate or
    /// channel layout.
    pub fn new(data: Vec<u8>) -> (r: Result<FileHandle, ()>)
        ensures
            (r is Ok) == session_ok(data@),
            r matches Ok(h) ==> h.sample_rate == session_rate(data@) && h.channel_count
                == session_chans(data@),
    {
        let probed = match probe_bytes(data) {
            Ok(p) => p,
            Err(()) => {
                return Err(());
            },
        };
        match make_decoder(probed) {
            Ok((backend, sample_rate, channel_count)) => Ok(
                FileHandle { sample_rate, channel_count, backend },
            ),
            Err(()) => Err(()),
        }
    }

    /// Read and decode the next packet. The stream parameters are untouched;
    /// only the decode cursor moves.
    pub fn advance(&mut self) -> (r: DecodeStep)
        ensures
            final(self).sample_rate == old(self).sample_rate,
            final(self).channel_count == old(self).channel_count,
    {
        advance_backend(&mut self.backend)
    }

    /// Copy the most recently decoded block out of the decoder as plain
    /// per-channel sample vectors, tagged with their encoding.
    pub fn last_block(&self) -> (r: RawBlock)
        ensures
            r.wf(),
    {
        match last_tag(&self.backend) {
            SampleTag::U8 => RawBlock::U8(last_chans_u8(&self.backend)),
            SampleTag::U16 => RawBlock::U16(last_chans_u16(&self.backend)),
            SampleTag::U24 => RawBlock::U24(last_chans_u24(&self.backend)),
            SampleTag::U32 => RawBlock::U32(last_chans_u32(&self.backend)),
            SampleTag::S8 => RawBlock::S8(last_chans_s8(&self.backend)),
            SampleTag::S16 => RawBlock::S16(last_chans_s16(&self.backend)),
            SampleTag::S24 => RawBlock::S24(last_chans_s24(&self.backend)),
            SampleTag::S32 => RawBlock::S32(last_chans_s32(&self.backend)),
            SampleTag::F32 => RawBlock::F32(last_chans_f32(&self.backend)),
            SampleTag::F64 => RawBlock::F64(last_chans_f64(&self.backend)),
        }
    }
}

} // verus!
