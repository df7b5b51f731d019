//! Container probing, packet iteration and frame decoding, built on
//! symphonia's ISO MP4 demuxer and AAC decoder. Each call into symphonia
//! stands behind a small trusted wrapper; everything around the calls — the
//! track selection rules, the per-track packet filter, the downmix
//! accumulation and the non-empty structural invariant — is verified.

use vstd::prelude::*;

use symphonia_core::codecs::Decoder;
use symphonia_core::formats::FormatReader;

use crate::downmix::Downmixer;
use crate::errors::{classify_stream_end, PipelineError};

verus! {

#[verifier::external_type_specification]
#[verifier::external_body]
pub struct ExMediaSourceStream(symphonia_core::io::MediaSourceStream);

#[verifier::external_type_specification]
#[verifier::external_body]
pub struct ExIsoMp4Reader(symphonia_format_isomp4::IsoMp4Reader);

#[verifier::external_type_specification]
#[verifier::external_body]
pub struct ExPacket(symphonia_core::formats::Packet);

#[verifier::external_type_specification]
#[verifier::external_body]
pub struct ExAacDecoder(symphonia_codec_aac::AacDecoder);

#[verifier::external_type_specification]
#[verifier::external_body]
pub struct ExCodecParameters(symphonia_core::codecs::CodecParameters);

#[verifier::external_type_specification]
#[verifier::external_body]
pub struct ExSymphoniaError(symphonia_core::errors::Error);

/// What one attempt to pull a packet from the container yielded.
enum PacketRead {
    /// The next packet, in file order.
    Next(symphonia_core::formats::Packet),
    /// The byte source ended cleanly: iteration is complete, no error.
    CleanEnd,
    /// The byte source failed before its end.
    Fault,
}

/// Relies on `IsoMp4Reader::try_new` (symphonia's ISO MP4 demuxer): it
/// probes the byte source and fails if the source is not a supported MP4
/// container.
#[verifier::external_body]
fn open_container(source: symphonia_core::io::MediaSourceStream) -> (r: Result<
    symphonia_format_isomp4::IsoMp4Reader,
    symphonia_core::errors::Error,
>) {
    symphonia_format_isomp4::IsoMp4Reader::try_new(
        source,
        &symphonia_core::formats::FormatOptions::default(),
    )
}

/// Relies on `FormatReader::default_track`: the container's default track,
/// or its first if no default is flagged, or `None` when it holds no track
/// at all. The track's identifier, declared sample rate and codec
/// parameters come back as plain values.
#[verifier::external_body]
fn default_track_of(reader: &symphonia_format_isomp4::IsoMp4Reader) -> (r: Option<
    (u32, Option<u32>, symphonia_core::codecs::CodecParameters),
>) {
    match reader.default_track() {
        Some(t) => Some((t.id, t.codec_params.sample_rate, t.codec_params.clone())),
        None => None,
    }
}

/// Relies on `AacDecoder::try_new`: an AAC decoder for the track's codec
/// parameters, or an error when the parameters describe a stream it cannot
/// decode.
#[verifier::external_body]
fn new_decoder(params: &symphonia_core::codecs::CodecParameters) -> (r: Result<
    symphonia_codec_aac::AacDecoder,
    symphonia_core::errors::Error,
>) {
    symphonia_codec_aac::AacDecoder::try_new(
        params,
        &symphonia_core::codecs::DecoderOptions::default(),
    )
}

/// Relies on `FormatReader::next_packet`: packets come back in file order;
/// symphonia signals a clean end of the stream as an I/O error of kind
/// `UnexpectedEof`, which is told apart here from every other failure.
#[verifier::external_body]
fn read_packet(reader: &mut symphonia_format_isomp4::IsoMp4Reader) -> (r: PacketRead) {
    match reader.next_packet() {
        Ok(p) => PacketRead::Next(p),
        Err(symphonia_core::errors::Error::IoError(e)) if e.kind()
            == std::io::ErrorKind::UnexpectedEof => PacketRead::CleanEnd,
        Err(_) => PacketRead::Fault,
    }
}

/// Relies on `Packet::track_id`: the identifier of the track the packet
/// belongs to.
#[verifier::external_body]
fn packet_track(p: &symphonia_core::formats::Packet) -> (r: u32) {
    p.track_id()
}

/// Relies on `AacDecoder::decode` and `SampleBuffer::copy_interleaved_ref`:
/// one compressed packet becomes one frame of interleaved signed 32-bit
/// samples in the track's native channel layout, whatever the decoder's
/// internal sample format; the channel count is read off the decoded
/// buffer's signal spec.
#[verifier::external_body]
fn decode_packet(
    dec: &mut symphonia_codec_aac::AacDecoder,
    p: &symphonia_core::formats::Packet,
) -> (r: Result<(Vec<i32>, usize), symphonia_core::errors::Error>) {
    let decoded = dec.decode(p)?;
    let spec = *decoded.spec();
    let channels = spec.channels.count();
    let mut buf = symphonia_core::audio::SampleBuffer::<i32>::new(decoded.capacity() as u64, spec);
    buf.copy_interleaved_ref(decoded);
    Ok((buf.samples().to_vec(), channels))
}

/// The audio track chosen for the run: its identifier within the container
/// and its native sample rate. Created once when the container is probed
/// and immutable for the pipeline's lifetime.
pub struct TrackDescriptor {
    pub id: u32,
    pub sample_rate: u32,
}

/// Applies the track selection rules to what the demuxer reported of its
/// default track: no track at all is fatal, and so is a track whose native
/// sample rate cannot be determined.
pub fn select_track(found: Option<(u32, Option<u32>)>) -> (r: Result<
    TrackDescriptor,
    PipelineError,
>)
    ensures
        found is None <==> r == Result::<TrackDescriptor, PipelineError>::Err(
            PipelineError::NoAudioTrackError,
        ),
        (found matches Some((id, sr)) && sr is None) <==> r == Result::<
            TrackDescriptor,
            PipelineError,
        >::Err(PipelineError::UnknownSampleRateError),
        found matches Some((id, sr)) ==> (sr matches Some(rate) ==> (r matches Ok(t) && t.id == id
            && t.sample_rate == rate)),
{
    match found {
        None => Err(PipelineError::NoAudioTrackError),
        Some((id, sr)) => match sr {
            None => Err(PipelineError::UnknownSampleRateError),
            Some(rate) => Ok(TrackDescriptor { id, sample_rate: rate }),
        },
    }
}

/// Decodes every packet of the default audio track of one MP4 byte source,
/// downmixing each decoded frame to a single averaged channel, in file
/// order. Returns the accumulated native-rate mono sequence — never empty —
/// together with the track's native sample rate.
pub fn decode_to_mono(source: symphonia_core::io::MediaSourceStream) -> (r: Result<
    (Vec<i32>, u32),
    PipelineError,
>)
    ensures
        r matches Ok(out) ==> out.0@.len() > 0,
{
    let mut reader = match open_container(source) {
        Ok(rd) => rd,
        Err(_) => { return Err(PipelineError::FormatError) },
    };
    let (track, params) = match default_track_of(&reader) {
        Some((id, sr, params)) => {
            match select_track(Some((id, sr))) {
                Ok(t) => (t, params),
                Err(e) => { return Err(e) },
            }
        },
        None => { return Err(PipelineError::NoAudioTrackError) },
    };
    let mut decoder = match new_decoder(&params) {
        Ok(d) => d,
        Err(_) => { return Err(PipelineError::DecodeError) },
    };
    let mut mixer = Downmixer::new();
    // A finite byte source cannot hold anywhere near 2^64 packets, so a
    // stream still yielding packets past that bound is a faulty source.
    let mut budget: u64 = u64::MAX;
    loop
        decreases budget,
    {
        if budget == 0 {
            return Err(PipelineError::IoError);
        }
        budget = budget - 1;
        match read_packet(&mut reader) {
            PacketRead::CleanEnd => {
                match classify_stream_end(true) {
                    Ok(()) => { break },
                    Err(e) => { return Err(e) },
                }
            },
            PacketRead::Fault => {
                match classify_stream_end(false) {
                    Ok(()) => { break },
                    Err(e) => { return Err(e) },
                }
            },
            PacketRead::Next(p) => {
                if packet_track(&p) == track.id {
                    let (frame, channels) = match decode_packet(&mut decoder, &p) {
                        Ok(fc) => fc,
                        Err(_) => { return Err(PipelineError::DecodeError) },
                    };
                    match mixer.append_frame(&frame, channels) {
                        Ok(()) => {},
                        Err(e) => { return Err(e) },
                    }
                }
            },
        }
    }
    match mixer.finish() {
        Ok(mono) => Ok((mono, track.sample_rate)),
        Err(e) => Err(e),
    }
}

} // verus!
