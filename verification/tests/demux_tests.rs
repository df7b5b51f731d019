use mono16k::demux::{decode_to_mono, select_track};
use mono16k::errors::{classify_stream_end, PipelineError};

use symphonia_core::io::MediaSourceStream;

#[test]
fn unrecognized_container_is_format_error() {
    let garbage: Vec<u8> = (0..256u32).map(|i| (i * 7 + 3) as u8).collect();
    let source = MediaSourceStream::new(
        Box::new(std::io::Cursor::new(garbage)),
        Default::default(),
    );
    assert_eq!(decode_to_mono(source), Err(PipelineError::FormatError));
}

#[test]
fn empty_source_is_format_error() {
    let source = MediaSourceStream::new(
        Box::new(std::io::Cursor::new(Vec::<u8>::new())),
        Default::default(),
    );
    assert_eq!(decode_to_mono(source), Err(PipelineError::FormatError));
}

#[test]
fn no_track_is_no_audio_track_error() {
    assert_eq!(
        select_track(None).map(|t| t.id),
        Err(PipelineError::NoAudioTrackError)
    );
}

#[test]
fn missing_rate_is_unknown_sample_rate_error() {
    assert_eq!(
        select_track(Some((3, None))).map(|t| t.id),
        Err(PipelineError::UnknownSampleRateError)
    );
}

#[test]
fn default_track_with_rate_is_selected() {
    let t = select_track(Some((3, Some(44100)))).unwrap();
    assert_eq!(t.id, 3);
    assert_eq!(t.sample_rate, 44100);
}

#[test]
fn clean_end_of_stream_is_not_an_error() {
    assert!(classify_stream_end(true).is_ok());
}

#[test]
fn mid_stream_fault_is_io_error() {
    assert_eq!(classify_stream_end(false), Err(PipelineError::IoError));
}

#[test]
fn error_messages_name_the_stage() {
    assert_eq!(
        PipelineError::FormatError.message(),
        "container format not recognized"
    );
    assert_eq!(
        PipelineError::EmptyAudioError.message(),
        "input decoded to zero samples"
    );
    assert_eq!(
        PipelineError::ResamplerProcessError.message(),
        "resampling filter failed on a block"
    );
    assert_eq!(
        PipelineError::IoError.message(),
        "read failure before end of stream"
    );
}
