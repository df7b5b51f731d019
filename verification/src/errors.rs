//! Error taxonomy of the pipeline. Every failure is fatal to the current
//! run: none is retried or downgraded, since partial audio handed to a
//! recognizer silently yields a misleading transcription.

use vstd::prelude::*;

verus! {

/// One of the pipeline's failure modes. Each carries no payload: the stage
/// it names is the context a caller needs to diagnose the run.
#[derive(Clone, Copy, Debug, PartialEq, Eq, Structural)]
pub enum PipelineError {
    /// The container format of the byte source was not recognized.
    FormatError,
    /// The container holds no audio track.
    NoAudioTrackError,
    /// The selected track's native sample rate cannot be determined.
    UnknownSampleRateError,
    /// A read from the byte source failed other than by clean end of stream.
    IoError,
    /// A packet's compressed payload is malformed.
    DecodeError,
    /// The resampling filter cannot be constructed for the rate pair.
    ResamplerInitError,
    /// A block failed to pass through the resampling filter.
    ResamplerProcessError,
    /// The whole input decoded to zero samples.
    EmptyAudioError,
}

impl PipelineError {
    /// A short, stable description of the failed stage, for diagnostics.
    pub fn message(&self) -> (r: &'static str)
        ensures
            r@ == self.message_spec(),
    {
        match self {
            PipelineError::FormatError => "container format not recognized",
            PipelineError::NoAudioTrackError => "no audio track in container",
            PipelineError::UnknownSampleRateError => "sample rate of track unknown",
            PipelineError::IoError => "read failure before end of stream",
            PipelineError::DecodeError => "malformed compressed packet",
            PipelineError::ResamplerInitError => "resampling filter rejected the rate pair",
            PipelineError::ResamplerProcessError => "resampling filter failed on a block",
            PipelineError::EmptyAudioError => "input decoded to zero samples",
        }
    }

    pub open spec fn message_spec(&self) -> Seq<char> {
        match self {
            PipelineError::FormatError => "container format not recognized"@,
            PipelineError::NoAudioTrackError => "no audio track in container"@,
            PipelineError::UnknownSampleRateError => "sample rate of track unknown"@,
            PipelineError::IoError => "read failure before end of stream"@,
            PipelineError::DecodeError => "malformed compressed packet"@,
            PipelineError::ResamplerInitError => "resampling filter rejected the rate pair"@,
            PipelineError::ResamplerProcessError => "resampling filter failed on a block"@,
            PipelineError::EmptyAudioError => "input decoded to zero samples"@,
        }
    }
}

/// Classifies the end of packet iteration: a clean end of the byte source
/// terminates iteration successfully, while any other read fault surfaces
/// as an `IoError`.
pub fn classify_stream_end(clean: bool) -> (r: Result<(), PipelineError>)
    ensures
        clean <==> r is Ok,
        !clean ==> r == Result::<(), PipelineError>::Err(PipelineError::IoError),
{
    if clean {
        Ok(())
    } else {
        Err(PipelineError::IoError)
    }
}

} // verus!
