//! The error and exit-code taxonomy: every distinguishable failure maps
//! to a stable small integer exit code, and the two success-adjacent
//! outcomes have codes of their own.

use vstd::prelude::*;

verus! {

/// The failure kinds reported by the external demux/mux engine, as far
/// as the orchestrator distinguishes them. The engine's own payloads
/// (conflicting values, wrapped causes) only feed its diagnostics and
/// are not modelled here.
#[derive(Clone, Copy, PartialEq, Eq, Structural, Debug)]
pub enum EngineError {
    /// The engine could not demux a clip.
    Demux,
    /// The engine could not set a colour/track attribute.
    SetColor,
    /// The engine could not set codec private data.
    SetPrivateData,
    /// The engine could not add a frame to the output.
    AddFrame,
    /// The engine could not finalize (mux) the output.
    Finalize,
    /// No input files were found.
    NoFiles,
    /// The channel count changes across clips.
    ChannelChanges,
    /// The sample rate changes across clips.
    SampleRateChanges,
    /// The video resolution changes across clips.
    VideoResolutionChanges,
    /// A keyframe could not be recognized or used.
    UnknownKeyframe,
    /// Duration metadata is missing from a clip.
    MissingDuration,
    /// A generic I/O failure.
    Io,
}

/// A required environment variable was unset, or was set but not
/// representable as text.
#[derive(Clone, Copy, PartialEq, Eq, Structural, Debug)]
pub enum EnvVarError {
    NotPresent,
    NotUnicode,
}

/// Exit statuses that mean something went wrong: either the external
/// engine failed, or default-path resolution could not read its
/// environment variable.
#[derive(Clone, Copy, PartialEq, Eq, Structural, Debug)]
pub enum ErrorStatus {
    CWCat(EngineError),
    VarError(EnvVarError),
}

/// Normal exit statuses.
#[derive(Debug, PartialEq, Eq)]
pub enum ExitStatus {
    /// Nothing went wrong.
    OK,
    /// The output file exists and force is not enabled; carries the
    /// refused output path. A distinct, non-fatal outcome: nothing was
    /// done, but nothing went wrong either.
    WontForce(String),
}

/// The exit code of each error kind. This mapping is part of the tool's
/// external contract and must stay stable for scripting consumers.
pub open spec fn error_code(e: ErrorStatus) -> i32 {
    match e {
        ErrorStatus::CWCat(EngineError::Demux) => 3,
        ErrorStatus::CWCat(EngineError::SetColor) => 4,
        ErrorStatus::CWCat(EngineError::SetPrivateData) => 5,
        ErrorStatus::CWCat(EngineError::AddFrame) => 6,
        ErrorStatus::CWCat(EngineError::Finalize) => 7,
        ErrorStatus::CWCat(EngineError::NoFiles) => 8,
        ErrorStatus::CWCat(EngineError::ChannelChanges) => 9,
        ErrorStatus::CWCat(EngineError::SampleRateChanges) => 10,
        ErrorStatus::CWCat(EngineError::VideoResolutionChanges) => 11,
        ErrorStatus::CWCat(EngineError::UnknownKeyframe) => 12,
        ErrorStatus::CWCat(EngineError::MissingDuration) => 13,
        ErrorStatus::CWCat(EngineError::Io) => 1,
        ErrorStatus::VarError(EnvVarError::NotPresent) => 32,
        ErrorStatus::VarError(EnvVarError::NotUnicode) => 33,
    }
}

impl ErrorStatus {
    /// Return an exit code from this ErrorStatus.
    pub fn to_code(&self) -> (c: i32)
        ensures
            c == error_code(*self),
    {
        match self {
            ErrorStatus::CWCat(EngineError::Demux) => 3,
            ErrorStatus::CWCat(EngineError::SetColor) => 4,
            ErrorStatus::CWCat(EngineError::SetPrivateData) => 5,
            ErrorStatus::CWCat(EngineError::AddFrame) => 6,
            ErrorStatus::CWCat(EngineError::Finalize) => 7,
            ErrorStatus::CWCat(EngineError::NoFiles) => 8,
            ErrorStatus::CWCat(EngineError::ChannelChanges) => 9,
            ErrorStatus::CWCat(EngineError::SampleRateChanges) => 10,
            ErrorStatus::CWCat(EngineError::VideoResolutionChanges) => 11,
            ErrorStatus::CWCat(EngineError::UnknownKeyframe) => 12,
            ErrorStatus::CWCat(EngineError::MissingDuration) => 13,
            ErrorStatus::CWCat(EngineError::Io) => 1,
            ErrorStatus::VarError(EnvVarError::NotPresent) => 32,
            ErrorStatus::VarError(EnvVarError::NotUnicode) => 33,
        }
    }
}

/// The exit code of a finished invocation: success exits 0, a refused
/// overwrite exits 2, and every error exits with its own code.
pub fn exit_code(outcome: &Result<ExitStatus, ErrorStatus>) -> (c: i32)
    ensures
        match outcome {
            Ok(ExitStatus::OK) => c == 0,
            Ok(ExitStatus::WontForce(_)) => c == 2,
            Err(e) => c == error_code(*e),
        },
{
    match outcome {
        Ok(ExitStatus::OK) => 0,
        Ok(ExitStatus::WontForce(_)) => 2,
        Err(e) => e.to_code(),
    }
}

} // verus!
