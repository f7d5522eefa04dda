//! The typed failures that the stages of the service report.

use vstd::prelude::*;

verus! {

/// Why a provisioning or transcription request failed.
#[derive(Clone, Copy, Debug, PartialEq, Eq, Structural)]
pub enum ServiceError {
    /// The logical model name is not in the model table.
    UnknownModel,
    /// The artifact could not be fetched or stored.
    DownloadFailed,
    /// The artifact is present but the engine could not load it.
    ModelLoadError,
    /// The audio container or codec was not recognised.
    UnsupportedFormat,
    /// The audio was recognised but could not be decoded to samples.
    DecodeError,
    /// The engine failed to run, or handed back malformed segments.
    InferenceError,
}

} // verus!
