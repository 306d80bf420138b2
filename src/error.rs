use vstd::prelude::*;

verus! {

/// The errors that the operations on a context report.
#[derive(Debug, Clone, Copy, PartialEq, Eq, Structural)]
pub enum WhisperError {
    /// The engine could not load the model.
    InitError,
    /// A thread or partition count below one.
    InvalidThreadCount,
    /// No spectrogram has been computed or set yet.
    SpectrogramNotInitialized,
    /// The encoder has not run yet.
    EncodeNotComplete,
    /// The engine failed to compute the spectrogram.
    UnableToCalculateSpectrogram,
    /// The engine failed to evaluate the encoder or the decoder.
    UnableToCalculateEvaluation,
    /// The full pipeline failed in its encoder.
    FailedToEncode,
    /// The full pipeline failed in its decoder.
    FailedToDecode,
    /// The spectrogram does not have the number of mel bands the model expects.
    InvalidMelBands,
    /// The text could not be turned into tokens.
    InvalidText,
    /// The engine returned no buffer where one was expected.
    NullPointer,
    /// The engine returned text that is not valid UTF-8.
    InvalidUtf8,
    /// Any other failure status of the engine, with its raw code.
    GenericError(i32),
}

} // verus!
