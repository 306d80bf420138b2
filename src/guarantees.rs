//! What holds of every context, over the refusal and stage functions that the
//! operations' contracts are stated with.
use vstd::prelude::*;
use crate::context::{
    decode_refusal, encode_refusal, featurize_refusal, full_refusal, lang_detect_refusal,
    logits_refusal, partition_refusal,
};
use crate::error::WhisperError;
use crate::marshal::{lang_detection, LangDetection};
use crate::stage::PipelineStage;
use crate::status::STATUS_FAILED;

verus! {

/// A thread count (or partition count) of zero or less is refused with
/// `InvalidThreadCount` by every operation that takes one, once the stage
/// that the operation needs has been reached, whatever its other arguments.
/// Every operation asks its engine closure to be callable only where its
/// refusal is `None`, so a refused operation cannot call the engine.
pub proof fn no_threads_refused(
    stage: PipelineStage,
    threads: int,
    n_samples: int,
    offset: int,
    n_tokens: int,
    n_past: int,
)
    requires
        threads <= 0,
    ensures
        featurize_refusal(n_samples, threads) == Some(WhisperError::InvalidThreadCount),
        partition_refusal(n_samples, threads) == Some(WhisperError::InvalidThreadCount),
        stage.reached(PipelineStage::SpectrogramReady) ==> encode_refusal(stage, offset, threads)
            == Some(WhisperError::InvalidThreadCount),
        stage.reached(PipelineStage::SpectrogramReady) ==> lang_detect_refusal(
            stage,
            offset,
            threads,
        ) == Some(WhisperError::InvalidThreadCount),
        stage.reached(PipelineStage::Encoded) ==> decode_refusal(stage, n_tokens, n_past, threads)
            == Some(WhisperError::InvalidThreadCount),
{
}

/// Before any spectrogram has been computed or set, encoding is refused with
/// `SpectrogramNotInitialized`, whatever the offset and thread count; so are
/// language detection and reading the logits. Refused, none of them calls
/// the engine.
pub proof fn encode_refused_before_spectrogram(stage: PipelineStage, offset: int, threads: int)
    requires
        !stage.reached(PipelineStage::SpectrogramReady),
    ensures
        encode_refusal(stage, offset, threads) == Some(WhisperError::SpectrogramNotInitialized),
        lang_detect_refusal(stage, offset, threads) == Some(
            WhisperError::SpectrogramNotInitialized,
        ),
        logits_refusal(stage) == Some(WhisperError::SpectrogramNotInitialized),
{
}

/// Before the encoder has run, decoding is refused with `EncodeNotComplete`,
/// whatever the tokens, the past count and the thread count, and the engine
/// is not called.
pub proof fn decode_refused_before_encode(
    stage: PipelineStage,
    n_tokens: int,
    n_past: int,
    threads: int,
)
    requires
        !stage.reached(PipelineStage::Encoded),
    ensures
        decode_refusal(stage, n_tokens, n_past, threads) == Some(WhisperError::EncodeNotComplete),
{
}

/// Language detection hands out probabilities only in a vector with exactly
/// one entry per language; any other length the engine reports is a length
/// mismatch, never a result.
pub proof fn detected_probabilities_cover_every_language<T>(
    status: i32,
    probs: Vec<T>,
    n_langs: usize,
)
    ensures
        lang_detection(status, probs, n_langs as int) matches LangDetection::Probabilities(v)
            ==> v@.len() == n_langs,
        status != STATUS_FAILED && (status as int != n_langs || probs@.len() != n_langs) ==> lang_detection(
            status,
            probs,
            n_langs as int,
        ) == (LangDetection::<T>::LengthMismatch { expected: n_langs, reported: status }),
{
}

/// A parallel run over a single partition is refused only when a plain full
/// run on the same samples is, and with the same error.
pub proof fn single_partition_accepted(n_samples: int)
    ensures
        partition_refusal(n_samples, 1) == full_refusal(n_samples),
{
}

} // verus!
