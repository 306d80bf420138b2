//! A loaded model, with the stage that its pipeline has reached.
use vstd::prelude::*;
use crate::error::WhisperError;
use crate::marshal::{
    logits_matrix, row_of, token_count, tokens_from_native, lang_probs_from_native,
    lang_detection, LangDetection, WhisperToken,
};
use vstd::slice::slice_to_vec;
use vstd::utf8::encode_utf8;
use crate::stage::PipelineStage;
use crate::status::{full_result, full_status, stage_result, stage_status};

verus! {

/// The number of mel bands in a spectrogram that the model takes.
pub const MEL_BANDS: usize = 80;

/// The largest count that the engine, which takes counts as C `int`s, accepts.
pub const C_INT_MAX: usize = 2147483647;

/// Whether the engine can be handed the count `n`.
pub open spec fn fits_c_int(n: int) -> bool {
    n <= C_INT_MAX
}

/// An `earlier` refusal if there is one, else `error` unless `holds`.
pub open spec fn refuse_unless(
    earlier: Option<WhisperError>,
    holds: bool,
    error: WhisperError,
) -> Option<WhisperError> {
    if earlier is Some {
        earlier
    } else if holds {
        None
    } else {
        Some(error)
    }
}

/// The refusal of an operation that needs at least one thread (or
/// partition), and no more than the engine can be told of.
pub open spec fn thread_refusal(threads: int) -> Option<WhisperError> {
    refuse_unless(None, 1 <= threads && fits_c_int(threads), WhisperError::InvalidThreadCount)
}

/// The refusal of an operation that needs the context at stage `required`
/// (else `missing`) and a valid thread count.
pub open spec fn gate_refusal(
    stage: PipelineStage,
    required: PipelineStage,
    missing: WhisperError,
    threads: int,
) -> Option<WhisperError> {
    if !stage.reached(required) {
        Some(missing)
    } else {
        thread_refusal(threads)
    }
}

/// Why loading the model at `path` is refused, if it is.
pub open spec fn load_refusal(path: Seq<char>) -> Option<WhisperError> {
    refuse_unless(None, !has_nul(path), WhisperError::InitError)
}

/// Why feature extraction of `n_samples` samples is refused, if it is.
pub open spec fn featurize_refusal(n_samples: int, threads: int) -> Option<WhisperError> {
    refuse_unless(
        thread_refusal(threads),
        fits_c_int(n_samples),
        WhisperError::UnableToCalculateSpectrogram,
    )
}

/// Why injecting a spectrogram of `n_values` values is refused, if it is: it
/// must hold whole frames of `MEL_BANDS` bands.
pub open spec fn set_mel_refusal(n_values: int) -> Option<WhisperError> {
    refuse_unless(
        None,
        n_values % (MEL_BANDS as int) == 0 && fits_c_int(n_values / (MEL_BANDS as int)),
        WhisperError::InvalidMelBands,
    )
}

/// Why encoding from frame `offset` is refused at `stage`, if it is.
pub open spec fn encode_refusal(stage: PipelineStage, offset: int, threads: int) -> Option<
    WhisperError,
> {
    refuse_unless(
        gate_refusal(
            stage,
            PipelineStage::SpectrogramReady,
            WhisperError::SpectrogramNotInitialized,
            threads,
        ),
        fits_c_int(offset),
        WhisperError::UnableToCalculateEvaluation,
    )
}

/// Why decoding `n_tokens` tokens after `n_past` is refused at `stage`, if it is.
pub open spec fn decode_refusal(
    stage: PipelineStage,
    n_tokens: int,
    n_past: int,
    threads: int,
) -> Option<WhisperError> {
    refuse_unless(
        gate_refusal(stage, PipelineStage::Encoded, WhisperError::EncodeNotComplete, threads),
        fits_c_int(n_tokens) && fits_c_int(n_past),
        WhisperError::UnableToCalculateEvaluation,
    )
}

/// Why tokenizing `text` into at most `max_tokens` tokens is refused, if it is.
pub open spec fn tokenize_refusal(text: Seq<char>, max_tokens: int) -> Option<WhisperError> {
    refuse_unless(None, !has_nul(text) && fits_c_int(max_tokens), WhisperError::InvalidText)
}

/// Why language detection at `offset_ms` is refused at `stage`, if it is.
pub open spec fn lang_detect_refusal(stage: PipelineStage, offset_ms: int, threads: int) -> Option<
    WhisperError,
> {
    refuse_unless(
        gate_refusal(
            stage,
            PipelineStage::SpectrogramReady,
            WhisperError::SpectrogramNotInitialized,
            threads,
        ),
        fits_c_int(offset_ms),
        WhisperError::UnableToCalculateEvaluation,
    )
}

/// Why reading the logits is refused at `stage`, if it is.
pub open spec fn logits_refusal(stage: PipelineStage) -> Option<WhisperError> {
    refuse_unless(
        None,
        stage.reached(PipelineStage::SpectrogramReady),
        WhisperError::SpectrogramNotInitialized,
    )
}

/// Why a full run on `n_samples` samples is refused, if it is.
pub open spec fn full_refusal(n_samples: int) -> Option<WhisperError> {
    refuse_unless(None, fits_c_int(n_samples), WhisperError::UnableToCalculateSpectrogram)
}

/// Why a parallel full run on `n_samples` samples over `n_processors`
/// partitions is refused, if it is.
pub open spec fn partition_refusal(n_samples: int, n_processors: int) -> Option<WhisperError> {
    refuse_unless(
        thread_refusal(n_processors),
        fits_c_int(n_samples),
        WhisperError::UnableToCalculateSpectrogram,
    )
}

/// The bytes of `text` as the engine reads a C string: UTF-8, then a NUL.
pub open spec fn c_string(text: Seq<char>) -> Seq<u8> {
    encode_utf8(text).push(0u8)
}

/// A count that the engine reports, with a negative one read as none.
pub open spec fn count_of(n: i32) -> nat {
    if n < 0 {
        0
    } else {
        n as nat
    }
}

/// Whether `s` holds the character that ends a C string.
pub open spec fn has_nul(s: Seq<char>) -> bool {
    s.contains('\0')
}

fn contains_nul(s: &str) -> (r: bool)
    ensures
        r == has_nul(s@),
{
    let n = s.unicode_len();
    let mut i: usize = 0;
    while i < n
        invariant
            i <= n,
            n == s@.len(),
            forall|k: int| 0 <= k < i ==> s@[k] != '\0',
        decreases n - i,
    {
        if s.get_char(i) == '\0' {
            return true;
        }
        i = i + 1;
    }
    false
}

fn valid_threads(threads: usize) -> (r: bool)
    ensures
        r == (thread_refusal(threads as int) is None),
{
    1 <= threads && threads <= C_INT_MAX
}

fn nonnegative(n: i32) -> (r: usize)
    ensures
        r == count_of(n),
{
    if n < 0 {
        0
    } else {
        n as usize
    }
}

/// One loaded model of the engine, held through `handle`, with the stage that
/// its pipeline has reached.
///
/// Every operation that runs native code takes it as a closure. Each one asks
/// its closure to be callable only where the operation is not refused, so a
/// refused operation cannot reach the engine. The handle is owned here and
/// released once, when the context is dropped.
pub struct WhisperContext<H> {
    handle: H,
    stage: PipelineStage,
}

impl<H> View for WhisperContext<H> {
    type V = PipelineStage;

    closed spec fn view(&self) -> PipelineStage {
        self.stage
    }
}

impl<H> WhisperContext<H> {
    /// The engine handle that the context owns.
    pub closed spec fn spec_handle(&self) -> H {
        self.handle
    }

    /// What a constructor returns when loading gave `h`: a fresh context
    /// that owns the handle, or `InitError` when there is none.
    pub open spec fn loaded(h: Option<H>, r: Result<Self, WhisperError>) -> bool {
        match h {
            None => r == Err::<Self, WhisperError>(WhisperError::InitError),
            Some(x) => r matches Ok(c) && c@ == PipelineStage::Fresh && c.spec_handle() == x,
        }
    }

    fn from_init<F: FnOnce() -> Option<H>>(init: F) -> (r: Result<Self, WhisperError>)
        requires
            call_requires(init, ()),
        ensures
            exists|h: Option<H>|
                #[trigger] call_ensures(init, (), h) && Self::loaded(h, r),
    {
        match init() {
            None => Err(WhisperError::InitError),
            Some(handle) => Ok(WhisperContext { handle, stage: PipelineStage::Fresh }),
        }
    }

    /// Loads a model from the file at `path`; `init` loads it and gives the
    /// handle, or `None` when the engine could not. A path that holds a NUL
    /// character cannot be handed to the engine and fails at once.
    pub fn new<F: FnOnce() -> Option<H>>(path: &str, init: F) -> (r: Result<Self, WhisperError>)
        requires
            load_refusal(path@) is None ==> call_requires(init, ()),
        ensures
            load_refusal(path@) matches Some(e) ==> r == Err::<Self, WhisperError>(e),
            load_refusal(path@) is None ==> exists|h: Option<H>|
                #[trigger] call_ensures(init, (), h) && Self::loaded(h, r),
    {
        if contains_nul(path) {
            return Err(WhisperError::InitError);
        }
        Self::from_init(init)
    }

    /// Loads a model from a buffer in memory; `init` loads it and gives the
    /// handle, or `None` when the engine could not.
    pub fn new_from_buffer<F: FnOnce() -> Option<H>>(init: F) -> (r: Result<Self, WhisperError>)
        requires
            call_requires(init, ()),
        ensures
            exists|h: Option<H>|
                #[trigger] call_ensures(init, (), h) && Self::loaded(h, r),
    {
        Self::from_init(init)
    }

    /// Computes the spectrogram of `n_samples` samples of audio with `threads`
    /// threads; `native` runs the engine on the sample count and thread count
    /// and returns its status.
    pub fn pcm_to_mel<F: FnOnce(i32, i32) -> i32>(
        &mut self,
        n_samples: usize,
        threads: usize,
        native: F,
    ) -> (r: Result<(), WhisperError>)
        requires
            featurize_refusal(n_samples as int, threads as int) is None ==> call_requires(
                native,
                (n_samples as i32, threads as i32),
            ),
        ensures
            final(self).spec_handle() == old(self).spec_handle(),
            featurize_refusal(n_samples as int, threads as int) matches Some(e) ==> r == Err::<
                (),
                WhisperError,
            >(e) && final(self)@ == old(self)@,
            featurize_refusal(n_samples as int, threads as int) is None ==> exists|status: i32|
                #[trigger] call_ensures(native, (n_samples as i32, threads as i32), status) && r
                    == stage_result(status, WhisperError::UnableToCalculateSpectrogram)
                    && final(self)@ == old(self)@.after(PipelineStage::SpectrogramReady, r is Ok),
    {
        if !valid_threads(threads) {
            return Err(WhisperError::InvalidThreadCount);
        }
        if n_samples > C_INT_MAX {
            return Err(WhisperError::UnableToCalculateSpectrogram);
        }
        let status = native(n_samples as i32, threads as i32);
        let r = stage_status(status, WhisperError::UnableToCalculateSpectrogram);
        if r.is_ok() {
            self.stage = self.stage.joined(PipelineStage::SpectrogramReady);
        }
        r
    }

    /// Sets a precomputed spectrogram of `n_values` values, `MEL_BANDS` per
    /// frame; `native` hands the engine the frame count and band count and
    /// returns its status. A length that is not made of whole frames is
    /// refused with `InvalidMelBands` before the engine is called.
    pub fn set_mel<F: FnOnce(i32, i32) -> i32>(&mut self, n_values: usize, native: F) -> (r:
        Result<(), WhisperError>)
        requires
            set_mel_refusal(n_values as int) is None ==> call_requires(
                native,
                ((n_values / MEL_BANDS) as i32, MEL_BANDS as i32),
            ),
        ensures
            final(self).spec_handle() == old(self).spec_handle(),
            set_mel_refusal(n_values as int) matches Some(e) ==> r == Err::<(), WhisperError>(e)
                && final(self)@ == old(self)@,
            set_mel_refusal(n_values as int) is None ==> exists|status: i32|
                #[trigger] call_ensures(
                    native,
                    ((n_values / MEL_BANDS) as i32, MEL_BANDS as i32),
                    status,
                ) && r == stage_result(status, WhisperError::InvalidMelBands) && final(self)@
                    == old(self)@.after(PipelineStage::SpectrogramReady, r is Ok),
    {
        if n_values % MEL_BANDS != 0 || n_values / MEL_BANDS > C_INT_MAX {
            return Err(WhisperError::InvalidMelBands);
        }
        let status = native((n_values / MEL_BANDS) as i32, MEL_BANDS as i32);
        let r = stage_status(status, WhisperError::InvalidMelBands);
        if r.is_ok() {
            self.stage = self.stage.joined(PipelineStage::SpectrogramReady);
        }
        r
    }

    /// Runs the encoder on the spectrogram from frame `offset` with `threads`
    /// threads; `native` runs it on the offset and thread count and returns
    /// its status.
    pub fn encode<F: FnOnce(i32, i32) -> i32>(
        &mut self,
        offset: usize,
        threads: usize,
        native: F,
    ) -> (r: Result<(), WhisperError>)
        requires
            encode_refusal(old(self)@, offset as int, threads as int) is None ==> call_requires(
                native,
                (offset as i32, threads as i32),
            ),
        ensures
            final(self).spec_handle() == old(self).spec_handle(),
            encode_refusal(old(self)@, offset as int, threads as int) matches Some(e) ==> r
                == Err::<(), WhisperError>(e) && final(self)@ == old(self)@,
            encode_refusal(old(self)@, offset as int, threads as int) is None ==> exists|
                status: i32,
            |
                #[trigger] call_ensures(native, (offset as i32, threads as i32), status) && r
                    == stage_result(status, WhisperError::UnableToCalculateEvaluation)
                    && final(self)@ == old(self)@.after(PipelineStage::Encoded, r is Ok),
    {
        if !self.stage.spectrogram_ready() {
            return Err(WhisperError::SpectrogramNotInitialized);
        }
        if !valid_threads(threads) {
            return Err(WhisperError::InvalidThreadCount);
        }
        if offset > C_INT_MAX {
            return Err(WhisperError::UnableToCalculateEvaluation);
        }
        let status = native(offset as i32, threads as i32);
        let r = stage_status(status, WhisperError::UnableToCalculateEvaluation);
        if r.is_ok() {
            self.stage = self.stage.joined(PipelineStage::Encoded);
        }
        r
    }

    /// Runs the decoder on `tokens` after `n_past` earlier tokens with
    /// `threads` threads; `native` runs it on a copy of the tokens, their
    /// count, the past count and the thread count and returns its status. It
    /// can be called again to step the decoding further.
    pub fn decode<F: FnOnce(Vec<WhisperToken>, i32, i32, i32) -> i32>(
        &mut self,
        tokens: &[WhisperToken],
        n_past: usize,
        threads: usize,
        native: F,
    ) -> (r: Result<(), WhisperError>)
        requires
            decode_refusal(old(self)@, tokens@.len() as int, n_past as int, threads as int) is None
                ==> forall|copy: Vec<WhisperToken>|
                copy@ == tokens@ ==> #[trigger] call_requires(
                    native,
                    (copy, tokens@.len() as i32, n_past as i32, threads as i32),
                ),
        ensures
            final(self).spec_handle() == old(self).spec_handle(),
            decode_refusal(old(self)@, tokens@.len() as int, n_past as int, threads as int) matches Some(
                e,
            ) ==> r == Err::<(), WhisperError>(e) && final(self)@ == old(self)@,
            decode_refusal(old(self)@, tokens@.len() as int, n_past as int, threads as int) is None
                ==> exists|copy: Vec<WhisperToken>, status: i32|
                copy@ == tokens@ && #[trigger] call_ensures(
                    native,
                    (copy, tokens@.len() as i32, n_past as i32, threads as i32),
                    status,
                ) && r == stage_result(status, WhisperError::UnableToCalculateEvaluation)
                    && final(self)@ == old(self)@.after(PipelineStage::Decoded, r is Ok),
    {
        if !self.stage.encode_complete() {
            return Err(WhisperError::EncodeNotComplete);
        }
        if !valid_threads(threads) {
            return Err(WhisperError::InvalidThreadCount);
        }
        if tokens.len() > C_INT_MAX || n_past > C_INT_MAX {
            return Err(WhisperError::UnableToCalculateEvaluation);
        }
        let copy = slice_to_vec(tokens);
        let status = native(copy, tokens.len() as i32, n_past as i32, threads as i32);
        let r = stage_status(status, WhisperError::UnableToCalculateEvaluation);
        if r.is_ok() {
            self.stage = self.stage.joined(PipelineStage::Decoded);
        }
        r
    }

    /// Turns `text` into at most `max_tokens` tokens; `native` runs the
    /// tokenizer on the text as a NUL-terminated C string with room for
    /// `max_tokens` and returns its status with the buffer it filled. Text
    /// that holds a NUL character cannot be handed to the engine and is
    /// refused at once.
    pub fn tokenize<F: FnOnce(Vec<u8>, i32) -> (i32, Vec<WhisperToken>)>(
        &self,
        text: &str,
        max_tokens: usize,
        native: F,
    ) -> (r: Result<Vec<WhisperToken>, WhisperError>)
        requires
            tokenize_refusal(text@, max_tokens as int) is None ==> forall|c_text: Vec<u8>|
                c_text@ == c_string(text@) ==> #[trigger] call_requires(
                    native,
                    (c_text, max_tokens as i32),
                ),
        ensures
            tokenize_refusal(text@, max_tokens as int) matches Some(e) ==> r == Err::<
                Vec<WhisperToken>,
                WhisperError,
            >(e),
            tokenize_refusal(text@, max_tokens as int) is None ==> exists|
                c_text: Vec<u8>,
                out: (i32, Vec<WhisperToken>),
            |
                c_text@ == c_string(text@) && #[trigger] call_ensures(
                    native,
                    (c_text, max_tokens as i32),
                    out,
                ) && match token_count(out.0, out.1@.len() as int, max_tokens as int) {
                    Ok(n) => r matches Ok(v) && v@ == out.1@.take(n),
                    Err(e) => r == Err::<Vec<WhisperToken>, WhisperError>(e),
                },
    {
        if contains_nul(text) || max_tokens > C_INT_MAX {
            return Err(WhisperError::InvalidText);
        }
        let mut c_text = text.as_bytes_vec();
        c_text.push(0u8);
        let (status, buffer) = native(c_text, max_tokens as i32);
        tokens_from_native(status, buffer, max_tokens)
    }

    /// Detects the spoken language from the spectrogram at `offset_ms`
    /// milliseconds with `threads` threads, for an engine that knows `n_langs`
    /// languages; `native` runs the detection on the offset and thread count
    /// into a buffer of `n_langs` probabilities and returns its status with
    /// that buffer.
    pub fn lang_detect<T, F: FnOnce(i32, i32, usize) -> (i32, Vec<T>)>(
        &mut self,
        offset_ms: usize,
        threads: usize,
        n_langs: usize,
        native: F,
    ) -> (r: LangDetection<T>)
        requires
            lang_detect_refusal(old(self)@, offset_ms as int, threads as int) is None
                ==> call_requires(native, (offset_ms as i32, threads as i32, n_langs)),
        ensures
            *final(self) == *old(self),
            lang_detect_refusal(old(self)@, offset_ms as int, threads as int) matches Some(e) ==> r
                == LangDetection::<T>::Failed(e),
            lang_detect_refusal(old(self)@, offset_ms as int, threads as int) is None ==> exists|
                out: (i32, Vec<T>),
            |
                #[trigger] call_ensures(native, (offset_ms as i32, threads as i32, n_langs), out)
                    && r == lang_detection(out.0, out.1, n_langs as int),
    {
        if !self.stage.spectrogram_ready() {
            return LangDetection::Failed(WhisperError::SpectrogramNotInitialized);
        }
        if !valid_threads(threads) {
            return LangDetection::Failed(WhisperError::InvalidThreadCount);
        }
        if offset_ms > C_INT_MAX {
            return LangDetection::Failed(WhisperError::UnableToCalculateEvaluation);
        }
        let (status, probs) = native(offset_ms as i32, threads as i32, n_langs);
        lang_probs_from_native(status, probs, n_langs)
    }

    /// The logits of the last decoding. `counts` gives the number of tokens
    /// and the size of the vocabulary (a negative count reads as none); the
    /// matrix has one row per token and one column per word. `read` copies
    /// the engine's flat buffer of the given rows and columns, or gives `None`
    /// when the engine has none. Neither is called before a spectrogram exists.
    pub fn get_logits<T: Copy, C: FnOnce() -> (i32, i32), R: FnOnce(usize, usize) -> Option<
        Vec<T>,
    >>(&self, counts: C, read: R) -> (r: Result<Vec<Vec<T>>, WhisperError>)
        requires
            logits_refusal(self@) is None ==> call_requires(counts, ()),
            logits_refusal(self@) is None ==> forall|n: (i32, i32)|
                #[trigger] call_ensures(counts, (), n) ==> call_requires(
                    read,
                    (count_of(n.0) as usize, count_of(n.1) as usize),
                ),
            forall|rows: usize, cols: usize, out: Option<Vec<T>>|
                #[trigger] call_ensures(read, (rows, cols), out) ==> (out matches Some(v) ==> v@.len()
                    == rows * cols),
        ensures
            logits_refusal(self@) matches Some(e) ==> r == Err::<Vec<Vec<T>>, WhisperError>(e),
            logits_refusal(self@) is None ==> exists|n: (i32, i32), out: Option<Vec<T>>|
                #![trigger call_ensures(counts, (), n), call_ensures(read, (count_of(n.0) as usize, count_of(n.1) as usize), out)]
                call_ensures(counts, (), n) && call_ensures(
                    read,
                    (count_of(n.0) as usize, count_of(n.1) as usize),
                    out,
                ) && match out {
                    None => r == Err::<Vec<Vec<T>>, WhisperError>(WhisperError::NullPointer),
                    Some(flat) => r matches Ok(m) && m@.len() == count_of(n.0) && forall|i: int|
                        0 <= i < count_of(n.0) ==> #[trigger] m@[i]@ == row_of(
                            flat@,
                            count_of(n.1) as int,
                            i,
                        ),
                },
    {
        if !self.stage.spectrogram_ready() {
            return Err(WhisperError::SpectrogramNotInitialized);
        }
        let (n_tokens, n_vocab) = counts();
        let rows = nonnegative(n_tokens);
        let cols = nonnegative(n_vocab);
        match read(rows, cols) {
            None => Err(WhisperError::NullPointer),
            Some(flat) => Ok(logits_matrix(&flat, rows, cols)),
        }
    }

    /// Runs the whole pipeline on `n_samples` samples of audio; `native` runs
    /// it on the sample count, with the decoding configuration it holds, and
    /// returns its status. The stage of the context is left as it was.
    pub fn full<F: FnOnce(i32) -> i32>(&mut self, n_samples: usize, native: F) -> (r: Result<
        i32,
        WhisperError,
    >)
        requires
            full_refusal(n_samples as int) is None ==> call_requires(native, (n_samples as i32,)),
        ensures
            *final(self) == *old(self),
            full_refusal(n_samples as int) matches Some(e) ==> r == Err::<i32, WhisperError>(e),
            full_refusal(n_samples as int) is None ==> exists|status: i32|
                #[trigger] call_ensures(native, (n_samples as i32,), status) && r == full_result(
                    status,
                ),
    {
        if n_samples > C_INT_MAX {
            return Err(WhisperError::UnableToCalculateSpectrogram);
        }
        let status = native(n_samples as i32);
        full_status(status)
    }

    /// Runs the whole pipeline on `n_samples` samples of audio split into
    /// `n_processors` partitions that independent contexts process side by
    /// side; `native` runs it on the sample count and partition count and
    /// returns its status.
    ///
    /// Success does not promise that all of the audio was processed: the
    /// engine reports success too when a partition's context could not be
    /// set up, and that partition's audio is then left out.
    pub fn full_parallel<F: FnOnce(i32, i32) -> i32>(
        &mut self,
        n_samples: usize,
        n_processors: i32,
        native: F,
    ) -> (r: Result<i32, WhisperError>)
        requires
            partition_refusal(n_samples as int, n_processors as int) is None ==> call_requires(
                native,
                (n_samples as i32, n_processors),
            ),
        ensures
            *final(self) == *old(self),
            partition_refusal(n_samples as int, n_processors as int) matches Some(e) ==> r
                == Err::<i32, WhisperError>(e),
            partition_refusal(n_samples as int, n_processors as int) is None ==> exists|status: i32|
                #[trigger] call_ensures(native, (n_samples as i32, n_processors), status) && r
                    == full_result(status),
    {
        if n_processors < 1 {
            return Err(WhisperError::InvalidThreadCount);
        }
        if n_samples > C_INT_MAX {
            return Err(WhisperError::UnableToCalculateSpectrogram);
        }
        let status = native(n_samples as i32, n_processors);
        full_status(status)
    }

    /// The engine handle that the context owns.
    pub fn handle(&self) -> (r: &H)
        ensures
            *r == self.spec_handle(),
    {
        &self.handle
    }

    /// The stage that the pipeline has reached.
    pub fn stage(&self) -> (r: PipelineStage)
        ensures
            r == self@,
    {
        self.stage
    }
}

} // verus!
