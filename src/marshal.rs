//! Turning what the engine hands back into owned, checked values.
use vstd::prelude::*;
use vstd::utf8::{decode_utf8, valid_utf8};
use crate::error::WhisperError;
use crate::status::STATUS_FAILED;

verus! {

/// A token id, meaningful only against the vocabulary of the model it came from.
pub type WhisperToken = i32;

/// Relies on `String::from_utf8`: it succeeds exactly on valid UTF-8, and the
/// string it returns holds the characters that the bytes encode.
#[verifier::external_body]
fn string_from_utf8(bytes: Vec<u8>) -> (r: Option<String>)
    ensures
        r is Some <==> valid_utf8(bytes@),
        r matches Some(s) ==> s@ == decode_utf8(bytes@),
{
    String::from_utf8(bytes).ok()
}

/// An owned copy of a text that the engine returned: `None` stands for a null
/// result, and the bytes must be valid UTF-8.
pub fn owned_text(raw: Option<Vec<u8>>) -> (r: Result<String, WhisperError>)
    ensures
        raw is None ==> r == Err::<String, WhisperError>(WhisperError::NullPointer),
        raw matches Some(b) ==> if valid_utf8(b@) {
            r matches Ok(s) && s@ == decode_utf8(b@)
        } else {
            r == Err::<String, WhisperError>(WhisperError::InvalidUtf8)
        },
{
    match raw {
        None => Err(WhisperError::NullPointer),
        Some(bytes) => match string_from_utf8(bytes) {
            Some(s) => Ok(s),
            None => Err(WhisperError::InvalidUtf8),
        },
    }
}

/// Row `i` of a row-major matrix with `cols` columns, stored flat.
pub open spec fn row_of<T>(flat: Seq<T>, cols: int, i: int) -> Seq<T> {
    flat.subrange(i * cols, i * cols + cols)
}

proof fn lemma_row_fits(i: int, rows: int, cols: int)
    requires
        0 <= i < rows,
        0 <= cols,
    ensures
        0 <= i * cols,
        i * cols + cols <= rows * cols,
{
    assert(i * cols + cols == (i + 1) * cols) by (nonlinear_arith);
    assert((i + 1) * cols <= rows * cols) by (nonlinear_arith)
        requires
            i + 1 <= rows,
            0 <= cols,
    ;
    assert(0 <= i * cols) by (nonlinear_arith)
        requires
            0 <= i,
            0 <= cols,
    ;
}

/// Copies a flat row-major buffer of `rows` times `cols` values into a fresh
/// matrix of `rows` rows.
pub fn logits_matrix<T: Copy>(flat: &Vec<T>, rows: usize, cols: usize) -> (m: Vec<Vec<T>>)
    requires
        flat@.len() == rows * cols,
    ensures
        m@.len() == rows,
        forall|i: int| 0 <= i < rows ==> #[trigger] m@[i]@ == row_of(flat@, cols as int, i),
{
    let total = flat.len();
    let mut m: Vec<Vec<T>> = Vec::new();
    let mut i: usize = 0;
    while i < rows
        invariant
            i <= rows,
            flat@.len() == rows * cols,
            total == flat@.len(),
            m@.len() == i,
            forall|k: int| 0 <= k < i ==> #[trigger] m@[k]@ == row_of(flat@, cols as int, k),
        decreases rows - i,
    {
        proof {
            lemma_row_fits(i as int, rows as int, cols as int);
        }
        let start: usize = i * cols;
        let mut row: Vec<T> = Vec::new();
        let mut j: usize = 0;
        while j < cols
            invariant
                j <= cols,
                start == i * cols,
                start + cols <= flat@.len(),
                total == flat@.len(),
                row@ == flat@.subrange(start as int, start + j),
            decreases cols - j,
        {
            row.push(flat[start + j]);
            proof {
                assert(row@ =~= flat@.subrange(start as int, start + j + 1));
            }
            j = j + 1;
        }
        m.push(row);
        proof {
            assert(m@[i as int]@ == row_of(flat@, cols as int, i as int));
        }
        i = i + 1;
    }
    m
}

/// How many tokens a tokenizer status code reports, out of a buffer of
/// `available` tokens requested with room for `max_tokens`.
pub open spec fn token_count(status: i32, available: int, max_tokens: int) -> Result<int, WhisperError> {
    if status < 0 {
        Err(WhisperError::InvalidText)
    } else if status > max_tokens || status > available {
        Err(WhisperError::GenericError(status))
    } else {
        Ok(status as int)
    }
}

/// The tokens that the tokenizer wrote to `buffer`, as its status reports them.
pub fn tokens_from_native(status: i32, buffer: Vec<WhisperToken>, max_tokens: usize) -> (r: Result<
    Vec<WhisperToken>,
    WhisperError,
>)
    ensures
        match token_count(status, buffer@.len() as int, max_tokens as int) {
            Ok(n) => r matches Ok(v) && v@ == buffer@.take(n),
            Err(e) => r == Err::<Vec<WhisperToken>, WhisperError>(e),
        },
{
    if status < 0 {
        Err(WhisperError::InvalidText)
    } else if status as usize > max_tokens || status as usize > buffer.len() {
        Err(WhisperError::GenericError(status))
    } else {
        let mut tokens = buffer;
        tokens.truncate(status as usize);
        Ok(tokens)
    }
}

/// The number of languages of an engine whose largest language id is
/// `max_lang_id`; an engine that reports a negative id knows none.
pub fn lang_count(max_lang_id: i32) -> (n: usize)
    ensures
        max_lang_id < 0 ==> n == 0,
        max_lang_id >= 0 ==> n == max_lang_id + 1,
{
    if max_lang_id < 0 {
        0
    } else {
        max_lang_id as usize + 1
    }
}

/// What language detection produced.
#[derive(Debug)]
pub enum LangDetection<T> {
    /// One probability per language.
    Probabilities(Vec<T>),
    /// The engine reported a failure.
    Failed(WhisperError),
    /// The engine broke its own contract on the length of the vector: going
    /// on would risk reading past the buffer, so the caller must terminate.
    LengthMismatch { expected: usize, reported: i32 },
}

/// Whether a language-detection status and the buffer filled match the
/// number of languages.
pub open spec fn lang_lengths_agree(status: i32, filled: int, n_langs: int) -> bool {
    status as int == n_langs && filled == n_langs
}

/// What a language-detection status and the probabilities filled come to.
pub open spec fn lang_detection<T>(status: i32, probs: Vec<T>, n_langs: int) -> LangDetection<T> {
    if status == STATUS_FAILED {
        LangDetection::Failed(WhisperError::UnableToCalculateEvaluation)
    } else if lang_lengths_agree(status, probs@.len() as int, n_langs) {
        LangDetection::Probabilities(probs)
    } else {
        LangDetection::LengthMismatch { expected: n_langs as usize, reported: status }
    }
}

/// Checks the vector of language probabilities that the engine filled
/// against the number of languages it knows.
pub fn lang_probs_from_native<T>(status: i32, probs: Vec<T>, n_langs: usize) -> (r: LangDetection<T>)
    ensures
        r == lang_detection(status, probs, n_langs as int),
{
    if status == STATUS_FAILED {
        LangDetection::Failed(WhisperError::UnableToCalculateEvaluation)
    } else if status >= 0 && status as usize == n_langs && probs.len() == n_langs {
        LangDetection::Probabilities(probs)
    } else {
        LangDetection::LengthMismatch { expected: n_langs, reported: status }
    }
}

} // verus!
