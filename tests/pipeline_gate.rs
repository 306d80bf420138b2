use std::cell::Cell;
use whisper_rs::context::WhisperContext;
use whisper_rs::error::WhisperError;
use whisper_rs::stage::PipelineStage;

fn fresh() -> WhisperContext<u32> {
    WhisperContext::new_from_buffer(|| Some(42)).unwrap()
}

fn ready() -> WhisperContext<u32> {
    let mut ctx = fresh();
    ctx.pcm_to_mel(16000, 1, |_, _| 0).unwrap();
    ctx
}

fn encoded() -> WhisperContext<u32> {
    let mut ctx = ready();
    ctx.encode(0, 1, |_, _| 0).unwrap();
    ctx
}

fn unreachable_engine2(_: i32, _: i32) -> i32 {
    panic!("the engine must not be called")
}

fn unreachable_engine4(_: Vec<i32>, _: i32, _: i32, _: i32) -> i32 {
    panic!("the engine must not be called")
}

#[test]
fn new_context_is_fresh_and_owns_handle() {
    let ctx = fresh();
    assert_eq!(ctx.stage(), PipelineStage::Fresh);
    assert_eq!(*ctx.handle(), 42);
}

#[test]
fn failed_initialization_is_init_error() {
    let r = WhisperContext::<u32>::new("model.bin", || None);
    assert!(matches!(r, Err(WhisperError::InitError)));
    let r = WhisperContext::<u32>::new_from_buffer(|| None);
    assert!(matches!(r, Err(WhisperError::InitError)));
}

#[test]
fn path_with_nul_is_refused_before_loading() {
    let called = Cell::new(false);
    let r = WhisperContext::<u32>::new("mod\0el.bin", || {
        called.set(true);
        Some(1)
    });
    assert!(matches!(r, Err(WhisperError::InitError)));
    assert!(!called.get());
    let r = WhisperContext::<u32>::new("model.bin", || Some(3));
    assert_eq!(*r.unwrap().handle(), 3);
}

#[test]
fn zero_threads_never_reach_the_engine() {
    let mut ctx = fresh();
    assert_eq!(ctx.pcm_to_mel(100, 0, unreachable_engine2), Err(WhisperError::InvalidThreadCount));
    assert_eq!(ctx.stage(), PipelineStage::Fresh);

    let mut ctx = ready();
    assert_eq!(ctx.encode(0, 0, unreachable_engine2), Err(WhisperError::InvalidThreadCount));
    let r = ctx.lang_detect::<f32, _>(0, 0, 99, |_, _, _| panic!("the engine must not be called"));
    assert!(matches!(r, whisper_rs::marshal::LangDetection::Failed(WhisperError::InvalidThreadCount)));
    assert_eq!(ctx.stage(), PipelineStage::SpectrogramReady);

    let mut ctx = encoded();
    assert_eq!(ctx.decode(&[1, 2], 0, 0, unreachable_engine4), Err(WhisperError::InvalidThreadCount));
    assert_eq!(ctx.stage(), PipelineStage::Encoded);

    let mut ctx = fresh();
    assert_eq!(ctx.full_parallel(100, 0, unreachable_engine2), Err(WhisperError::InvalidThreadCount));
    assert_eq!(ctx.full_parallel(100, -3, unreachable_engine2), Err(WhisperError::InvalidThreadCount));
}

#[test]
fn encode_before_spectrogram_is_refused() {
    let mut ctx = fresh();
    for threads in [0usize, 1, 4] {
        assert_eq!(
            ctx.encode(0, threads, unreachable_engine2),
            Err(WhisperError::SpectrogramNotInitialized)
        );
    }
    assert_eq!(ctx.stage(), PipelineStage::Fresh);
}

#[test]
fn failed_spectrogram_keeps_encode_refused() {
    let mut ctx = fresh();
    assert_eq!(
        ctx.pcm_to_mel(16000, 2, |_, _| -1),
        Err(WhisperError::UnableToCalculateSpectrogram)
    );
    assert_eq!(
        ctx.encode(0, 1, unreachable_engine2),
        Err(WhisperError::SpectrogramNotInitialized)
    );
}

#[test]
fn decode_before_encode_is_refused() {
    let mut ctx = fresh();
    assert_eq!(ctx.decode(&[7], 0, 1, unreachable_engine4), Err(WhisperError::EncodeNotComplete));
    let mut ctx = ready();
    assert_eq!(ctx.decode(&[], 3, 0, unreachable_engine4), Err(WhisperError::EncodeNotComplete));
    assert_eq!(ctx.stage(), PipelineStage::SpectrogramReady);
}

#[test]
fn successful_stages_advance_the_stage() {
    let mut ctx = fresh();
    assert_eq!(ctx.pcm_to_mel(16000, 1, |_, _| 0), Ok(()));
    assert_eq!(ctx.stage(), PipelineStage::SpectrogramReady);
    assert!(ctx.stage().spectrogram_ready());
    assert!(!ctx.stage().encode_complete());
    assert_eq!(ctx.encode(0, 1, |_, _| 0), Ok(()));
    assert_eq!(ctx.stage(), PipelineStage::Encoded);
    assert_eq!(ctx.decode(&[1, 2, 3], 0, 1, |_, _, _, _| 0), Ok(()));
    assert_eq!(ctx.stage(), PipelineStage::Decoded);
    assert!(ctx.stage().decode_performed());
    assert_eq!(ctx.decode(&[4], 3, 1, |_, _, _, _| 0), Ok(()));
    assert_eq!(ctx.stage(), PipelineStage::Decoded);
}

#[test]
fn failed_stages_never_regress() {
    let mut ctx = encoded();
    assert_eq!(ctx.pcm_to_mel(10, 1, |_, _| -1), Err(WhisperError::UnableToCalculateSpectrogram));
    assert_eq!(ctx.stage(), PipelineStage::Encoded);
    assert_eq!(ctx.encode(0, 1, |_, _| -1), Err(WhisperError::UnableToCalculateEvaluation));
    assert_eq!(ctx.stage(), PipelineStage::Encoded);
    assert_eq!(ctx.decode(&[1], 0, 1, |_, _, _, _| 1), Err(WhisperError::GenericError(1)));
    assert_eq!(ctx.stage(), PipelineStage::Encoded);
    assert_eq!(ctx.pcm_to_mel(10, 1, |_, _| 0), Ok(()));
    assert_eq!(ctx.stage(), PipelineStage::Encoded);
}

#[test]
fn arguments_reach_the_engine_converted() {
    let mut ctx = fresh();
    ctx.pcm_to_mel(16000, 3, |n, t| {
        assert_eq!((n, t), (16000, 3));
        0
    })
    .unwrap();
    ctx.encode(5, 2, |o, t| {
        assert_eq!((o, t), (5, 2));
        0
    })
    .unwrap();
    ctx.decode(&[10, 11, 12], 4, 6, |tokens, n, p, t| {
        assert_eq!(tokens, vec![10, 11, 12]);
        assert_eq!((n, p, t), (3, 4, 6));
        0
    })
    .unwrap();
}

#[test]
fn other_status_codes_are_generic_errors() {
    let mut ctx = fresh();
    assert_eq!(ctx.pcm_to_mel(10, 1, |_, _| 4), Err(WhisperError::GenericError(4)));
    assert_eq!(ctx.stage(), PipelineStage::Fresh);
    let mut ctx = ready();
    assert_eq!(ctx.encode(0, 1, |_, _| -9), Err(WhisperError::GenericError(-9)));
}

#[test]
fn set_mel_takes_whole_frames() {
    let mut ctx = fresh();
    assert_eq!(ctx.set_mel(81, unreachable_engine2), Err(WhisperError::InvalidMelBands));
    assert_eq!(ctx.stage(), PipelineStage::Fresh);
    assert_eq!(ctx.set_mel(160, |_, _| -1), Err(WhisperError::InvalidMelBands));
    assert_eq!(ctx.stage(), PipelineStage::Fresh);
    assert_eq!(
        ctx.set_mel(240, |frames, bands| {
            assert_eq!((frames, bands), (3, 80));
            0
        }),
        Ok(())
    );
    assert_eq!(ctx.stage(), PipelineStage::SpectrogramReady);
    assert_eq!(ctx.encode(0, 1, |_, _| 0), Ok(()));
}

#[test]
fn stage_order_and_join() {
    assert!(PipelineStage::Decoded.has_reached(PipelineStage::Encoded));
    assert!(!PipelineStage::Fresh.has_reached(PipelineStage::SpectrogramReady));
    assert_eq!(PipelineStage::Encoded.joined(PipelineStage::SpectrogramReady), PipelineStage::Encoded);
    assert_eq!(PipelineStage::Fresh.joined(PipelineStage::Encoded), PipelineStage::Encoded);
    assert_eq!(PipelineStage::Decoded.rank_of(), 3);
}

#[test]
fn thread_counts_beyond_a_c_int_are_refused() {
    let too_many = i32::MAX as usize + 1;
    let mut ctx = fresh();
    assert_eq!(ctx.pcm_to_mel(10, too_many, unreachable_engine2), Err(WhisperError::InvalidThreadCount));
    let mut ctx = encoded();
    assert_eq!(ctx.encode(0, too_many, unreachable_engine2), Err(WhisperError::InvalidThreadCount));
    assert_eq!(ctx.decode(&[1], 0, too_many, unreachable_engine4), Err(WhisperError::InvalidThreadCount));
    assert_eq!(ctx.stage(), PipelineStage::Encoded);
}

#[test]
fn counts_beyond_a_c_int_are_refused() {
    let too_many = i32::MAX as usize + 1;
    let mut ctx = fresh();
    assert_eq!(
        ctx.pcm_to_mel(too_many, 1, unreachable_engine2),
        Err(WhisperError::UnableToCalculateSpectrogram)
    );
    assert_eq!(ctx.stage(), PipelineStage::Fresh);
    let mut ctx = encoded();
    assert_eq!(
        ctx.encode(too_many, 1, unreachable_engine2),
        Err(WhisperError::UnableToCalculateEvaluation)
    );
    assert_eq!(
        ctx.decode(&[1], too_many, 1, unreachable_engine4),
        Err(WhisperError::UnableToCalculateEvaluation)
    );
    assert_eq!(ctx.stage(), PipelineStage::Encoded);
}

#[test]
fn refusal_after_failed_encode_keeps_decoder_uncalled() {
    let mut ctx = ready();
    assert_eq!(ctx.encode(0, 1, |_, _| -1), Err(WhisperError::UnableToCalculateEvaluation));
    assert_eq!(ctx.decode(&[1, 2], 0, 1, unreachable_engine4), Err(WhisperError::EncodeNotComplete));
}
