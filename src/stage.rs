use vstd::prelude::*;

verus! {

/// How far a context has progressed through spectrogram, encoding and decoding.
///
/// The stages are ordered; an operation that succeeds moves the context to the
/// later of its current stage and the one the operation reaches, so a context
/// never goes back to an earlier stage.
#[derive(Debug, Clone, Copy, PartialEq, Eq, Structural)]
pub enum PipelineStage {
    /// Nothing has been computed yet.
    Fresh,
    /// A spectrogram is held by the engine.
    SpectrogramReady,
    /// The encoder has run on the spectrogram.
    Encoded,
    /// The decoder has run at least once.
    Decoded,
}

impl PipelineStage {
    /// The position of the stage in the pipeline.
    pub open spec fn rank(self) -> nat {
        match self {
            PipelineStage::Fresh => 0,
            PipelineStage::SpectrogramReady => 1,
            PipelineStage::Encoded => 2,
            PipelineStage::Decoded => 3,
        }
    }

    /// Whether this stage is `target` or a later one.
    pub open spec fn reached(self, target: PipelineStage) -> bool {
        self.rank() >= target.rank()
    }

    /// The later of this stage and `target`.
    pub open spec fn join(self, target: PipelineStage) -> PipelineStage {
        if self.reached(target) {
            self
        } else {
            target
        }
    }

    /// The stage after an operation that reaches `target`: unchanged when it failed.
    pub open spec fn after(self, target: PipelineStage, succeeded: bool) -> PipelineStage {
        if succeeded {
            self.join(target)
        } else {
            self
        }
    }

    pub fn rank_of(&self) -> (r: u8)
        ensures
            r as nat == self.rank(),
    {
        match self {
            PipelineStage::Fresh => 0,
            PipelineStage::SpectrogramReady => 1,
            PipelineStage::Encoded => 2,
            PipelineStage::Decoded => 3,
        }
    }

    /// Whether this stage is `target` or a later one.
    pub fn has_reached(&self, target: PipelineStage) -> (r: bool)
        ensures
            r == self.reached(target),
    {
        self.rank_of() >= target.rank_of()
    }

    /// The later of this stage and `target`.
    pub fn joined(self, target: PipelineStage) -> (r: PipelineStage)
        ensures
            r == self.join(target),
    {
        if self.has_reached(target) {
            self
        } else {
            target
        }
    }

    /// A spectrogram has been computed or set.
    pub fn spectrogram_ready(&self) -> (r: bool)
        ensures
            r == self.reached(PipelineStage::SpectrogramReady),
    {
        self.has_reached(PipelineStage::SpectrogramReady)
    }

    /// The encoder has run.
    pub fn encode_complete(&self) -> (r: bool)
        ensures
            r == self.reached(PipelineStage::Encoded),
    {
        self.has_reached(PipelineStage::Encoded)
    }

    /// The decoder has run at least once.
    pub fn decode_performed(&self) -> (r: bool)
        ensures
            r == self.reached(PipelineStage::Decoded),
    {
        self.has_reached(PipelineStage::Decoded)
    }
}

} // verus!
