//! What can go wrong while a pass records, and how far each failure reaches.

use vstd::prelude::*;
use crate::queue::QueueError;

verus! {

/// The setup that runs before the first frame left something out. The pass
/// cannot record a meaningful buffer, and the frame is to be given up.
#[derive(Clone, Copy, Debug, PartialEq, Eq, Structural)]
pub enum ConfigurationError {
    /// No pipeline is registered under the name the pass asks for.
    PipelineNotFound,
    /// No bind group is registered under the name and set index the pass
    /// asks for.
    BindGroupNotFound,
    /// No buffer is registered under the name the pass asks for.
    BufferNotFound,
    /// The current render target has no depth view, and the pass needs one.
    DepthViewMissing,
}

/// An entity lacks something that its draw needs. Only that draw is given
/// up; the pass goes on.
#[derive(Clone, Copy, Debug, PartialEq, Eq, Structural)]
pub enum ResourceUnavailableError {
    /// The skybox at this place among the frame's skyboxes is a cubemap
    /// skybox without a cubemap bind group.
    CubemapBindGroup { skybox: usize },
}

/// Why a pass did not deliver its buffer.
#[derive(Clone, Copy, Debug, PartialEq, Eq, Structural)]
pub enum PassError {
    /// Nothing was recorded and nothing was pushed.
    Configuration(ConfigurationError),
    /// The buffer was recorded, but the queue turned it down: the output of
    /// this pass is lost for the frame.
    Queue(QueueError),
}

impl PassError {
    /// Whether the whole frame is to be given up, as opposed to the output
    /// of one pass.
    pub open spec fn spec_is_fatal(self) -> bool {
        self is Configuration
    }

    /// Whether the whole frame is to be given up, as opposed to the output
    /// of one pass.
    #[verifier::when_used_as_spec(spec_is_fatal)]
    pub fn is_fatal(self) -> (fatal: bool)
        ensures
            fatal == self.spec_is_fatal(),
    {
        match self {
            PassError::Configuration(_) => true,
            PassError::Queue(_) => false,
        }
    }
}

} // verus!
