//! Why joining a run failed.
use vstd::prelude::*;
use crate::types::LlmArchitecture;

verus! {

/// Failures while loading the model weights.
#[derive(Clone, Debug, PartialEq, Eq)]
pub enum ModelLoadError {
    /// The configured device is not available on this machine.
    UnavailableDevice,
    /// No device is configured for this replica rank.
    NoDeviceForRank(usize),
    /// Any other loading failure, by its message.
    Other(String),
}

impl ModelLoadError {
    /// A copy of this error.
    pub fn duplicate(&self) -> (r: ModelLoadError)
        ensures
            r == *self,
    {
        match self {
            ModelLoadError::UnavailableDevice => ModelLoadError::UnavailableDevice,
            ModelLoadError::NoDeviceForRank(rank) => ModelLoadError::NoDeviceForRank(*rank),
            ModelLoadError::Other(m) => ModelLoadError::Other(m.clone()),
        }
    }
}

/// Why joining a run failed. Failures that come from outside services carry
/// their message.
#[derive(Clone, Debug, PartialEq, Eq)]
pub enum InitRunError {
    /// The coordinator holds no model, so there is nothing to do.
    NoModel,
    /// The model keeps no checkpoint, so it is impossible to join the run.
    ModelIsEphemeral,
    /// Reading the local model directory failed.
    LocalModelLoad(String),
    /// Reading the model from the hub failed.
    HfModelLoad(String),
    /// The model loading task crashed.
    ModelLoadingThreadCrashed(String),
    /// Loading the model failed.
    ModelLoad(ModelLoadError),
    /// Loading the tokenizer failed.
    TokenizerLoad(String),
    /// The data provider could not be set up.
    DataProviderConnect(String),
    /// The metrics setup task crashed.
    WandbThreadCrashed(String),
    /// The metrics service refused to create a run.
    WandbLoad(String),
    /// A model configuration could not be parsed.
    FailedToParseConfig(String),
    /// The architecture cannot be loaded by this build.
    UnsupportedArchitecture(LlmArchitecture),
    /// The distributed Python model could not be created.
    PythonDistributedError(String),
    /// The Python model could not be created.
    PythonModelError(String),
    /// The distributed Python trainer could not be created.
    PythonDistributedTrainerError(String),
}

/// Whether `e` is one that an outside failure converts to: the variants that
/// stand for an outside error type (an I/O error, a hub error, a model
/// loading error, a tokenizer error, a metrics-service error, a parse error
/// or a Python model error).
pub open spec fn is_converted_error(e: InitRunError) -> bool {
    ||| e is LocalModelLoad
    ||| e is HfModelLoad
    ||| e is ModelLoad
    ||| e is TokenizerLoad
    ||| e is WandbLoad
    ||| e is FailedToParseConfig
    ||| e is PythonDistributedError
    ||| e is PythonModelError
    ||| e is PythonDistributedTrainerError
}

} // verus!
