//! The values that the start of a run reads: the node's configuration and
//! what the coordinator says about the model to train.
use vstd::prelude::*;

verus! {

/// The model architectures a run may name.
#[derive(Clone, Copy, Debug, PartialEq, Eq, Structural)]
pub enum LlmArchitecture {
    HfLlama,
    HfDeepseek,
    HfAuto,
    Torchtitan,
}

/// What the run trains on, which decides the attention backend.
#[derive(Clone, Copy, Debug, PartialEq, Eq, Structural)]
pub enum TrainingDataType {
    Pretraining,
    Finetuning,
}

/// Where the initial weights of the model come from.
#[derive(Clone, Debug, PartialEq, Eq)]
pub enum Checkpoint {
    /// Random weights in a fixed dummy configuration, for tests.
    Dummy,
    /// A model repository: a local directory of that name, or a hub repo.
    Hub { repo_id: String, revision: Option<String> },
    /// Weights and configuration fetched from peers of the run.
    P2P,
    /// The run keeps no checkpoint: a node cannot join it.
    Ephemeral,
}

impl Checkpoint {
    /// A copy of this checkpoint.
    pub fn duplicate(&self) -> (r: Checkpoint)
        ensures
            r == *self,
    {
        match self {
            Checkpoint::Dummy => Checkpoint::Dummy,
            Checkpoint::Hub { repo_id, revision } => Checkpoint::Hub {
                repo_id: repo_id.clone(),
                revision: revision.clone(),
            },
            Checkpoint::P2P => Checkpoint::P2P,
            Checkpoint::Ephemeral => Checkpoint::Ephemeral,
        }
    }
}

/// Where the training data comes from. Payloads that the start of a run
/// only hands on (an HTTP location, its token size and shuffling) stay
/// with the caller.
#[derive(Clone, Debug, PartialEq, Eq)]
pub enum DataLocation {
    /// A data server, by address.
    Server(String),
    /// A local dataset (not supported when joining a run).
    Local,
    /// Generated data, for tests.
    Dummy,
    /// Files served over HTTP.
    Http,
    /// A weighted mix of HTTP datasets, described at a URL.
    WeightedHttp(String),
    /// A preprocessed dataset: a local directory of that name, or a hub
    /// dataset repository.
    Preprocessed(String),
}

/// The language model that the coordinator describes.
#[derive(Clone, Debug, PartialEq, Eq)]
pub struct LlmSpec {
    pub architecture: LlmArchitecture,
    pub checkpoint: Checkpoint,
    pub data_location: DataLocation,
    pub data_type: TrainingDataType,
    pub max_seq_len: u32,
}

/// The run settings that a metrics run records.
#[derive(Clone, Copy, Debug, PartialEq, Eq, Structural)]
pub struct RunSettings {
    pub global_batch_size_start: u64,
    pub global_batch_size_end: u64,
    pub global_batch_size_warmup_tokens: u64,
    pub total_steps: u64,
}

/// What the node reads of the coordinator's state when it joins.
#[derive(Clone, Debug, PartialEq, Eq)]
pub struct CoordinatorView {
    /// `None` when the coordinator holds no model.
    pub model: Option<LlmSpec>,
    pub run_id: String,
    pub settings: RunSettings,
}

/// Credentials and names for reporting to a metrics service.
#[derive(Clone, Debug, PartialEq, Eq)]
pub struct WandBInfo {
    pub project: String,
    pub run: String,
    pub group: Option<String>,
    pub entity: Option<String>,
    pub api_key: String,
}

impl WandBInfo {
    /// A copy of these settings.
    pub fn duplicate(&self) -> (r: WandBInfo)
        ensures
            r == *self,
    {
        WandBInfo {
            project: self.project.clone(),
            run: self.run.clone(),
            group: self.group.clone(),
            entity: self.entity.clone(),
            api_key: self.api_key.clone(),
        }
    }
}

/// The node's own configuration for joining a run.
#[derive(Clone, Debug, PartialEq, Eq)]
pub struct RunInitConfig {
    pub max_concurrent_parameter_requests: usize,
    pub hub_read_token: Option<String>,
    pub hub_max_concurrent_downloads: usize,
    pub data_parallelism: usize,
    pub tensor_parallelism: usize,
    pub micro_batch_size: usize,
    pub optim_stats_every_n_steps: Option<u32>,
    pub grad_accum_in_fp32: bool,
    pub eval_task_max_docs: Option<usize>,
    pub prompt_task: bool,
    pub wandb_info: Option<WandBInfo>,
    pub dummy_training_delay_secs: Option<u64>,
    pub sidecar_port: Option<u16>,
    /// Whether this build has the multi-device communication backend:
    /// without it, neither tensor nor data parallelism above one is
    /// available.
    pub parallelism_backend: bool,
    /// Whether this build has the Python model backend, which alone loads
    /// the automatically mapped and Torchtitan architectures.
    pub python_backend: bool,
}

} // verus!
