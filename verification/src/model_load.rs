//! Obtaining the model: its weights' source, its tokenizer, its published
//! configuration, and the replicas to load on the devices.
//!
//! The loader is driven by its caller: each method takes the outcome of the
//! action that the loader asked for last and gives the next action, until
//! the model is `Loaded` or the start `Failed`.
use vstd::prelude::*;
use tokenizers::Tokenizer;
use crate::error::{is_converted_error, InitRunError, ModelLoadError};
use crate::files::{checkpoint_extra_files, selects_extra_files};
use crate::grid::{rank_slots, slot_at, RankSlot};
use crate::tokenizer::{dummy_tokenizer_json_text, empty_word_level_tokenizer};
use crate::types::{Checkpoint, LlmArchitecture, TrainingDataType};

verus! {

/// What the loader reads of the node's configuration and of the model.
#[derive(Clone, Debug, PartialEq, Eq)]
pub struct ModelLoadConfig {
    pub architecture: LlmArchitecture,
    pub checkpoint: Checkpoint,
    pub data_type: TrainingDataType,
    pub max_seq_len: u32,
    pub data_parallelism: usize,
    pub tensor_parallelism: usize,
    pub dummy_training_delay_secs: Option<u64>,
    pub hub_read_token: Option<String>,
    pub hub_max_concurrent_downloads: usize,
    pub eval_task_max_docs: Option<usize>,
    pub prompt_task: bool,
    pub sidecar_port: Option<u16>,
    pub parallelism_backend: bool,
    pub python_backend: bool,
}

/// The attention kernels a replica may be loaded with.
#[derive(Clone, Copy, Debug, PartialEq, Eq, Structural)]
pub enum AttentionImplementation {
    Eager,
    Sdpa,
    FlashAttention2,
}

/// How a configuration received from peers is read.
#[derive(Clone, Copy, Debug, PartialEq, Eq, Structural)]
pub enum ConfigFormat {
    Llama,
    Deepseek,
    /// The configuration of a model that the Python backend maps.
    Python,
}

/// One replica to load: its place in the grid, and whether it shares a
/// tensor-parallel communicator with the other replicas of its row.
#[derive(Clone, Copy, Debug, PartialEq, Eq, Structural)]
pub struct ReplicaJob {
    pub slot: RankSlot,
    pub tensor_parallel: bool,
}

/// The outcome of loading one native replica.
#[derive(Clone, Debug, PartialEq, Eq)]
pub enum ReplicaOutcome {
    Loaded,
    /// No device is configured for the replica's rank.
    NoDevice,
    Failed(ModelLoadError),
    /// The loading task crashed, with this message.
    Crashed(String),
}

/// The outcome of loading the model through the Python backend.
#[derive(Clone, Debug, PartialEq, Eq)]
pub enum PythonOutcome {
    Loaded,
    /// No device is configured for rank 0 (single-process loading only).
    NoDevice,
    /// The weights' source could not be handed to the backend, with the
    /// error it converts to.
    SourceRejected(InitRunError),
    /// The backend refused to create the model, with its message.
    Failed(String),
    /// The loading task crashed, with this message.
    Crashed(String),
}

/// Where the loaded models come from.
#[derive(Clone, Copy, Debug, PartialEq, Eq, Structural)]
pub enum ModelSource {
    /// `count` dummy models, each waiting `training_delay_secs` per step
    /// when set.
    Dummy { count: usize, training_delay_secs: Option<u64> },
    /// `replicas` native replicas, in rank order.
    Native { replicas: usize },
    /// One model run by the Python backend, over all configured ranks when
    /// `distributed`.
    Python { distributed: bool },
}

/// How the evaluation runner is set up.
#[derive(Clone, Copy, Debug, PartialEq, Eq, Structural)]
pub struct TaskRunnerPlan {
    /// Whether the configured evaluation tasks are run (dummy models run
    /// none).
    pub with_eval_tasks: bool,
    pub prompt_task: bool,
    pub eval_task_max_docs: Option<usize>,
    pub data_parallelism: usize,
}

/// A loaded model.
#[derive(Debug)]
pub struct LoadedModel {
    pub source: ModelSource,
    pub tokenizer: Tokenizer,
    /// Positions of the repository files kept beside every checkpoint.
    pub checkpoint_extra_files: Vec<usize>,
    pub task_runner: TaskRunnerPlan,
}

/// What the caller is asked to do next.
#[derive(Debug)]
pub enum ModelAction {
    /// Tell whether a local directory `path` exists (`false` when that
    /// cannot be told), with `on_local_exists`.
    CheckLocalRepo { path: String },
    /// List the files of the local directory `path`, with `on_listed`.
    ListLocalRepo { path: String },
    /// Download the model repository (without progress output), with
    /// `on_listed`.
    DownloadRepo {
        repo_id: String,
        revision: Option<String>,
        hub_read_token: Option<String>,
        max_concurrent_downloads: usize,
    },
    /// Load the tokenizer from the repository files, with
    /// `on_tokenizer_loaded`.
    LoadTokenizer,
    /// Ask the peers for the model configuration and tokenizer, with
    /// `on_model_config`.
    RequestModelConfig,
    /// Read the received configuration in this format and list its
    /// parameter names, with `on_config_parsed`.
    ParseModelConfig { format: ConfigFormat, json: String },
    /// Ask the peers for the listed parameters, with `on_parameters`.
    RequestParameters,
    /// Serialize the configuration to publish (that of the dummy model when
    /// `dummy`), with `on_serialized`.
    SerializeConfig { dummy: bool },
    /// Load these replicas, each on the device of its rank, with
    /// `on_replicas_loaded`.
    LoadReplicas { jobs: Vec<ReplicaJob>, attention: Option<AttentionImplementation>, max_seq_len: usize },
    /// Load the model through the Python backend (over all ranks when
    /// `distributed`, else on the device of rank 0), with `on_python_loaded`.
    LoadPythonModel {
        distributed: bool,
        architecture: LlmArchitecture,
        attention: Option<AttentionImplementation>,
        data_parallelism: usize,
        tensor_parallelism: usize,
        max_seq_len: usize,
        sidecar_port: Option<u16>,
    },
    /// Serialize the loader's tokenizer to compact JSON, with
    /// `on_tokenizer_serialized`.
    SerializeTokenizer,
    /// Publish the configuration and the tokenizer, with `on_uploaded`.
    UploadConfig { config: String, tokenizer: String },
    Loaded(LoadedModel),
    Failed(InitRunError),
}

/// Where the loader stands.
#[derive(Clone, Copy, Debug, PartialEq, Eq, Structural)]
pub enum ModelStage {
    CheckingLocal,
    ListingLocal,
    Downloading,
    LoadingTokenizer,
    AwaitingConfig,
    ParsingConfig,
    AwaitingParameters,
    SerializingDummy,
    Serializing,
    LoadingReplicas { count: usize },
    LoadingPython { distributed: bool },
    SerializingTokenizer { source: ModelSource },
    Uploading { source: ModelSource },
    Done,
}

/// The model loader.
#[derive(Debug)]
pub struct ModelLoader {
    pub stage: ModelStage,
    pub config: ModelLoadConfig,
    pub extra_files: Vec<usize>,
    pub tokenizer: Option<Tokenizer>,
    /// The JSON form of the dummy model's tokenizer.
    pub dummy_tokenizer_json: String,
    pub serialized_config: String,
    pub dummy_models: usize,
}

/// The data parallelism of the evaluation runner: a single rank for the
/// automatically mapped architecture when several are configured.
pub open spec fn spec_inference_data_parallelism(dp: usize, arch: LlmArchitecture) -> usize {
    if dp > 1 && arch == LlmArchitecture::HfAuto { 1 } else { dp }
}

/// The evaluation runner uses every configured data-parallel rank, except
/// for the automatically mapped architecture, which evaluates on a single
/// rank when more than one is configured.
pub proof fn lemma_inference_data_parallelism(dp: usize, arch: LlmArchitecture)
    ensures
        arch != LlmArchitecture::HfAuto ==> spec_inference_data_parallelism(dp, arch) == dp,
        dp <= 1 ==> spec_inference_data_parallelism(dp, arch) == dp,
        arch == LlmArchitecture::HfAuto && dp > 1 ==> spec_inference_data_parallelism(dp, arch) == 1,
        spec_inference_data_parallelism(dp, arch) <= dp,
{
}

/// The data parallelism of the evaluation runner.
pub fn inference_data_parallelism(dp: usize, arch: LlmArchitecture) -> (r: usize)
    ensures
        r == spec_inference_data_parallelism(dp, arch),
        arch != LlmArchitecture::HfAuto ==> r == dp,
        dp <= 1 ==> r == dp,
        arch == LlmArchitecture::HfAuto && dp > 1 ==> r == 1,
{
    if dp > 1 && arch == LlmArchitecture::HfAuto { 1 } else { dp }
}

/// The attention kernel of the replicas: variable-length flash attention
/// for finetuning when the multi-device backend is built, else the
/// model's default.
pub open spec fn spec_attention(
    data_type: TrainingDataType,
    parallelism_backend: bool,
) -> Option<AttentionImplementation> {
    if data_type == TrainingDataType::Finetuning && parallelism_backend {
        Some(AttentionImplementation::FlashAttention2)
    } else {
        None
    }
}

/// The attention kernel of the replicas.
pub fn attention_implementation(data_type: TrainingDataType, parallelism_backend: bool) -> (r: Option<
    AttentionImplementation,
>)
    ensures
        r == spec_attention(data_type, parallelism_backend),
{
    if data_type == TrainingDataType::Finetuning && parallelism_backend {
        Some(AttentionImplementation::FlashAttention2)
    } else {
        None
    }
}

/// Whether the Python backend maps this architecture.
pub open spec fn is_python_architecture(arch: LlmArchitecture) -> bool {
    arch == LlmArchitecture::HfAuto || arch == LlmArchitecture::Torchtitan
}

/// The error reported for a native replica that did not load, `rank` being
/// its rank.
pub open spec fn replica_error(outcome: ReplicaOutcome, rank: usize) -> InitRunError
    recommends
        !(outcome is Loaded),
{
    match outcome {
        ReplicaOutcome::NoDevice => InitRunError::ModelLoad(ModelLoadError::NoDeviceForRank(rank)),
        ReplicaOutcome::Failed(e) => InitRunError::ModelLoad(e),
        ReplicaOutcome::Crashed(m) => InitRunError::ModelLoadingThreadCrashed(m),
        ReplicaOutcome::Loaded => InitRunError::ModelLoad(ModelLoadError::NoDeviceForRank(rank)),
    }
}

/// The error reported for a Python model that did not load.
pub open spec fn python_error(outcome: PythonOutcome, distributed: bool) -> InitRunError
    recommends
        !(outcome is Loaded),
{
    match outcome {
        PythonOutcome::NoDevice => InitRunError::ModelLoad(ModelLoadError::NoDeviceForRank(0)),
        PythonOutcome::SourceRejected(e) => e,
        PythonOutcome::Failed(m) => if distributed {
            InitRunError::PythonDistributedError(m)
        } else {
            InitRunError::PythonModelError(m)
        },
        PythonOutcome::Crashed(m) => InitRunError::ModelLoadingThreadCrashed(m),
        PythonOutcome::Loaded => InitRunError::ModelLoad(ModelLoadError::NoDeviceForRank(0)),
    }
}

/// Whether an action is a failure of the loading task itself.
pub open spec fn is_crash(action: ModelAction) -> bool {
    action matches ModelAction::Failed(InitRunError::ModelLoadingThreadCrashed(_))
}

fn crashed(message: &str) -> (action: ModelAction)
    ensures
        is_crash(action),
{
    ModelAction::Failed(InitRunError::ModelLoadingThreadCrashed(String::from_str(message)))
}

impl ModelLoader {
    /// The loader's stage agrees with its checkpoint and parallelism, it
    /// holds a tokenizer from the moment it has one to publish, and it loads
    /// as many replicas as the grid has slots.
    pub open spec fn wf(self) -> bool {
        match self.stage {
            ModelStage::CheckingLocal => self.config.checkpoint matches Checkpoint::Hub { revision: None, .. },
            ModelStage::ListingLocal | ModelStage::Downloading | ModelStage::LoadingTokenizer => self.config.checkpoint is Hub,
            ModelStage::AwaitingConfig => self.config.checkpoint is P2P,
            ModelStage::ParsingConfig | ModelStage::AwaitingParameters => self.config.checkpoint is P2P
                && self.tokenizer is Some,
            ModelStage::SerializingDummy => self.config.checkpoint is Dummy && self.tokenizer is Some,
            ModelStage::Serializing => !(self.config.checkpoint is Dummy) && self.tokenizer is Some,
            ModelStage::LoadingReplicas { count } => !(self.config.checkpoint is Dummy) && self.tokenizer is Some
                && count == self.config.data_parallelism * self.config.tensor_parallelism,
            ModelStage::LoadingPython { distributed } => !(self.config.checkpoint is Dummy) && self.tokenizer is Some
                && distributed == (self.config.data_parallelism != 1 || self.config.tensor_parallelism != 1),
            ModelStage::SerializingTokenizer { source } => !(self.config.checkpoint is Dummy)
                && self.tokenizer is Some && !(source is Dummy),
            ModelStage::Uploading { source } => self.tokenizer is Some && (source is Dummy
                <==> self.config.checkpoint is Dummy),
            ModelStage::Done => true,
        }
    }

    /// The parts of the loader that its methods keep.
    pub open spec fn keeps(self, other: ModelLoader) -> bool {
        &&& other.config == self.config
        &&& other.dummy_models == self.dummy_models
        &&& other.dummy_tokenizer_json == self.dummy_tokenizer_json
    }

    /// The evaluation runner of the loaded model.
    pub open spec fn task_runner_plan(self) -> TaskRunnerPlan {
        if self.config.checkpoint is Dummy {
            TaskRunnerPlan {
                with_eval_tasks: false,
                prompt_task: false,
                eval_task_max_docs: None,
                data_parallelism: 0,
            }
        } else {
            TaskRunnerPlan {
                with_eval_tasks: true,
                prompt_task: self.config.prompt_task,
                eval_task_max_docs: self.config.eval_task_max_docs,
                data_parallelism: spec_inference_data_parallelism(
                    self.config.data_parallelism,
                    self.config.architecture,
                ),
            }
        }
    }

    /// The evaluation runner of a loaded model: dummy models run no
    /// evaluation on no rank; any other model runs the configured tasks, with
    /// the configured prompt task and document limit, on every configured
    /// data-parallel rank, except the automatically mapped architecture,
    /// which evaluates on one rank when more than one is configured.
    pub proof fn lemma_task_runner_follows_configuration(loader: ModelLoader)
        ensures
            loader.config.checkpoint is Dummy ==> loader.task_runner_plan() == (TaskRunnerPlan {
                with_eval_tasks: false,
                prompt_task: false,
                eval_task_max_docs: None,
                data_parallelism: 0,
            }),
            !(loader.config.checkpoint is Dummy) ==> {
                &&& loader.task_runner_plan().with_eval_tasks
                &&& loader.task_runner_plan().prompt_task == loader.config.prompt_task
                &&& loader.task_runner_plan().eval_task_max_docs == loader.config.eval_task_max_docs
                &&& loader.config.architecture != LlmArchitecture::HfAuto ==> loader.task_runner_plan().data_parallelism
                    == loader.config.data_parallelism
                &&& loader.config.architecture == LlmArchitecture::HfAuto ==> loader.task_runner_plan().data_parallelism
                    == if loader.config.data_parallelism > 1 {
                    1
                } else {
                    loader.config.data_parallelism
                }
            },
    {
    }

    /// A download that the loader starts with asks for the checkpoint's
    /// repository at the checkpoint's revision, with the node's hub token and
    /// download concurrency; a hub checkpoint without a revision is first
    /// looked for locally under its repository name.
    pub proof fn lemma_start_downloads_with_node_settings(
        config: ModelLoadConfig,
        loader: ModelLoader,
        action: ModelAction,
    )
        requires
            Self::started(config, loader, action),
        ensures
            action matches ModelAction::DownloadRepo { repo_id, revision, hub_read_token, max_concurrent_downloads } ==> {
                &&& config.checkpoint == (Checkpoint::Hub { repo_id, revision })
                &&& revision is Some
                &&& hub_read_token == config.hub_read_token
                &&& max_concurrent_downloads == config.hub_max_concurrent_downloads
            },
            action matches ModelAction::CheckLocalRepo { path } ==> config.checkpoint == (Checkpoint::Hub {
                repo_id: path,
                revision: None,
            }),
            config.checkpoint matches Checkpoint::Hub { revision: Some(_), .. } ==> action is DownloadRepo,
    {
    }

    /// A loader for a dummy checkpoint never waits on the disk, the hub or
    /// the peers: it only serializes and publishes the configuration of the
    /// dummy model, then is done.
    pub proof fn lemma_dummy_loader_stays_offline(loader: ModelLoader)
        requires
            loader.wf(),
            loader.config.checkpoint is Dummy,
        ensures
            loader.stage == ModelStage::SerializingDummy || loader.stage == ModelStage::Done
                || loader.stage matches ModelStage::Uploading { source: ModelSource::Dummy { .. } },
    {
    }

    /// Whether `loader` and `action` are how loading starts for `config`.
    pub open spec fn started(config: ModelLoadConfig, loader: ModelLoader, action: ModelAction) -> bool {
        &&& loader.config == config
        &&& loader.wf()
        &&& loader.extra_files@ == Seq::<usize>::empty()
        &&& match config.checkpoint {
            Checkpoint::Dummy => if config.data_parallelism * config.tensor_parallelism <= usize::MAX {
                &&& loader.stage == ModelStage::SerializingDummy
                &&& loader.dummy_models == config.data_parallelism * config.tensor_parallelism
                &&& loader.dummy_tokenizer_json@ == dummy_tokenizer_json_text()
                &&& action == (ModelAction::SerializeConfig { dummy: true })
            } else {
                loader.stage == ModelStage::Done && is_crash(action)
            },
            Checkpoint::Hub { repo_id, revision } => match revision {
                None => loader.stage == ModelStage::CheckingLocal && action == (ModelAction::CheckLocalRepo {
                    path: repo_id,
                }),
                Some(_) => loader.stage == ModelStage::Downloading && action == (ModelAction::DownloadRepo {
                    repo_id,
                    revision,
                    hub_read_token: config.hub_read_token,
                    max_concurrent_downloads: config.hub_max_concurrent_downloads,
                }),
            },
            Checkpoint::P2P => loader.stage == ModelStage::AwaitingConfig && action
                == ModelAction::RequestModelConfig,
            Checkpoint::Ephemeral => false,
        }
    }

    fn done(&mut self, action: ModelAction) -> (r: ModelAction)
        ensures
            r == action,
            final(self).stage == ModelStage::Done,
            final(self).config == old(self).config,
            final(self).dummy_models == old(self).dummy_models,
            final(self).dummy_tokenizer_json == old(self).dummy_tokenizer_json,
            final(self).extra_files == old(self).extra_files,
            final(self).tokenizer == old(self).tokenizer,
            final(self).serialized_config == old(self).serialized_config,
    {
        self.stage = ModelStage::Done;
        action
    }

    /// The first action for a model whose checkpoint can be joined.
    pub fn start(config: ModelLoadConfig) -> (res: (ModelLoader, ModelAction))
        requires
            !(config.checkpoint is Ephemeral),
        ensures
            Self::started(config, res.0, res.1),
            res.1 matches ModelAction::DownloadRepo { hub_read_token, max_concurrent_downloads, .. } ==> {
                &&& hub_read_token == config.hub_read_token
                &&& max_concurrent_downloads == config.hub_max_concurrent_downloads
            },
            config.checkpoint matches Checkpoint::Hub { revision: Some(_), .. } ==> res.1 is DownloadRepo,
    {
        let mut stage = ModelStage::Done;
        let mut tokenizer: Option<Tokenizer> = None;
        let mut dummy_tokenizer_json = String::new();
        let mut dummy_models: usize = 0;
        let action = match &config.checkpoint {
            Checkpoint::Dummy => {
                match config.data_parallelism.checked_mul(config.tensor_parallelism) {
                    None => crashed("the dummy model count overflows"),
                    Some(count) => match empty_word_level_tokenizer() {
                        Ok((t, json)) => {
                            tokenizer = Some(t);
                            dummy_tokenizer_json = json;
                            dummy_models = count;
                            stage = ModelStage::SerializingDummy;
                            ModelAction::SerializeConfig { dummy: true }
                        },
                        Err(_) => {
                            proof {
                                assert(false);
                            }
                            crashed("the dummy tokenizer could not be built")
                        },
                    },
                }
            },
            Checkpoint::Hub { repo_id, revision } => match revision {
                None => {
                    stage = ModelStage::CheckingLocal;
                    ModelAction::CheckLocalRepo { path: repo_id.clone() }
                },
                Some(_) => {
                    stage = ModelStage::Downloading;
                    ModelAction::DownloadRepo {
                        repo_id: repo_id.clone(),
                        revision: revision.clone(),
                        hub_read_token: config.hub_read_token.clone(),
                        max_concurrent_downloads: config.hub_max_concurrent_downloads,
                    }
                },
            },
            Checkpoint::P2P => {
                stage = ModelStage::AwaitingConfig;
                ModelAction::RequestModelConfig
            },
            Checkpoint::Ephemeral => {
                proof {
                    assert(false);
                }
                ModelAction::Failed(InitRunError::ModelIsEphemeral)
            },
        };
        let loader = ModelLoader {
            stage,
            config,
            extra_files: Vec::new(),
            tokenizer,
            dummy_tokenizer_json,
            serialized_config: String::new(),
            dummy_models,
        };
        (loader, action)
    }

    /// Takes whether the local model directory exists.
    pub fn on_local_exists(&mut self, exists: bool) -> (action: ModelAction)
        requires
            old(self).wf(),
            old(self).stage == ModelStage::CheckingLocal,
        ensures
            action matches ModelAction::DownloadRepo { hub_read_token, max_concurrent_downloads, .. } ==> {
                &&& hub_read_token == old(self).config.hub_read_token
                &&& max_concurrent_downloads == old(self).config.hub_max_concurrent_downloads
            },
            !exists ==> action is DownloadRepo,
            final(self).tokenizer == old(self).tokenizer,
            final(self).wf(),
            old(self).keeps(*final(self)),
            final(self).extra_files == old(self).extra_files,
            (old(self).config.checkpoint matches Checkpoint::Hub { repo_id, revision } && if exists {
                final(self).stage == ModelStage::ListingLocal && action == (ModelAction::ListLocalRepo {
                    path: repo_id,
                })
            } else {
                final(self).stage == ModelStage::Downloading && action == (ModelAction::DownloadRepo {
                    repo_id,
                    revision,
                    hub_read_token: old(self).config.hub_read_token,
                    max_concurrent_downloads: old(self).config.hub_max_concurrent_downloads,
                })
            }),
    {
        let action = match &self.config.checkpoint {
            Checkpoint::Hub { repo_id, revision } => {
                if exists {
                    ModelAction::ListLocalRepo { path: repo_id.clone() }
                } else {
                    ModelAction::DownloadRepo {
                        repo_id: repo_id.clone(),
                        revision: revision.clone(),
                        hub_read_token: self.config.hub_read_token.clone(),
                        max_concurrent_downloads: self.config.hub_max_concurrent_downloads,
                    }
                }
            },
            _ => {
                proof {
                    assert(false);
                }
                ModelAction::LoadTokenizer
            },
        };
        self.stage = if exists { ModelStage::ListingLocal } else { ModelStage::Downloading };
        action
    }

    /// Takes the last path component of each file of the model repository,
    /// or the message of the error that listing the local directory (a
    /// local read error) or downloading the repository (a hub error) gave.
    pub fn on_listed(&mut self, listed: Result<Vec<Option<String>>, String>) -> (action: ModelAction)
        requires
            old(self).wf(),
            old(self).stage == ModelStage::ListingLocal || old(self).stage == ModelStage::Downloading,
        ensures
            final(self).tokenizer == old(self).tokenizer,
            final(self).wf(),
            old(self).keeps(*final(self)),
            match listed {
                Err(m) => final(self).stage == ModelStage::Done && action == ModelAction::Failed(
                    if old(self).stage == ModelStage::ListingLocal {
                        InitRunError::LocalModelLoad(m)
                    } else {
                        InitRunError::HfModelLoad(m)
                    },
                ),
                Ok(names) => final(self).stage == ModelStage::LoadingTokenizer && action
                    == ModelAction::LoadTokenizer && selects_extra_files(names@, final(self).extra_files@),
            },
    {
        match listed {
            Err(m) => {
                let e = if self.stage == ModelStage::ListingLocal {
                    InitRunError::LocalModelLoad(m)
                } else {
                    InitRunError::HfModelLoad(m)
                };
                self.done(ModelAction::Failed(e))
            },
            Ok(names) => {
                self.extra_files = checkpoint_extra_files(&names);
                self.stage = ModelStage::LoadingTokenizer;
                ModelAction::LoadTokenizer
            },
        }
    }

    /// Takes the tokenizer loaded from the repository files, or the message
    /// of the tokenizer error.
    pub fn on_tokenizer_loaded(&mut self, loaded: Result<Tokenizer, String>) -> (action: ModelAction)
        requires
            old(self).wf(),
            old(self).stage == ModelStage::LoadingTokenizer,
        ensures
            final(self).wf(),
            old(self).keeps(*final(self)),
            final(self).extra_files == old(self).extra_files,
            match loaded {
                Err(m) => final(self).stage == ModelStage::Done && action == ModelAction::Failed(
                    InitRunError::TokenizerLoad(m),
                ),
                Ok(t) => final(self).stage == ModelStage::Serializing && final(self).tokenizer == Some(t)
                    && action == (ModelAction::SerializeConfig { dummy: false }),
            },
    {
        match loaded {
            Err(m) => self.done(ModelAction::Failed(InitRunError::TokenizerLoad(m))),
            Ok(t) => {
                self.tokenizer = Some(t);
                self.stage = ModelStage::Serializing;
                ModelAction::SerializeConfig { dummy: false }
            },
        }
    }

    /// Takes the configuration text and tokenizer received from peers;
    /// `None` when the request could not be answered.
    pub fn on_model_config(&mut self, received: Option<(String, Tokenizer)>) -> (action: ModelAction)
        requires
            old(self).wf(),
            old(self).stage == ModelStage::AwaitingConfig,
        ensures
            final(self).wf(),
            old(self).keeps(*final(self)),
            final(self).extra_files == old(self).extra_files,
            match received {
                None => final(self).stage == ModelStage::Done && is_crash(action),
                Some((json, t)) => match old(self).config.architecture {
                    LlmArchitecture::HfLlama => final(self).stage == ModelStage::ParsingConfig && final(self).tokenizer
                        == Some(t) && action == (ModelAction::ParseModelConfig {
                        format: ConfigFormat::Llama,
                        json,
                    }),
                    LlmArchitecture::HfDeepseek => final(self).stage == ModelStage::ParsingConfig
                        && final(self).tokenizer == Some(t) && action == (ModelAction::ParseModelConfig {
                        format: ConfigFormat::Deepseek,
                        json,
                    }),
                    arch => if old(self).config.python_backend {
                        final(self).stage == ModelStage::ParsingConfig && final(self).tokenizer == Some(t)
                            && action == (ModelAction::ParseModelConfig { format: ConfigFormat::Python, json })
                    } else {
                        final(self).stage == ModelStage::Done && action == ModelAction::Failed(
                            InitRunError::UnsupportedArchitecture(arch),
                        )
                    },
                },
            },
    {
        match received {
            None => self.done(crashed("the model configuration request was not answered")),
            Some((json, t)) => {
                self.tokenizer = Some(t);
                match self.config.architecture {
                    LlmArchitecture::HfLlama => {
                        self.stage = ModelStage::ParsingConfig;
                        ModelAction::ParseModelConfig { format: ConfigFormat::Llama, json }
                    },
                    LlmArchitecture::HfDeepseek => {
                        self.stage = ModelStage::ParsingConfig;
                        ModelAction::ParseModelConfig { format: ConfigFormat::Deepseek, json }
                    },
                    arch => {
                        if self.config.python_backend {
                            self.stage = ModelStage::ParsingConfig;
                            ModelAction::ParseModelConfig { format: ConfigFormat::Python, json }
                        } else {
                            self.done(ModelAction::Failed(InitRunError::UnsupportedArchitecture(arch)))
                        }
                    },
                }
            },
        }
    }

    /// Takes whether the received configuration could be read, or the
    /// message of the parse error.
    pub fn on_config_parsed(&mut self, parsed: Result<(), String>) -> (action: ModelAction)
        requires
            old(self).wf(),
            old(self).stage == ModelStage::ParsingConfig,
        ensures
            final(self).tokenizer == old(self).tokenizer,
            final(self).wf(),
            old(self).keeps(*final(self)),
            final(self).extra_files == old(self).extra_files,
            match parsed {
                Err(m) => final(self).stage == ModelStage::Done && action == ModelAction::Failed(
                    InitRunError::FailedToParseConfig(m),
                ),
                Ok(_) => final(self).stage == ModelStage::AwaitingParameters && action
                    == ModelAction::RequestParameters,
            },
    {
        match parsed {
            Err(m) => self.done(ModelAction::Failed(InitRunError::FailedToParseConfig(m))),
            Ok(()) => {
                self.stage = ModelStage::AwaitingParameters;
                ModelAction::RequestParameters
            },
        }
    }

    /// Takes whether the parameters were received from peers.
    pub fn on_parameters(&mut self, received: bool) -> (action: ModelAction)
        requires
            old(self).wf(),
            old(self).stage == ModelStage::AwaitingParameters,
        ensures
            final(self).tokenizer == old(self).tokenizer,
            final(self).wf(),
            old(self).keeps(*final(self)),
            final(self).extra_files == old(self).extra_files,
            received ==> final(self).stage == ModelStage::Serializing && action == (
            ModelAction::SerializeConfig { dummy: false }),
            !received ==> final(self).stage == ModelStage::Done && is_crash(action),
    {
        if received {
            self.stage = ModelStage::Serializing;
            ModelAction::SerializeConfig { dummy: false }
        } else {
            self.done(crashed("the parameter request was not answered"))
        }
    }

    /// Takes the serialized configuration to publish, or the error that
    /// the serializer's error converts to.
    pub fn on_serialized(&mut self, serialized: Result<String, InitRunError>) -> (action: ModelAction)
        requires
            old(self).wf(),
            old(self).stage == ModelStage::SerializingDummy || old(self).stage == ModelStage::Serializing,
            serialized matches Err(e) ==> is_converted_error(e),
        ensures
            final(self).tokenizer == old(self).tokenizer,
            final(self).wf(),
            old(self).keeps(*final(self)),
            final(self).extra_files == old(self).extra_files,
            serialized matches Err(e) ==> final(self).stage == ModelStage::Done && action == ModelAction::Failed(e),
            serialized matches Ok(config) ==> (old(self).stage == ModelStage::SerializingDummy ==> {
                &&& final(self).stage == (ModelStage::Uploading {
                    source: ModelSource::Dummy {
                        count: old(self).dummy_models,
                        training_delay_secs: old(self).config.dummy_training_delay_secs,
                    },
                })
                &&& action == (ModelAction::UploadConfig { config, tokenizer: old(self).dummy_tokenizer_json })
            }),
            serialized matches Ok(config) ==> (old(self).stage == ModelStage::Serializing ==> {
                let cfg = old(self).config;
                let dp = cfg.data_parallelism;
                let tp = cfg.tensor_parallelism;
                let attention = spec_attention(cfg.data_type, cfg.parallelism_backend);
                if is_python_architecture(cfg.architecture) {
                    if cfg.python_backend {
                        let distributed = dp != 1 || tp != 1;
                        &&& final(self).stage == (ModelStage::LoadingPython { distributed })
                        &&& final(self).serialized_config == config
                        &&& action == (ModelAction::LoadPythonModel {
                            distributed,
                            architecture: cfg.architecture,
                            attention,
                            data_parallelism: dp,
                            tensor_parallelism: tp,
                            max_seq_len: cfg.max_seq_len as usize,
                            sidecar_port: cfg.sidecar_port,
                        })
                    } else {
                        final(self).stage == ModelStage::Done && action == ModelAction::Failed(
                            InitRunError::UnsupportedArchitecture(cfg.architecture),
                        )
                    }
                } else if dp * tp > usize::MAX || (dp > 0 && tp > 1 && !cfg.parallelism_backend) {
                    final(self).stage == ModelStage::Done && is_crash(action)
                } else {
                    &&& final(self).stage == (ModelStage::LoadingReplicas { count: (dp * tp) as usize })
                    &&& final(self).serialized_config == config
                    &&& action matches ModelAction::LoadReplicas { jobs, attention: a, max_seq_len }
                    &&& a == attention
                    &&& max_seq_len == cfg.max_seq_len as usize
                    &&& jobs.len() == dp * tp
                    &&& forall|i: int| 0 <= i < jobs.len() ==> #[trigger] jobs[i] == (ReplicaJob {
                        slot: slot_at(tp as nat, i as nat),
                        tensor_parallel: tp > 1,
                    })
                }
            }),
    {
        let config = match serialized {
            Err(e) => return self.done(ModelAction::Failed(e)),
            Ok(config) => config,
        };
        if self.stage == ModelStage::SerializingDummy {
            self.stage = ModelStage::Uploading {
                source: ModelSource::Dummy {
                    count: self.dummy_models,
                    training_delay_secs: self.config.dummy_training_delay_secs,
                },
            };
            return ModelAction::UploadConfig { config, tokenizer: self.dummy_tokenizer_json.clone() };
        }
        let attention = attention_implementation(self.config.data_type, self.config.parallelism_backend);
        let arch = self.config.architecture;
        let dp = self.config.data_parallelism;
        let tp = self.config.tensor_parallelism;
        if arch == LlmArchitecture::HfAuto || arch == LlmArchitecture::Torchtitan {
            if !self.config.python_backend {
                return self.done(ModelAction::Failed(InitRunError::UnsupportedArchitecture(arch)));
            }
            let distributed = dp != 1 || tp != 1;
            self.serialized_config = config;
            self.stage = ModelStage::LoadingPython { distributed };
            return ModelAction::LoadPythonModel {
                distributed,
                architecture: arch,
                attention,
                data_parallelism: dp,
                tensor_parallelism: tp,
                max_seq_len: self.config.max_seq_len as usize,
                sidecar_port: self.config.sidecar_port,
            };
        }
        let count = match dp.checked_mul(tp) {
            None => return self.done(crashed("the replica count overflows")),
            Some(count) => count,
        };
        if dp > 0 && tp > 1 && !self.config.parallelism_backend {
            return self.done(crashed("tensor parallelism needs the multi-device backend"));
        }
        let slots = rank_slots(dp, tp);
        let mut jobs: Vec<ReplicaJob> = Vec::new();
        let mut i: usize = 0;
        while i < slots.len()
            invariant
                i <= slots.len(),
                slots.len() == dp * tp,
                forall|j: int| 0 <= j < slots.len() ==> #[trigger] slots[j] == slot_at(tp as nat, j as nat),
                jobs.len() == i,
                forall|j: int| 0 <= j < i ==> #[trigger] jobs[j] == (ReplicaJob {
                    slot: slot_at(tp as nat, j as nat),
                    tensor_parallel: tp > 1,
                }),
            decreases slots.len() - i,
        {
            jobs.push(ReplicaJob { slot: slots[i], tensor_parallel: tp > 1 });
            i = i + 1;
        }
        self.serialized_config = config;
        self.stage = ModelStage::LoadingReplicas { count };
        ModelAction::LoadReplicas { jobs, attention, max_seq_len: self.config.max_seq_len as usize }
    }

    /// Takes the outcome of loading each native replica, in rank order.
    pub fn on_replicas_loaded(&mut self, outcomes: Vec<ReplicaOutcome>) -> (action: ModelAction)
        requires
            old(self).wf(),
            old(self).stage matches ModelStage::LoadingReplicas { count } && outcomes.len() == count,
        ensures
            final(self).tokenizer == old(self).tokenizer,
            final(self).wf(),
            old(self).keeps(*final(self)),
            final(self).extra_files == old(self).extra_files,
            final(self).serialized_config == old(self).serialized_config,
            forall|k: int|
                0 <= k < outcomes.len() && !(outcomes[k] is Loaded) && (forall|j: int|
                    0 <= j < k ==> #[trigger] outcomes[j] is Loaded) ==> final(self).stage == ModelStage::Done
                    && action == ModelAction::Failed(#[trigger] replica_error(outcomes[k], k as usize)),
            (forall|j: int| 0 <= j < outcomes.len() ==> #[trigger] outcomes[j] is Loaded) ==> final(self).stage
                == (ModelStage::SerializingTokenizer {
                source: ModelSource::Native { replicas: outcomes.len() },
            }) && action == ModelAction::SerializeTokenizer,
    {
        let n = outcomes.len();
        let mut k: usize = 0;
        while k < n
            invariant
                *self == *old(self),
                old(self).wf(),
                n == outcomes.len(),
                k <= n,
                forall|j: int| 0 <= j < k ==> #[trigger] outcomes[j] is Loaded,
            decreases n - k,
        {
            match &outcomes[k] {
                ReplicaOutcome::Loaded => {},
                ReplicaOutcome::NoDevice => {
                    return self.done(ModelAction::Failed(InitRunError::ModelLoad(ModelLoadError::NoDeviceForRank(k))));
                },
                ReplicaOutcome::Failed(e) => {
                    return self.done(ModelAction::Failed(InitRunError::ModelLoad(e.duplicate())));
                },
                ReplicaOutcome::Crashed(m) => {
                    return self.done(ModelAction::Failed(InitRunError::ModelLoadingThreadCrashed(m.clone())));
                },
            }
            k = k + 1;
        }
        self.stage = ModelStage::SerializingTokenizer { source: ModelSource::Native { replicas: n } };
        ModelAction::SerializeTokenizer
    }

    /// Takes the outcome of loading the model through the Python backend.
    pub fn on_python_loaded(&mut self, outcome: PythonOutcome) -> (action: ModelAction)
        requires
            old(self).wf(),
            old(self).stage is LoadingPython,
            outcome matches PythonOutcome::SourceRejected(e) ==> is_converted_error(e),
            old(self).stage matches ModelStage::LoadingPython { distributed } && (distributed ==> !(
            outcome is NoDevice)),
        ensures
            final(self).tokenizer == old(self).tokenizer,
            final(self).wf(),
            old(self).keeps(*final(self)),
            final(self).extra_files == old(self).extra_files,
            final(self).serialized_config == old(self).serialized_config,
            old(self).stage matches ModelStage::LoadingPython { distributed } && if outcome is Loaded {
                final(self).stage == (ModelStage::SerializingTokenizer {
                    source: ModelSource::Python { distributed },
                }) && action == ModelAction::SerializeTokenizer
            } else {
                final(self).stage == ModelStage::Done && action == ModelAction::Failed(
                    python_error(outcome, distributed),
                )
            },
    {
        let distributed = match self.stage {
            ModelStage::LoadingPython { distributed } => distributed,
            _ => {
                proof {
                    assert(false);
                }
                false
            },
        };
        let error = match outcome {
            PythonOutcome::Loaded => {
                self.stage = ModelStage::SerializingTokenizer { source: ModelSource::Python { distributed } };
                return ModelAction::SerializeTokenizer;
            },
            PythonOutcome::NoDevice => InitRunError::ModelLoad(ModelLoadError::NoDeviceForRank(0)),
            PythonOutcome::SourceRejected(e) => e,
            PythonOutcome::Failed(m) => if distributed {
                InitRunError::PythonDistributedError(m)
            } else {
                InitRunError::PythonModelError(m)
            },
            PythonOutcome::Crashed(m) => InitRunError::ModelLoadingThreadCrashed(m),
        };
        self.done(ModelAction::Failed(error))
    }

    /// Takes the compact JSON form of the loader's tokenizer, or the
    /// message of the serializer's error, which crashes the loading task.
    pub fn on_tokenizer_serialized(&mut self, serialized: Result<String, String>) -> (action: ModelAction)
        requires
            old(self).wf(),
            old(self).stage is SerializingTokenizer,
        ensures
            final(self).tokenizer == old(self).tokenizer,
            final(self).wf(),
            old(self).keeps(*final(self)),
            final(self).extra_files == old(self).extra_files,
            match serialized {
                Err(m) => final(self).stage == ModelStage::Done && action == ModelAction::Failed(
                    InitRunError::ModelLoadingThreadCrashed(m),
                ),
                Ok(json) => (old(self).stage matches ModelStage::SerializingTokenizer { source }
                    && final(self).stage == (ModelStage::Uploading { source }) && action == (
                ModelAction::UploadConfig { config: old(self).serialized_config, tokenizer: json })),
            },
    {
        match serialized {
            Err(m) => self.done(ModelAction::Failed(InitRunError::ModelLoadingThreadCrashed(m))),
            Ok(json) => {
                let source = match self.stage {
                    ModelStage::SerializingTokenizer { source } => source,
                    _ => {
                        proof {
                            assert(false);
                        }
                        ModelSource::Native { replicas: 0 }
                    },
                };
                self.stage = ModelStage::Uploading { source };
                ModelAction::UploadConfig { config: self.serialized_config.clone(), tokenizer: json }
            },
        }
    }

    /// Takes whether the configuration and tokenizer were published.
    pub fn on_uploaded(&mut self, sent: bool) -> (action: ModelAction)
        requires
            old(self).wf(),
            old(self).stage is Uploading,
        ensures
            final(self).wf(),
            old(self).keeps(*final(self)),
            final(self).stage == ModelStage::Done,
            !sent ==> is_crash(action),
            sent ==> (action matches ModelAction::Loaded(model) && {
                &&& old(self).stage == (ModelStage::Uploading { source: model.source })
                &&& old(self).tokenizer == Some(model.tokenizer)
                &&& model.checkpoint_extra_files == old(self).extra_files
                &&& model.task_runner == old(self).task_runner_plan()
            }),
    {
        if !sent {
            return self.done(crashed("the model configuration could not be published"));
        }
        let source = match self.stage {
            ModelStage::Uploading { source } => source,
            _ => {
                proof {
                    assert(false);
                }
                ModelSource::Native { replicas: 0 }
            },
        };
        let tokenizer = match self.tokenizer.take() {
            Some(t) => t,
            None => {
                proof {
                    assert(false);
                }
                return self.done(crashed("no tokenizer was loaded"));
            },
        };
        let mut extra_files: Vec<usize> = Vec::new();
        std::mem::swap(&mut extra_files, &mut self.extra_files);
        let is_dummy = match &self.config.checkpoint {
            Checkpoint::Dummy => true,
            _ => false,
        };
        let task_runner = if is_dummy {
            TaskRunnerPlan { with_eval_tasks: false, prompt_task: false, eval_task_max_docs: None, data_parallelism: 0 }
        } else {
            TaskRunnerPlan {
                with_eval_tasks: true,
                prompt_task: self.config.prompt_task,
                eval_task_max_docs: self.config.eval_task_max_docs,
                data_parallelism: inference_data_parallelism(self.config.data_parallelism, self.config.architecture),
            }
        };
        self.stage = ModelStage::Done;
        ModelAction::Loaded(LoadedModel { source, tokenizer, checkpoint_extra_files: extra_files, task_runner })
    }
}

} // verus!
