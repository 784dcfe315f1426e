//! Starting a run: the checks made before any work begins, the three
//! branches (data provider, model, metrics run) set off together, and how
//! their outcomes combine into the trainers of the node.
use vstd::prelude::*;
use crate::data::{DataAction, DataPlanner};
use crate::error::{InitRunError, ModelLoadError};
use crate::grid::{
    contents, grid_row, grid_slots, group_end, group_models, group_start, is_grouping,
    lemma_groups_are_data_parallel_rows, RankSlot,
};
use crate::model_load::{LoadedModel, ModelAction, ModelLoadConfig, ModelLoader};
use crate::types::{CoordinatorView, LlmSpec, RunInitConfig};
use crate::wandb::{spec_wandb_run_plan, wandb_run_plan, WandbRunPlan};

verus! {

/// What the model loader reads of the node's configuration and the model.
pub open spec fn model_load_config(config: RunInitConfig, llm: LlmSpec) -> ModelLoadConfig {
    ModelLoadConfig {
        architecture: llm.architecture,
        checkpoint: llm.checkpoint,
        data_type: llm.data_type,
        max_seq_len: llm.max_seq_len,
        data_parallelism: config.data_parallelism,
        tensor_parallelism: config.tensor_parallelism,
        dummy_training_delay_secs: config.dummy_training_delay_secs,
        hub_read_token: config.hub_read_token,
        hub_max_concurrent_downloads: config.hub_max_concurrent_downloads,
        eval_task_max_docs: config.eval_task_max_docs,
        prompt_task: config.prompt_task,
        sidecar_port: config.sidecar_port,
        parallelism_backend: config.parallelism_backend,
        python_backend: config.python_backend,
    }
}

/// The model loader works with the node's own settings and the
/// coordinator's model, field by field: the loader's data parallelism is
/// the node's data parallelism, its tensor parallelism the node's tensor
/// parallelism, and likewise for every other setting.
pub proof fn lemma_loader_follows_node_settings(config: RunInitConfig, llm: LlmSpec)
    ensures
        model_load_config(config, llm).data_parallelism == config.data_parallelism,
        model_load_config(config, llm).tensor_parallelism == config.tensor_parallelism,
        model_load_config(config, llm).dummy_training_delay_secs == config.dummy_training_delay_secs,
        model_load_config(config, llm).hub_read_token == config.hub_read_token,
        model_load_config(config, llm).hub_max_concurrent_downloads == config.hub_max_concurrent_downloads,
        model_load_config(config, llm).eval_task_max_docs == config.eval_task_max_docs,
        model_load_config(config, llm).prompt_task == config.prompt_task,
        model_load_config(config, llm).sidecar_port == config.sidecar_port,
        model_load_config(config, llm).parallelism_backend == config.parallelism_backend,
        model_load_config(config, llm).python_backend == config.python_backend,
        model_load_config(config, llm).architecture == llm.architecture,
        model_load_config(config, llm).checkpoint == llm.checkpoint,
        model_load_config(config, llm).data_type == llm.data_type,
        model_load_config(config, llm).max_seq_len == llm.max_seq_len,
{
}

/// The three branches of a start, each with its first action.
#[derive(Debug)]
pub struct InitStart {
    pub data: DataPlanner,
    pub data_action: DataAction,
    pub model: ModelLoader,
    pub model_action: ModelAction,
    /// The metrics run to create, if any.
    pub wandb: Option<WandbRunPlan>,
}

/// The checks made before any work begins, in this order: the configured
/// device is available, the coordinator holds a model, and that model
/// keeps a checkpoint that a node can join. Then the data provider, the
/// model and the metrics run are started.
pub fn begin(config: &RunInitConfig, device_available: bool, coordinator: &CoordinatorView) -> (r: Result<
    InitStart,
    InitRunError,
>)
    ensures
        !device_available ==> r == Err::<InitStart, InitRunError>(
            InitRunError::ModelLoad(ModelLoadError::UnavailableDevice),
        ),
        device_available && coordinator.model is None ==> r == Err::<InitStart, InitRunError>(
            InitRunError::NoModel,
        ),
        device_available && (coordinator.model matches Some(llm) && llm.checkpoint is Ephemeral) ==> r
            == Err::<InitStart, InitRunError>(InitRunError::ModelIsEphemeral),
        device_available ==> (coordinator.model matches Some(llm) ==> (!(llm.checkpoint is Ephemeral) ==> (
        r matches Ok(s) && {
            &&& DataPlanner::started(
                llm.data_location,
                llm.max_seq_len,
                config.hub_read_token,
                config.hub_max_concurrent_downloads,
                s.data,
                s.data_action,
            )
            &&& ModelLoader::started(model_load_config(*config, llm), s.model, s.model_action)
            &&& s.wandb == spec_wandb_run_plan(config.wandb_info, coordinator.run_id, coordinator.settings)
        }))),
        r matches Ok(s) ==> {
            &&& s.model.config.data_parallelism == config.data_parallelism
            &&& s.model.config.tensor_parallelism == config.tensor_parallelism
            &&& s.model.config.dummy_training_delay_secs == config.dummy_training_delay_secs
            &&& s.model.config.hub_read_token == config.hub_read_token
            &&& s.model.config.hub_max_concurrent_downloads == config.hub_max_concurrent_downloads
            &&& s.model.config.eval_task_max_docs == config.eval_task_max_docs
            &&& s.model.config.prompt_task == config.prompt_task
            &&& s.model.config.sidecar_port == config.sidecar_port
            &&& s.model.config.parallelism_backend == config.parallelism_backend
            &&& s.model.config.python_backend == config.python_backend
            &&& coordinator.model matches Some(llm) && {
                &&& s.model.config.architecture == llm.architecture
                &&& s.model.config.checkpoint == llm.checkpoint
                &&& s.model.config.data_type == llm.data_type
                &&& s.model.config.max_seq_len == llm.max_seq_len
            }
        },
{
    if !device_available {
        return Err(InitRunError::ModelLoad(ModelLoadError::UnavailableDevice));
    }
    let llm = match &coordinator.model {
        None => return Err(InitRunError::NoModel),
        Some(llm) => llm,
    };
    let ephemeral = match &llm.checkpoint {
        crate::types::Checkpoint::Ephemeral => true,
        _ => false,
    };
    if ephemeral {
        return Err(InitRunError::ModelIsEphemeral);
    }
    let (data, data_action) = DataPlanner::start(
        &llm.data_location,
        llm.max_seq_len,
        config.hub_read_token.clone(),
        config.hub_max_concurrent_downloads,
    );
    let load_config = ModelLoadConfig {
        architecture: llm.architecture,
        checkpoint: llm.checkpoint.duplicate(),
        data_type: llm.data_type,
        max_seq_len: llm.max_seq_len,
        data_parallelism: config.data_parallelism,
        tensor_parallelism: config.tensor_parallelism,
        dummy_training_delay_secs: config.dummy_training_delay_secs,
        hub_read_token: config.hub_read_token.clone(),
        hub_max_concurrent_downloads: config.hub_max_concurrent_downloads,
        eval_task_max_docs: config.eval_task_max_docs,
        prompt_task: config.prompt_task,
        sidecar_port: config.sidecar_port,
        parallelism_backend: config.parallelism_backend,
        python_backend: config.python_backend,
    };
    let (model, model_action) = ModelLoader::start(load_config);
    let wandb_info = match &config.wandb_info {
        None => None,
        Some(info) => Some(info.duplicate()),
    };
    let wandb = wandb_run_plan(wandb_info, coordinator.run_id.clone(), coordinator.settings);
    Ok(InitStart { data, data_action, model, model_action, wandb })
}

/// The data-parallel place of a trainer: its rank among `world_size`
/// ranks. The trainer synchronizes with the other ranks once per
/// tensor-parallel replica.
#[derive(Clone, Copy, Debug, PartialEq, Eq, Structural)]
pub struct DataParallelPlan {
    pub rank: usize,
    pub world_size: usize,
}

/// How a trainer drives its models.
#[derive(Clone, Copy, Debug, PartialEq, Eq, Structural)]
pub enum TrainerKind {
    /// Native replicas, synchronized by a barrier of one party per
    /// tensor-parallel rank.
    Native,
    /// One Python model in this process, with no barrier to wait on.
    Python,
    /// One Python model run over all ranks by the backend.
    PythonDistributed,
}

/// One trainer: the models it drives, one per tensor-parallel rank, and
/// its settings.
#[derive(Debug)]
pub struct TrainerPlan<M> {
    pub kind: TrainerKind,
    pub models: Vec<M>,
    pub data_parallel: Option<DataParallelPlan>,
    pub micro_batch_size: usize,
    pub optim_stats_every_n_steps: Option<u32>,
    pub grad_accum_in_fp32: bool,
}

/// The loaded models, as the model branch hands them over.
#[derive(Debug)]
pub enum LoadedModels<M> {
    /// Native replicas (or dummy models), in rank order.
    Native(Vec<M>),
    Python(M),
    PythonDistributed(M),
}

/// A started run: the loaded model, its trainers, how many batches the data
/// fetcher buffers, and whether metrics are reported.
#[derive(Debug)]
pub struct RunPlan<M> {
    pub model: LoadedModel,
    pub trainers: Vec<TrainerPlan<M>>,
    pub data_fetcher_buffer: usize,
    pub has_wandb_run: bool,
}

/// The models driven by each trainer.
pub open spec fn trainer_models<M>(trainers: Seq<TrainerPlan<M>>) -> Seq<Seq<M>> {
    trainers.map_values(|t: TrainerPlan<M>| t.models@)
}

/// Whether a trainer carries the node's training settings.
pub open spec fn has_settings<M>(config: RunInitConfig, trainer: TrainerPlan<M>) -> bool {
    &&& trainer.micro_batch_size == config.micro_batch_size
    &&& trainer.optim_stats_every_n_steps == config.optim_stats_every_n_steps
    &&& trainer.grad_accum_in_fp32 == config.grad_accum_in_fp32
}

/// Whether `trainers` are those of a node with this configuration driving
/// native `models`: one trainer per consecutive group of
/// `tensor_parallelism` models, the trainer of group `g` holding
/// data-parallel rank `g` when more than one rank is configured.
pub open spec fn are_trainers<M>(config: RunInitConfig, models: Seq<M>, trainers: Seq<TrainerPlan<M>>) -> bool {
    &&& is_grouping(models, config.tensor_parallelism as nat, trainer_models(trainers))
    &&& forall|g: int|
        0 <= g < trainers.len() ==> {
            &&& (#[trigger] trainers[g]).kind == TrainerKind::Native
            &&& trainers[g].data_parallel == if config.data_parallelism > 1 {
                Some(DataParallelPlan { rank: g as usize, world_size: config.data_parallelism })
            } else {
                None
            }
            &&& has_settings(config, trainers[g])
        }
}

/// Whether `trainers` is the single trainer of one Python model `model`.
pub open spec fn is_single_trainer<M>(
    config: RunInitConfig,
    kind: TrainerKind,
    model: M,
    trainers: Seq<TrainerPlan<M>>,
) -> bool {
    &&& trainers.len() == 1
    &&& trainers[0].kind == kind
    &&& trainers[0].models@ == seq![model]
    &&& trainers[0].data_parallel is None
    &&& has_settings(config, trainers[0])
}

/// The trainers of native models: one per consecutive group of
/// `tensor_parallelism` models.
pub fn native_trainers<M>(config: &RunInitConfig, models: Vec<M>) -> (trainers: Vec<TrainerPlan<M>>)
    ensures
        are_trainers(*config, models@, trainers@),
{
    let groups = group_models(models, config.tensor_parallelism);
    let ghost grouped = contents(groups@);
    let mut trainers: Vec<TrainerPlan<M>> = Vec::new();
    let mut g: usize = 0;
    let count = groups.len();
    for group in it: groups.into_iter()
        invariant
            it.seq() == groups@,
            count == groups@.len(),
            g <= count,
            g == it.index(),
            grouped == contents(groups@),
            trainers.len() == g,
            forall|k: int| 0 <= k < g ==> (#[trigger] trainers[k]).models@ == grouped[k],
            forall|k: int|
                0 <= k < g ==> {
                    &&& (#[trigger] trainers[k]).kind == TrainerKind::Native
                    &&& trainers[k].data_parallel == if config.data_parallelism > 1 {
                        Some(DataParallelPlan { rank: k as usize, world_size: config.data_parallelism })
                    } else {
                        None
                    }
                    &&& has_settings(*config, trainers[k])
                },
    {
        let data_parallel = if config.data_parallelism > 1 {
            Some(DataParallelPlan { rank: g, world_size: config.data_parallelism })
        } else {
            None
        };
        trainers.push(
            TrainerPlan {
                kind: TrainerKind::Native,
                models: group,
                data_parallel,
                micro_batch_size: config.micro_batch_size,
                optim_stats_every_n_steps: config.optim_stats_every_n_steps,
                grad_accum_in_fp32: config.grad_accum_in_fp32,
            },
        );
        g = g + 1;
    }
    assert(trainer_models(trainers@) =~= grouped);
    trainers
}

fn single_trainer<M>(config: &RunInitConfig, kind: TrainerKind, model: M) -> (trainers: Vec<TrainerPlan<M>>)
    ensures
        is_single_trainer(*config, kind, model, trainers@),
{
    let mut models: Vec<M> = Vec::new();
    models.push(model);
    let mut trainers: Vec<TrainerPlan<M>> = Vec::new();
    trainers.push(
        TrainerPlan {
            kind,
            models,
            data_parallel: None,
            micro_batch_size: config.micro_batch_size,
            optim_stats_every_n_steps: config.optim_stats_every_n_steps,
            grad_accum_in_fp32: config.grad_accum_in_fp32,
        },
    );
    assert(trainers[0].models@ =~= seq![model]);
    trainers
}

/// Combines the outcomes of the three branches. The first failure reported
/// is that of the model, then that of the data provider, then that of
/// creating a distributed Python trainer (`distributed_trainer`, read only
/// for a distributed Python model), then that of the metrics run (its task
/// crashing, or the service refusing the run, as `wandb_run_outcome` tells
/// it). Native models on more than
/// one data-parallel rank need the multi-device backend.
pub fn finish<M>(
    config: &RunInitConfig,
    model: Result<(LoadedModel, LoadedModels<M>), InitRunError>,
    data: Result<(), String>,
    distributed_trainer: Result<(), String>,
    wandb: Result<Result<bool, String>, String>,
) -> (r: Result<RunPlan<M>, InitRunError>)
    requires
        model is Ok && data is Ok ==> config.data_parallelism <= usize::MAX / 2,
        model matches Ok((_, LoadedModels::Native(_))) ==> (data is Ok ==> (config.data_parallelism <= 1
            || config.parallelism_backend)),
    ensures
        model matches Err(e) ==> r == Err::<RunPlan<M>, InitRunError>(e),
        model is Ok ==> (data matches Err(m) ==> r == Err::<RunPlan<M>, InitRunError>(
            InitRunError::DataProviderConnect(m),
        )),
        model matches Ok((_, LoadedModels::PythonDistributed(_))) ==> (data is Ok ==> (
        distributed_trainer matches Err(m) ==> r == Err::<RunPlan<M>, InitRunError>(
            InitRunError::PythonDistributedTrainerError(m),
        ))),
        model is Ok && data is Ok && (distributed_trainer is Ok || !(model matches Ok(
            (_, LoadedModels::PythonDistributed(_)),
        ))) ==> {
            &&& wandb matches Err(m) ==> r == Err::<RunPlan<M>, InitRunError>(InitRunError::WandbThreadCrashed(m))
            &&& wandb matches Ok(Err(m)) ==> r == Err::<RunPlan<M>, InitRunError>(InitRunError::WandbLoad(m))
        },
        model matches Ok((loaded, models)) ==> (data is Ok ==> (wandb matches Ok(Ok(has_run)) ==> (
        (distributed_trainer is Ok || !(models is PythonDistributed)) ==> (r matches Ok(plan) && {
            &&& plan.model == loaded
            &&& plan.has_wandb_run == has_run
            &&& plan.data_fetcher_buffer == config.data_parallelism * 2
            &&& match models {
                LoadedModels::Native(v) => are_trainers(*config, v@, plan.trainers@),
                LoadedModels::Python(m) => is_single_trainer(*config, TrainerKind::Python, m, plan.trainers@),
                LoadedModels::PythonDistributed(m) => is_single_trainer(
                    *config,
                    TrainerKind::PythonDistributed,
                    m,
                    plan.trainers@,
                ),
            }
        })))),
{
    let (loaded, models) = match model {
        Err(e) => return Err(e),
        Ok(m) => m,
    };
    match data {
        Err(m) => return Err(InitRunError::DataProviderConnect(m)),
        Ok(()) => {},
    }
    let data_fetcher_buffer = config.data_parallelism * 2;
    let trainers = match models {
        LoadedModels::Native(v) => native_trainers(config, v),
        LoadedModels::Python(m) => single_trainer(config, TrainerKind::Python, m),
        LoadedModels::PythonDistributed(m) => {
            match distributed_trainer {
                Err(msg) => return Err(InitRunError::PythonDistributedTrainerError(msg)),
                Ok(()) => {},
            }
            single_trainer(config, TrainerKind::PythonDistributed, m)
        },
    };
    let has_wandb_run = match wandb {
        Err(m) => return Err(InitRunError::WandbThreadCrashed(m)),
        Ok(Err(m)) => return Err(InitRunError::WandbLoad(m)),
        Ok(Ok(has_run)) => has_run,
    };
    Ok(RunPlan { model: loaded, trainers, data_fetcher_buffer, has_wandb_run })
}

/// When the models handed to `finish` are the replicas of the node's grid
/// in rank order, as `LoadReplicas` lists them, there is one trainer per
/// data-parallel rank, and trainer `g` drives, at position `j`, the replica
/// of data-parallel rank `g` and tensor-parallel rank `j`.
pub proof fn lemma_trainers_drive_grid_rows<M>(
    config: RunInitConfig,
    models: Seq<M>,
    trainers: Seq<TrainerPlan<M>>,
)
    requires
        config.tensor_parallelism > 0,
        models.len() == config.data_parallelism * config.tensor_parallelism,
        are_trainers(config, models, trainers),
    ensures
        trainers.len() == config.data_parallelism,
        forall|g: int, j: int|
            0 <= g < config.data_parallelism && 0 <= j < config.tensor_parallelism ==> #[trigger] trainers[g].models@[j]
                == models[g * config.tensor_parallelism + j],
        forall|g: int, j: int|
            0 <= g < config.data_parallelism && 0 <= j < config.tensor_parallelism ==> #[trigger] grid_slots(
                config.data_parallelism as nat,
                config.tensor_parallelism as nat,
            )[g * config.tensor_parallelism + j] == (RankSlot {
                dp: g as usize,
                tp: j as usize,
                rank: (g * config.tensor_parallelism + j) as usize,
            }),
{
    lemma_groups_are_data_parallel_rows(config.data_parallelism as nat, config.tensor_parallelism as nat);
    assert forall|g: int, j: int|
        0 <= g < config.data_parallelism && 0 <= j < config.tensor_parallelism implies #[trigger] trainers[g].models@[j]
            == models[g * config.tensor_parallelism + j] by {
        lemma_trainer_position(config, models, trainers, g, j);
    }
    assert forall|g: int, j: int|
        0 <= g < config.data_parallelism && 0 <= j < config.tensor_parallelism implies #[trigger] grid_slots(
            config.data_parallelism as nat,
            config.tensor_parallelism as nat,
        )[g * config.tensor_parallelism + j] == (RankSlot {
            dp: g as usize,
            tp: j as usize,
            rank: (g * config.tensor_parallelism + j) as usize,
        }) by {
        lemma_trainer_position(config, models, trainers, g, j);
    }
}

proof fn lemma_trainer_position<M>(config: RunInitConfig, models: Seq<M>, trainers: Seq<TrainerPlan<M>>, g: int, j: int)
    requires
        config.tensor_parallelism > 0,
        models.len() == config.data_parallelism * config.tensor_parallelism,
        are_trainers(config, models, trainers),
        0 <= g < config.data_parallelism,
        0 <= j < config.tensor_parallelism,
    ensures
        0 <= g * config.tensor_parallelism + j < models.len(),
        trainers[g].models@[j] == models[g * config.tensor_parallelism + j],
        grid_slots(config.data_parallelism as nat, config.tensor_parallelism as nat)[g * config.tensor_parallelism + j]
            == (RankSlot {
            dp: g as usize,
            tp: j as usize,
            rank: (g * config.tensor_parallelism + j) as usize,
        }),
{
    let dp = config.data_parallelism as nat;
    let tp = config.tensor_parallelism as nat;
    let gn = g as nat;
    let i = g * tp + j;
    lemma_groups_are_data_parallel_rows(dp, tp);
    assert(g * tp + tp <= dp * tp) by (nonlinear_arith)
        requires g < dp, 0 <= g;
    assert(trainer_models(trainers)[g] == models.subrange(
        group_start(tp, gn) as int,
        group_end(tp, models.len(), gn) as int,
    ));
    assert(grid_slots(dp, tp).subrange(group_start(tp, gn) as int, group_end(tp, dp * tp, gn) as int)
        == grid_row(tp, gn));
    assert(grid_slots(dp, tp).subrange(group_start(tp, gn) as int, group_end(tp, dp * tp, gn) as int)[j]
        == grid_slots(dp, tp)[i]);
}

} // verus!
