use psyche_client::error::{InitRunError, ModelLoadError};
use psyche_client::grid::RankSlot;
use psyche_client::model_load::{
    attention_implementation, inference_data_parallelism, AttentionImplementation, ConfigFormat,
    ModelAction, ModelLoadConfig, ModelLoader, ModelSource, ModelStage, PythonOutcome, ReplicaJob,
    ReplicaOutcome,
    TaskRunnerPlan,
};
use psyche_client::types::{Checkpoint, LlmArchitecture, TrainingDataType};
use tokenizers::models::wordlevel::WordLevel;
use tokenizers::models::ModelWrapper;
use tokenizers::Tokenizer;

fn config(architecture: LlmArchitecture, checkpoint: Checkpoint) -> ModelLoadConfig {
    ModelLoadConfig {
        architecture,
        checkpoint,
        data_type: TrainingDataType::Pretraining,
        max_seq_len: 2048,
        data_parallelism: 1,
        tensor_parallelism: 1,
        dummy_training_delay_secs: None,
        hub_read_token: Some("tok".to_string()),
        hub_max_concurrent_downloads: 4,
        eval_task_max_docs: Some(100),
        prompt_task: true,
        sidecar_port: Some(7000),
        parallelism_backend: false,
        python_backend: false,
    }
}

fn hub(repo: &str, revision: Option<&str>) -> Checkpoint {
    Checkpoint::Hub { repo_id: repo.to_string(), revision: revision.map(|r| r.to_string()) }
}

fn tokenizer() -> Tokenizer {
    Tokenizer::new(ModelWrapper::WordLevel(WordLevel::default()))
}

fn hub_loader_serializing(cfg: ModelLoadConfig) -> ModelLoader {
    let (mut loader, _) = ModelLoader::start(cfg);
    loader.on_local_exists(true);
    loader.on_listed(Ok(vec![Some("config.json".to_string())]));
    loader.on_tokenizer_loaded(Ok(tokenizer()));
    loader
}

#[test]
fn hub_checkpoint_without_revision_checks_the_local_directory_first() {
    let (mut loader, action) = ModelLoader::start(config(LlmArchitecture::HfLlama, hub("org/model", None)));
    assert!(matches!(action, ModelAction::CheckLocalRepo { ref path } if path == "org/model"));
    let action = loader.on_local_exists(true);
    assert!(matches!(action, ModelAction::ListLocalRepo { ref path } if path == "org/model"));
    assert_eq!(loader.stage, ModelStage::ListingLocal);
}

#[test]
fn hub_checkpoint_missing_locally_is_downloaded() {
    let (mut loader, _) = ModelLoader::start(config(LlmArchitecture::HfLlama, hub("org/model", None)));
    match loader.on_local_exists(false) {
        ModelAction::DownloadRepo { repo_id, revision, hub_read_token, max_concurrent_downloads } => {
            assert_eq!(repo_id, "org/model");
            assert_eq!(revision, None);
            assert_eq!(hub_read_token, Some("tok".to_string()));
            assert_eq!(max_concurrent_downloads, 4);
        }
        other => panic!("unexpected action {other:?}"),
    }
}

#[test]
fn hub_checkpoint_with_revision_is_downloaded_directly() {
    let (_, action) = ModelLoader::start(config(LlmArchitecture::HfLlama, hub("org/model", Some("main"))));
    assert!(matches!(action, ModelAction::DownloadRepo { ref revision, .. } if revision.as_deref() == Some("main")));
}

#[test]
fn listed_repository_files_select_the_extra_files() {
    let (mut loader, _) = ModelLoader::start(config(LlmArchitecture::HfLlama, hub("org/model", None)));
    loader.on_local_exists(true);
    let names = vec![
        Some("model.safetensors".to_string()),
        Some("tokenizer.json".to_string()),
        Some("config.json".to_string()),
    ];
    assert!(matches!(loader.on_listed(Ok(names)), ModelAction::LoadTokenizer));
    assert_eq!(loader.extra_files, vec![1, 2]);
}

#[test]
fn listing_errors_and_tokenizer_errors_are_reported() {
    let (mut loader, _) = ModelLoader::start(config(LlmArchitecture::HfLlama, hub("org/model", None)));
    loader.on_local_exists(true);
    let action = loader.on_listed(Err("denied".to_string()));
    assert!(matches!(action, ModelAction::Failed(InitRunError::LocalModelLoad(ref m)) if m == "denied"));
    assert_eq!(loader.stage, ModelStage::Done);

    let (mut loader, _) = ModelLoader::start(config(LlmArchitecture::HfLlama, hub("org/model", None)));
    loader.on_local_exists(true);
    loader.on_listed(Ok(Vec::new()));
    let action = loader.on_tokenizer_loaded(Err("no tokenizer".to_string()));
    assert!(matches!(action, ModelAction::Failed(InitRunError::TokenizerLoad(_))));
}

#[test]
fn p2p_checkpoint_requests_config_and_parameters() {
    let (mut loader, action) = ModelLoader::start(config(LlmArchitecture::HfDeepseek, Checkpoint::P2P));
    assert!(matches!(action, ModelAction::RequestModelConfig));
    let action = loader.on_model_config(Some(("{\"a\":1}".to_string(), tokenizer())));
    assert!(matches!(
        action,
        ModelAction::ParseModelConfig { format: ConfigFormat::Deepseek, ref json } if json == "{\"a\":1}"
    ));
    assert!(matches!(loader.on_config_parsed(Ok(())), ModelAction::RequestParameters));
    assert!(matches!(loader.on_parameters(true), ModelAction::SerializeConfig { dummy: false }));
}

#[test]
fn p2p_config_for_the_automatic_architecture_is_unsupported() {
    let (mut loader, _) = ModelLoader::start(config(LlmArchitecture::HfAuto, Checkpoint::P2P));
    let action = loader.on_model_config(Some(("{}".to_string(), tokenizer())));
    assert!(matches!(
        action,
        ModelAction::Failed(InitRunError::UnsupportedArchitecture(LlmArchitecture::HfAuto))
    ));
}

#[test]
fn p2p_failures_crash_the_loading_task() {
    let (mut loader, _) = ModelLoader::start(config(LlmArchitecture::HfLlama, Checkpoint::P2P));
    assert!(matches!(
        loader.on_model_config(None),
        ModelAction::Failed(InitRunError::ModelLoadingThreadCrashed(_))
    ));

    let (mut loader, _) = ModelLoader::start(config(LlmArchitecture::HfLlama, Checkpoint::P2P));
    loader.on_model_config(Some(("{}".to_string(), tokenizer())));
    let action = loader.on_config_parsed(Err("eof".to_string()));
    assert!(matches!(action, ModelAction::Failed(InitRunError::FailedToParseConfig(_))));

    let (mut loader, _) = ModelLoader::start(config(LlmArchitecture::HfLlama, Checkpoint::P2P));
    loader.on_model_config(Some(("{}".to_string(), tokenizer())));
    loader.on_config_parsed(Ok(()));
    assert!(matches!(
        loader.on_parameters(false),
        ModelAction::Failed(InitRunError::ModelLoadingThreadCrashed(_))
    ));
}

#[test]
fn dummy_checkpoint_publishes_a_word_level_tokenizer() {
    let mut cfg = config(LlmArchitecture::HfLlama, Checkpoint::Dummy);
    cfg.data_parallelism = 2;
    cfg.tensor_parallelism = 3;
    cfg.dummy_training_delay_secs = Some(5);
    let (mut loader, action) = ModelLoader::start(cfg);
    assert!(matches!(action, ModelAction::SerializeConfig { dummy: true }));
    assert_eq!(loader.dummy_models, 6);
    match loader.on_serialized(Ok("{\"dummy\":true}".to_string())) {
        ModelAction::UploadConfig { config, tokenizer } => {
            assert_eq!(config, "{\"dummy\":true}");
            assert_eq!(
                tokenizer,
                "{\"version\":\"1.0\",\"truncation\":null,\"padding\":null,\"added_tokens\":[],\"normalizer\":null,\"pre_tokenizer\":null,\"post_processor\":null,\"decoder\":null,\"model\":{\"type\":\"WordLevel\",\"vocab\":{},\"unk_token\":\"<unk>\"}}"
            );
        }
        other => panic!("unexpected action {other:?}"),
    }
    match loader.on_uploaded(true) {
        ModelAction::Loaded(model) => {
            assert_eq!(model.source, ModelSource::Dummy { count: 6, training_delay_secs: Some(5) });
            assert!(model.checkpoint_extra_files.is_empty());
            assert_eq!(
                model.task_runner,
                TaskRunnerPlan {
                    with_eval_tasks: false,
                    prompt_task: false,
                    eval_task_max_docs: None,
                    data_parallelism: 0
                }
            );
        }
        other => panic!("unexpected action {other:?}"),
    }
}

#[test]
fn dummy_checkpoint_with_an_overflowing_model_count_crashes() {
    let mut cfg = config(LlmArchitecture::HfLlama, Checkpoint::Dummy);
    cfg.data_parallelism = usize::MAX;
    cfg.tensor_parallelism = 2;
    let (_, action) = ModelLoader::start(cfg);
    assert!(matches!(action, ModelAction::Failed(InitRunError::ModelLoadingThreadCrashed(_))));
}

#[test]
fn serialization_errors_are_reported() {
    let mut loader = hub_loader_serializing(config(LlmArchitecture::HfLlama, hub("m", None)));
    let action = loader.on_serialized(Err(InitRunError::FailedToParseConfig("bad".to_string())));
    assert!(matches!(action, ModelAction::Failed(InitRunError::FailedToParseConfig(_))));
}

#[test]
fn native_replicas_are_loaded_in_rank_order() {
    let mut cfg = config(LlmArchitecture::HfLlama, hub("m", None));
    cfg.data_parallelism = 2;
    cfg.tensor_parallelism = 2;
    cfg.parallelism_backend = true;
    cfg.data_type = TrainingDataType::Finetuning;
    let mut loader = hub_loader_serializing(cfg);
    match loader.on_serialized(Ok("cfg".to_string())) {
        ModelAction::LoadReplicas { jobs, attention, max_seq_len } => {
            assert_eq!(attention, Some(AttentionImplementation::FlashAttention2));
            assert_eq!(max_seq_len, 2048);
            assert_eq!(
                jobs,
                vec![
                    ReplicaJob { slot: RankSlot { dp: 0, tp: 0, rank: 0 }, tensor_parallel: true },
                    ReplicaJob { slot: RankSlot { dp: 0, tp: 1, rank: 1 }, tensor_parallel: true },
                    ReplicaJob { slot: RankSlot { dp: 1, tp: 0, rank: 2 }, tensor_parallel: true },
                    ReplicaJob { slot: RankSlot { dp: 1, tp: 1, rank: 3 }, tensor_parallel: true },
                ]
            );
        }
        other => panic!("unexpected action {other:?}"),
    }
    assert_eq!(loader.stage, ModelStage::LoadingReplicas { count: 4 });
    let outcomes = vec![ReplicaOutcome::Loaded; 4];
    assert!(matches!(loader.on_replicas_loaded(outcomes), ModelAction::SerializeTokenizer));
    assert_eq!(loader.stage, ModelStage::SerializingTokenizer { source: ModelSource::Native { replicas: 4 } });
    match loader.on_tokenizer_serialized(Ok("{\"tok\":1}".to_string())) {
        ModelAction::UploadConfig { config, tokenizer } => {
            assert_eq!(config, "cfg");
            assert_eq!(tokenizer, "{\"tok\":1}");
        }
        other => panic!("unexpected action {other:?}"),
    }
    match loader.on_uploaded(true) {
        ModelAction::Loaded(model) => {
            assert_eq!(model.source, ModelSource::Native { replicas: 4 });
            assert_eq!(model.checkpoint_extra_files, vec![0]);
            assert_eq!(
                model.task_runner,
                TaskRunnerPlan {
                    with_eval_tasks: true,
                    prompt_task: true,
                    eval_task_max_docs: Some(100),
                    data_parallelism: 2
                }
            );
        }
        other => panic!("unexpected action {other:?}"),
    }
}

#[test]
fn the_first_replica_that_fails_decides_the_error() {
    let mut cfg = config(LlmArchitecture::HfLlama, hub("m", None));
    cfg.data_parallelism = 3;
    let mut loader = hub_loader_serializing(cfg);
    let action = loader.on_serialized(Ok("cfg".to_string()));
    assert!(matches!(action, ModelAction::LoadReplicas { ref jobs, attention: None, .. } if jobs.len() == 3));
    let outcomes = vec![
        ReplicaOutcome::Loaded,
        ReplicaOutcome::NoDevice,
        ReplicaOutcome::Failed(ModelLoadError::Other("oom".to_string())),
    ];
    assert!(matches!(
        loader.on_replicas_loaded(outcomes),
        ModelAction::Failed(InitRunError::ModelLoad(ModelLoadError::NoDeviceForRank(1)))
    ));
}

#[test]
fn replica_failures_and_crashes_are_reported() {
    let mut cfg = config(LlmArchitecture::HfLlama, hub("m", None));
    cfg.data_parallelism = 2;
    let mut loader = hub_loader_serializing(cfg.clone());
    loader.on_serialized(Ok("cfg".to_string()));
    let outcomes = vec![ReplicaOutcome::Failed(ModelLoadError::Other("oom".to_string())), ReplicaOutcome::Loaded];
    assert!(matches!(
        loader.on_replicas_loaded(outcomes),
        ModelAction::Failed(InitRunError::ModelLoad(ModelLoadError::Other(ref m))) if m == "oom"
    ));
    let mut loader = hub_loader_serializing(cfg);
    loader.on_serialized(Ok("cfg".to_string()));
    let outcomes = vec![ReplicaOutcome::Loaded, ReplicaOutcome::Crashed("panic".to_string())];
    assert!(matches!(
        loader.on_replicas_loaded(outcomes),
        ModelAction::Failed(InitRunError::ModelLoadingThreadCrashed(ref m)) if m == "panic"
    ));
}

#[test]
fn tensor_parallelism_without_the_backend_crashes() {
    let mut cfg = config(LlmArchitecture::HfDeepseek, hub("m", None));
    cfg.tensor_parallelism = 2;
    let mut loader = hub_loader_serializing(cfg);
    assert!(matches!(
        loader.on_serialized(Ok("cfg".to_string())),
        ModelAction::Failed(InitRunError::ModelLoadingThreadCrashed(_))
    ));
}

#[test]
fn automatic_architectures_are_unsupported_for_native_loading() {
    for arch in [LlmArchitecture::HfAuto, LlmArchitecture::Torchtitan] {
        let mut loader = hub_loader_serializing(config(arch, hub("m", None)));
        assert!(matches!(
            loader.on_serialized(Ok("cfg".to_string())),
            ModelAction::Failed(InitRunError::UnsupportedArchitecture(a)) if a == arch
        ));
    }
}

#[test]
fn failed_upload_crashes_the_loading_task() {
    let (mut loader, _) = ModelLoader::start(config(LlmArchitecture::HfLlama, Checkpoint::Dummy));
    loader.on_serialized(Ok("c".to_string()));
    assert!(matches!(
        loader.on_uploaded(false),
        ModelAction::Failed(InitRunError::ModelLoadingThreadCrashed(_))
    ));
}

#[test]
fn evaluation_runs_on_one_rank_for_the_automatic_architecture() {
    assert_eq!(inference_data_parallelism(4, LlmArchitecture::HfAuto), 1);
    assert_eq!(inference_data_parallelism(1, LlmArchitecture::HfAuto), 1);
    assert_eq!(inference_data_parallelism(0, LlmArchitecture::HfAuto), 0);
    assert_eq!(inference_data_parallelism(4, LlmArchitecture::HfLlama), 4);
}

#[test]
fn flash_attention_only_for_finetuning_with_the_backend() {
    assert_eq!(
        attention_implementation(TrainingDataType::Finetuning, true),
        Some(AttentionImplementation::FlashAttention2)
    );
    assert_eq!(attention_implementation(TrainingDataType::Finetuning, false), None);
    assert_eq!(attention_implementation(TrainingDataType::Pretraining, true), None);
}

#[test]
fn download_errors_are_reported() {
    let (mut loader, _) = ModelLoader::start(config(LlmArchitecture::HfLlama, hub("org/model", Some("v1"))));
    assert_eq!(loader.stage, ModelStage::Downloading);
    let action = loader.on_listed(Err("404".to_string()));
    assert!(matches!(action, ModelAction::Failed(InitRunError::HfModelLoad(ref m)) if m == "404"));
}

#[test]
fn a_tokenizer_that_cannot_be_serialized_crashes_the_loading_task() {
    let mut loader = hub_loader_serializing(config(LlmArchitecture::HfLlama, hub("m", None)));
    loader.on_serialized(Ok("cfg".to_string()));
    loader.on_replicas_loaded(vec![ReplicaOutcome::Loaded]);
    assert!(matches!(
        loader.on_tokenizer_serialized(Err("overflow".to_string())),
        ModelAction::Failed(InitRunError::ModelLoadingThreadCrashed(ref m)) if m == "overflow"
    ));
}

#[test]
fn python_backend_loads_a_single_process_model() {
    let mut cfg = config(LlmArchitecture::HfAuto, hub("m", None));
    cfg.python_backend = true;
    let mut loader = hub_loader_serializing(cfg);
    match loader.on_serialized(Ok("cfg".to_string())) {
        ModelAction::LoadPythonModel {
            distributed,
            architecture,
            attention,
            data_parallelism,
            tensor_parallelism,
            max_seq_len,
            sidecar_port,
        } => {
            assert!(!distributed);
            assert_eq!(architecture, LlmArchitecture::HfAuto);
            assert_eq!(attention, None);
            assert_eq!((data_parallelism, tensor_parallelism, max_seq_len), (1, 1, 2048));
            assert_eq!(sidecar_port, Some(7000));
        }
        other => panic!("unexpected action {other:?}"),
    }
    assert!(matches!(loader.on_python_loaded(PythonOutcome::Loaded), ModelAction::SerializeTokenizer));
    loader.on_tokenizer_serialized(Ok("t".to_string()));
    match loader.on_uploaded(true) {
        ModelAction::Loaded(model) => {
            assert_eq!(model.source, ModelSource::Python { distributed: false });
        }
        other => panic!("unexpected action {other:?}"),
    }
}

#[test]
fn python_backend_errors_name_the_backend() {
    let mut cfg = config(LlmArchitecture::Torchtitan, hub("m", None));
    cfg.python_backend = true;
    let mut loader = hub_loader_serializing(cfg.clone());
    loader.on_serialized(Ok("cfg".to_string()));
    assert!(matches!(
        loader.on_python_loaded(PythonOutcome::NoDevice),
        ModelAction::Failed(InitRunError::ModelLoad(ModelLoadError::NoDeviceForRank(0)))
    ));
    let mut loader = hub_loader_serializing(cfg.clone());
    loader.on_serialized(Ok("cfg".to_string()));
    assert!(matches!(
        loader.on_python_loaded(PythonOutcome::Failed("cuda".to_string())),
        ModelAction::Failed(InitRunError::PythonModelError(ref m)) if m == "cuda"
    ));
    cfg.data_parallelism = 2;
    let mut loader = hub_loader_serializing(cfg);
    assert!(matches!(
        loader.on_serialized(Ok("cfg".to_string())),
        ModelAction::LoadPythonModel { distributed: true, data_parallelism: 2, .. }
    ));
    assert!(matches!(
        loader.on_python_loaded(PythonOutcome::Failed("nccl".to_string())),
        ModelAction::Failed(InitRunError::PythonDistributedError(ref m)) if m == "nccl"
    ));
}

#[test]
fn python_backend_reads_peer_configurations() {
    let mut cfg = config(LlmArchitecture::HfAuto, Checkpoint::P2P);
    cfg.python_backend = true;
    let (mut loader, _) = ModelLoader::start(cfg);
    assert!(matches!(
        loader.on_model_config(Some(("{}".to_string(), tokenizer()))),
        ModelAction::ParseModelConfig { format: ConfigFormat::Python, .. }
    ));
}

#[test]
fn the_loaded_tokenizer_is_handed_back() {
    let mut cfg = config(LlmArchitecture::HfLlama, hub("m", None));
    cfg.data_parallelism = 1;
    let (mut loader, _) = ModelLoader::start(cfg);
    loader.on_local_exists(true);
    loader.on_listed(Ok(Vec::new()));
    let mut vocab = std::collections::HashMap::new();
    vocab.insert("hello".to_string(), 0u32);
    vocab.insert("<unk>".to_string(), 1u32);
    let model = WordLevel::builder().vocab(vocab.into_iter().collect()).unk_token("<unk>".to_string()).build().unwrap();
    let loaded_tokenizer = Tokenizer::new(ModelWrapper::WordLevel(model));
    let expected = loaded_tokenizer.to_string(false).unwrap();
    loader.on_tokenizer_loaded(Ok(loaded_tokenizer));
    loader.on_serialized(Ok("cfg".to_string()));
    loader.on_replicas_loaded(vec![ReplicaOutcome::Loaded]);
    loader.on_tokenizer_serialized(Ok(expected.clone()));
    match loader.on_uploaded(true) {
        ModelAction::Loaded(model) => assert_eq!(model.tokenizer.to_string(false).unwrap(), expected),
        other => panic!("unexpected action {other:?}"),
    }
}
