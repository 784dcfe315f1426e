use psyche_client::data::{DataAction, DataEvent, DataPlanner, DataStage};
use psyche_client::types::DataLocation;

fn start(location: DataLocation) -> (DataPlanner, DataAction) {
    DataPlanner::start(&location, 4096, Some("hf_token".to_string()), 8)
}

#[test]
fn server_location_connects_then_is_ready() {
    let (mut planner, action) = start(DataLocation::Server("10.0.0.1:9000".to_string()));
    assert_eq!(action, DataAction::ConnectServer { address: "10.0.0.1:9000".to_string() });
    assert_eq!(planner.stage, DataStage::Connecting);
    assert_eq!(planner.step(DataEvent::Finished(Ok(()))), DataAction::Ready);
    assert_eq!(planner.stage, DataStage::Ready);
}

#[test]
fn server_connection_failure_is_reported() {
    let (mut planner, _) = start(DataLocation::Server("host:1".to_string()));
    let action = planner.step(DataEvent::Finished(Err("connection refused".to_string())));
    assert_eq!(action, DataAction::Failed("connection refused".to_string()));
    assert_eq!(planner.stage, DataStage::Failed);
}

#[test]
fn dummy_location_builds_the_generated_dataset() {
    let (planner, action) = start(DataLocation::Dummy);
    assert_eq!(
        action,
        DataAction::BuildDummy { token_size_bytes: 2, sequence_len: 2048, num_sequences: u64::MAX }
    );
    assert_eq!(planner.stage, DataStage::Ready);
}

#[test]
fn http_location_resolves_urls_then_builds() {
    let (mut planner, action) = start(DataLocation::Http);
    assert_eq!(action, DataAction::FetchHttpFileUrls);
    assert_eq!(planner.step(DataEvent::Finished(Ok(()))), DataAction::BuildHttp { max_seq_len: 4096 });
    assert_eq!(planner.step(DataEvent::Finished(Ok(()))), DataAction::Ready);
}

#[test]
fn weighted_http_location_builds_from_its_description() {
    let (mut planner, action) = start(DataLocation::WeightedHttp("https://x/weights.json".to_string()));
    assert_eq!(
        action,
        DataAction::BuildWeightedHttp { config_url: "https://x/weights.json".to_string(), max_seq_len: 4096 }
    );
    assert_eq!(
        planner.step(DataEvent::Finished(Err("bad weights".to_string()))),
        DataAction::Failed("bad weights".to_string())
    );
}

#[test]
fn preprocessed_local_directory_is_used_as_is() {
    let (mut planner, action) = start(DataLocation::Preprocessed("/data/fineweb".to_string()));
    assert_eq!(action, DataAction::CheckLocalDataset { path: "/data/fineweb".to_string() });
    assert_eq!(
        planner.step(DataEvent::LocalExists(true)),
        DataAction::BuildPreprocessed { dir: "/data/fineweb".to_string(), max_seq_len: 4096 }
    );
    assert_eq!(planner.step(DataEvent::Finished(Ok(()))), DataAction::Ready);
}

#[test]
fn preprocessed_repo_is_downloaded_and_its_first_file_directory_used() {
    let (mut planner, _) = start(DataLocation::Preprocessed("org/dataset".to_string()));
    assert_eq!(
        planner.step(DataEvent::LocalExists(false)),
        DataAction::DownloadDataset {
            repo: "org/dataset".to_string(),
            hub_read_token: Some("hf_token".to_string()),
            max_concurrent_downloads: 8,
        }
    );
    let parents = vec![Some("/cache/org/dataset/snap".to_string()), Some("/elsewhere".to_string())];
    assert_eq!(
        planner.step(DataEvent::Downloaded(Ok(parents))),
        DataAction::BuildPreprocessed { dir: "/cache/org/dataset/snap".to_string(), max_seq_len: 4096 }
    );
}

#[test]
fn preprocessed_download_without_files_fails() {
    let (mut planner, _) = start(DataLocation::Preprocessed("org/empty".to_string()));
    planner.step(DataEvent::LocalExists(false));
    assert_eq!(
        planner.step(DataEvent::Downloaded(Ok(Vec::new()))),
        DataAction::Failed("No files downloaded for org/empty".to_string())
    );
    assert_eq!(planner.stage, DataStage::Failed);
}

#[test]
fn preprocessed_download_error_is_reported() {
    let (mut planner, _) = start(DataLocation::Preprocessed("org/private".to_string()));
    planner.step(DataEvent::LocalExists(false));
    assert_eq!(
        planner.step(DataEvent::Downloaded(Err("401".to_string()))),
        DataAction::Failed("401".to_string())
    );
}

#[test]
fn local_location_is_not_supported() {
    let (planner, action) = start(DataLocation::Local);
    assert_eq!(action, DataAction::LocalUnsupported);
    assert_eq!(planner.stage, DataStage::Unsupported);
}
