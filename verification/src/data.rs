//! Setting up the training data provider.
//!
//! The planner decides, from the data location and the answers of the
//! outside world, which provider to build; the caller performs each action
//! and reports its outcome as an event.
use vstd::prelude::*;
use crate::types::DataLocation;

verus! {

/// Token width of the generated dummy dataset, in bytes.
pub const DUMMY_TOKEN_SIZE_BYTES: u8 = 2;

/// Sequence length of the generated dummy dataset.
pub const DUMMY_SEQUENCE_LEN: u32 = 2048;

/// Number of sequences of the generated dummy dataset.
pub const DUMMY_NUM_SEQUENCES: u64 = 0xffff_ffff_ffff_ffff;

/// What the caller is asked to do next.
#[derive(Clone, Debug, PartialEq, Eq)]
pub enum DataAction {
    /// Connect to the data server at `address`, then report `Finished`.
    ConnectServer { address: String },
    /// Build the generated dataset; the provider is then ready.
    BuildDummy { token_size_bytes: u8, sequence_len: u32, num_sequences: u64 },
    /// Resolve the file URLs of the HTTP location, then report `Finished`.
    FetchHttpFileUrls,
    /// Build the HTTP provider over the resolved URLs with this sequence
    /// length (and the location's token size and shuffling), then report
    /// `Finished`.
    BuildHttp { max_seq_len: u32 },
    /// Build the weighted HTTP provider from the description at
    /// `config_url`, then report `Finished`.
    BuildWeightedHttp { config_url: String, max_seq_len: u32 },
    /// Tell whether `path` exists locally (`false` when that cannot be
    /// told), with `LocalExists`.
    CheckLocalDataset { path: String },
    /// Download the dataset repository `repo` (no revision, no cache
    /// directory, without progress output), then report `Downloaded` with
    /// the parent directory of each downloaded file.
    DownloadDataset { repo: String, hub_read_token: Option<String>, max_concurrent_downloads: usize },
    /// Build the preprocessed provider from `dir`, unshuffled, on the
    /// training split and with no subset, then report `Finished`.
    BuildPreprocessed { dir: String, max_seq_len: usize },
    /// A local dataset cannot be used when joining a run: the start stops
    /// here, with no error to report.
    LocalUnsupported,
    /// The provider is ready.
    Ready,
    /// Setting up the provider failed, with this message.
    Failed(String),
}

/// The outcome of the last action.
#[derive(Debug, PartialEq, Eq)]
pub enum DataEvent {
    Finished(Result<(), String>),
    LocalExists(bool),
    Downloaded(Result<Vec<Option<String>>, String>),
}

/// Where the planner stands.
#[derive(Clone, Debug, PartialEq, Eq)]
pub enum DataStage {
    Connecting,
    FetchingUrls,
    BuildingHttp,
    BuildingWeighted,
    CheckingLocal { url: String },
    Downloading { url: String },
    BuildingPreprocessed,
    Unsupported,
    Ready,
    Failed,
}

/// Plans the data provider for one run start.
#[derive(Clone, Debug, PartialEq, Eq)]
pub struct DataPlanner {
    pub stage: DataStage,
    pub max_seq_len: u32,
    pub hub_read_token: Option<String>,
    pub hub_max_concurrent_downloads: usize,
}

impl DataEvent {
    /// Whether this event answers the action that led to `stage`.
    pub open spec fn answers(self, stage: DataStage) -> bool {
        match stage {
            DataStage::CheckingLocal { .. } => self is LocalExists,
            DataStage::Downloading { .. } => self is Downloaded,
            DataStage::Ready | DataStage::Failed | DataStage::Unsupported => false,
            _ => self is Finished,
        }
    }
}

/// The message reported when a dataset download yields no file.
pub open spec fn no_files_message(url: Seq<char>) -> Seq<char> {
    "No files downloaded for "@ + url
}

impl DataPlanner {
    /// Whether the planner still waits for an event.
    pub open spec fn is_waiting(self) -> bool {
        !(self.stage is Ready) && !(self.stage is Failed) && !(self.stage is Unsupported)
    }

    /// Whether `planner` and `action` are how planning starts for `location`.
    pub open spec fn started(
        location: DataLocation,
        max_seq_len: u32,
        hub_read_token: Option<String>,
        hub_max_concurrent_downloads: usize,
        planner: DataPlanner,
        action: DataAction,
    ) -> bool {
        &&& planner.max_seq_len == max_seq_len
        &&& planner.hub_read_token == hub_read_token
        &&& planner.hub_max_concurrent_downloads == hub_max_concurrent_downloads
        &&& match location {
            DataLocation::Server(address) => planner.stage == DataStage::Connecting
                && action == (DataAction::ConnectServer { address }),
            DataLocation::Dummy => planner.stage == DataStage::Ready && action == (DataAction::BuildDummy {
                token_size_bytes: DUMMY_TOKEN_SIZE_BYTES,
                sequence_len: DUMMY_SEQUENCE_LEN,
                num_sequences: DUMMY_NUM_SEQUENCES,
            }),
            DataLocation::Http => planner.stage == DataStage::FetchingUrls && action
                == DataAction::FetchHttpFileUrls,
            DataLocation::WeightedHttp(config_url) => planner.stage == DataStage::BuildingWeighted
                && action == (DataAction::BuildWeightedHttp { config_url, max_seq_len }),
            DataLocation::Preprocessed(url) => planner.stage == (DataStage::CheckingLocal { url })
                && action == (DataAction::CheckLocalDataset { path: url }),
            DataLocation::Local => planner.stage == DataStage::Unsupported && action
                == DataAction::LocalUnsupported,
        }
    }

    /// The first action for a data location.
    pub fn start(
        location: &DataLocation,
        max_seq_len: u32,
        hub_read_token: Option<String>,
        hub_max_concurrent_downloads: usize,
    ) -> (res: (DataPlanner, DataAction))
        ensures
            Self::started(*location, max_seq_len, hub_read_token, hub_max_concurrent_downloads, res.0, res.1),
    {
        let (stage, action) = match location {
            DataLocation::Server(address) => (
                DataStage::Connecting,
                DataAction::ConnectServer { address: address.clone() },
            ),
            DataLocation::Dummy => (
                DataStage::Ready,
                DataAction::BuildDummy {
                    token_size_bytes: DUMMY_TOKEN_SIZE_BYTES,
                    sequence_len: DUMMY_SEQUENCE_LEN,
                    num_sequences: DUMMY_NUM_SEQUENCES,
                },
            ),
            DataLocation::Http => (DataStage::FetchingUrls, DataAction::FetchHttpFileUrls),
            DataLocation::WeightedHttp(config_url) => (
                DataStage::BuildingWeighted,
                DataAction::BuildWeightedHttp { config_url: config_url.clone(), max_seq_len },
            ),
            DataLocation::Preprocessed(url) => (
                DataStage::CheckingLocal { url: url.clone() },
                DataAction::CheckLocalDataset { path: url.clone() },
            ),
            DataLocation::Local => (DataStage::Unsupported, DataAction::LocalUnsupported),
        };
        (DataPlanner { stage, max_seq_len, hub_read_token, hub_max_concurrent_downloads }, action)
    }

    /// Takes the outcome of the last action and gives the next one. A
    /// download must yield files that have a parent directory.
    pub fn step(&mut self, event: DataEvent) -> (action: DataAction)
        requires
            old(self).is_waiting(),
            event.answers(old(self).stage),
            event matches DataEvent::Downloaded(Ok(parents)) ==> (parents.len() > 0
                ==> parents[0] is Some),
        ensures
            final(self).max_seq_len == old(self).max_seq_len,
            final(self).hub_read_token == old(self).hub_read_token,
            final(self).hub_max_concurrent_downloads == old(self).hub_max_concurrent_downloads,
            event matches DataEvent::Finished(Err(m)) ==> final(self).stage == DataStage::Failed && action
                == DataAction::Failed(m),
            event matches DataEvent::Downloaded(Err(m)) ==> final(self).stage == DataStage::Failed
                && action == DataAction::Failed(m),
            event matches DataEvent::Finished(Ok(_)) ==> match old(self).stage {
                DataStage::FetchingUrls => final(self).stage == DataStage::BuildingHttp && action == (
                DataAction::BuildHttp { max_seq_len: old(self).max_seq_len }),
                _ => final(self).stage == DataStage::Ready && action == DataAction::Ready,
            },
            event matches DataEvent::LocalExists(exists) ==> (old(self).stage matches DataStage::CheckingLocal {
                url,
            } && if exists {
                final(self).stage == DataStage::BuildingPreprocessed && action == (
                DataAction::BuildPreprocessed { dir: url, max_seq_len: old(self).max_seq_len as usize })
            } else {
                final(self).stage == (DataStage::Downloading { url }) && action == (
                DataAction::DownloadDataset {
                    repo: url,
                    hub_read_token: old(self).hub_read_token,
                    max_concurrent_downloads: old(self).hub_max_concurrent_downloads,
                })
            }),
            event matches DataEvent::Downloaded(Ok(parents)) ==> (old(self).stage matches DataStage::Downloading {
                url,
            } && if parents.len() == 0 {
                final(self).stage == DataStage::Failed && (action matches DataAction::Failed(m) && m@
                    == no_files_message(url@))
            } else {
                final(self).stage == DataStage::BuildingPreprocessed && action == (
                DataAction::BuildPreprocessed {
                    dir: parents[0]->Some_0,
                    max_seq_len: old(self).max_seq_len as usize,
                })
            }),
    {
        let (stage, action) = match event {
            DataEvent::Finished(Err(m)) => (DataStage::Failed, DataAction::Failed(m)),
            DataEvent::Downloaded(Err(m)) => (DataStage::Failed, DataAction::Failed(m)),
            DataEvent::Finished(Ok(())) => match self.stage {
                DataStage::FetchingUrls => (
                    DataStage::BuildingHttp,
                    DataAction::BuildHttp { max_seq_len: self.max_seq_len },
                ),
                _ => (DataStage::Ready, DataAction::Ready),
            },
            DataEvent::LocalExists(exists) => {
                let url = match &self.stage {
                    DataStage::CheckingLocal { url } => url.clone(),
                    _ => {
                        proof {
                            assert(false);
                        }
                        String::new()
                    },
                };
                if exists {
                    (
                        DataStage::BuildingPreprocessed,
                        DataAction::BuildPreprocessed { dir: url, max_seq_len: self.max_seq_len as usize },
                    )
                } else {
                    (
                        DataStage::Downloading { url: url.clone() },
                        DataAction::DownloadDataset {
                            repo: url,
                            hub_read_token: self.hub_read_token.clone(),
                            max_concurrent_downloads: self.hub_max_concurrent_downloads,
                        },
                    )
                }
            },
            DataEvent::Downloaded(Ok(parents)) => {
                let url = match &self.stage {
                    DataStage::Downloading { url } => url.clone(),
                    _ => {
                        proof {
                            assert(false);
                        }
                        String::new()
                    },
                };
                if parents.len() == 0 {
                    let message = String::from_str("No files downloaded for ").concat(url.as_str());
                    (DataStage::Failed, DataAction::Failed(message))
                } else {
                    let mut parents = parents;
                    let first = parents.swap_remove(0);
                    match first {
                        Some(dir) => (
                            DataStage::BuildingPreprocessed,
                            DataAction::BuildPreprocessed {
                                dir,
                                max_seq_len: self.max_seq_len as usize,
                            },
                        ),
                        None => {
                            proof {
                                assert(false);
                            }
                            (DataStage::Failed, DataAction::Failed(String::new()))
                        },
                    }
                }
            },
        };
        self.stage = stage;
        action
    }
}

} // verus!
