//! Planning and decision logic for joining a training run: which data
//! provider to build, how the model is obtained and split over devices,
//! how the loaded models are grouped into trainers, and which error a
//! failed start reports.

pub mod data;
pub mod error;
pub mod files;
pub mod grid;
pub mod init;
pub mod model_load;
pub mod tokenizer;
pub mod types;
pub mod wandb;
