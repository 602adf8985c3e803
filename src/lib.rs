//! Master-key backend resolution and per-keyspace data-key manager provisioning.
//!
//! A master-key configuration is resolved into a backend (plaintext, a locally
//! held file key, or a cloud KMS binding). Data-key managers are then built on
//! top of those backends, one per keyspace, and collected into a registry.

pub mod error;
pub mod backend;
pub mod config;
pub mod keyfile;
pub mod manager;
pub mod path;
pub mod provision;

pub use backend::{create_backend, create_cloud_backend, Backend, KeyFile};
pub use config::{AzureConfig, EncryptionConfig, FileConfig, KmsConfig, MasterKeyConfig};
pub use error::Error;
pub use manager::{DKMMap, DataKeyManager, DataKeyManagerArgs};
pub use provision::{data_key_manager_from_config, data_key_manager_map_from_config};
