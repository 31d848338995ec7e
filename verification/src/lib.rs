//! Verified core of a Firecracker microVM manager.

pub mod api;
pub mod boot;
pub mod cli;
pub mod create;
pub mod destroy;
pub mod effect;
pub mod error;
pub mod history;
pub mod host;
pub mod image;
pub mod ipv4;
pub mod json;
pub mod manager;
pub mod network;
pub mod path;
pub mod resource;
pub mod storage;
pub mod table;
pub mod text;
pub mod vm;
pub mod words;

pub use error::{OsError, OsResult};
pub use image::VmImage;
pub use manager::VmManager;
pub use network::NetworkConfig;
pub use resource::ResourceLimits;
pub use storage::VmStorage;
pub use vm::{MicroVm, VmConfig, VmState};
