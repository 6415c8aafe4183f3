//! Core logic of a self-hosted file-drop server: key-authenticated upload
//! namespaces, collision-safe allocation of unique file names, and a
//! deterministic directory-listing materializer.

pub mod allocation;
pub mod config;
pub mod fancy_rendering;
pub mod fancy_rendering_emoji;
pub mod file_listing;
pub mod namespace_def;
pub mod paths;
pub mod random_string_generator;
pub mod render;
pub mod storage;
pub mod upload;
pub mod web_server;

pub use config::Config;
pub use fancy_rendering::FancyRendererConfig;
pub use fancy_rendering_emoji::FancyRendererEmojis;
pub use file_listing::FileListingConfig;
pub use namespace_def::{NamespaceDefinition, NamespaceTable};
pub use random_string_generator::StringGenerator;
pub use render::{DirEntryInfo, DirectoryView, EntryMeta, IndividualListing};
pub use storage::StorageConfig;
pub use upload::ResponsePayload;
pub use web_server::WebServerConfig;
