//! Resolution of a content URL to a downloadable media resource, and the
//! planning of its retrieval, without any I/O of its own.

pub mod agent;
pub mod context;
pub mod definitions;
pub mod dispatch;
pub mod download;
pub mod ffmpeg;
pub mod handlers;
pub mod output;
pub mod outside;
pub mod protocol;
pub mod text;

pub use context::VIDEO;
pub use definitions::SiteDefinition;
pub use agent::YaydlAgent;
