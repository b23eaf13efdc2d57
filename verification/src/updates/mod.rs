//! Update-catalog endpoint configuration and release entries.

pub mod channel_release;
pub mod config;

pub use channel_release::ChannelRelease;
pub use config::UpdatesConfig;
