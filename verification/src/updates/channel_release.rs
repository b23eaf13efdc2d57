//! One release entry from the updates catalog.
use vstd::prelude::*;

verus! {

/// The latest release published on a catalog channel.
#[derive(Debug, Clone)]
pub struct ChannelRelease {
    /// Channel name (`dev`, `stable`, …).
    pub channel: String,
    /// Release version string.
    pub version: String,
    /// Human-readable release notes (empty when the catalog has none).
    pub notes: String,
    /// Optional install hint from the catalog (empty when absent).
    pub install: String,
    /// Direct bundle URL; derived from the catalog layout when empty.
    pub bundle_url: String,
}

} // verus!
