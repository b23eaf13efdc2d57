//! Updates catalog endpoint configuration.
use vstd::prelude::*;

use crate::text::{self, trim_end_matches_char};

verus! {

/// Where to poll for updates and what is currently installed.
#[derive(Debug, Clone)]
pub struct UpdatesConfig {
    /// Catalog base URL (no trailing slash).
    pub base_url: String,
    /// Release channel to follow.
    pub channel: String,
    /// Version currently running (drives the "newer" comparison).
    pub current_version: String,
}

/// Catalog used when `SIGMA_UPDATES_URL` is unset.
pub open spec fn default_base_url() -> Seq<char> {
    "http://updates.sigma.localtest.me:30080"@
}

/// `o`'s characters, or `default` when `o` is `None`.
pub open spec fn or_default(o: Option<&str>, default: Seq<char>) -> Seq<char> {
    match o {
        Some(s) => s@,
        None => default,
    }
}

/// The catalog endpoint for the latest release of `channel`.
pub open spec fn spec_latest_url(base_url: Seq<char>, channel: Seq<char>) -> Seq<char> {
    base_url + "/v1/channel/"@ + channel + "/latest"@
}

impl UpdatesConfig {
    /// Configuration from the values of `SIGMA_UPDATES_URL`,
    /// `SIGMA_UPDATES_CHANNEL` and `SIGMA_IMAGE_VERSION` (`None` when unset),
    /// with lab-friendly defaults; trailing slashes are cut from the URL.
    pub fn from_env(url: Option<&str>, channel: Option<&str>, version: Option<&str>) -> (c:
        UpdatesConfig)
        ensures
            c.base_url@ == text::trim_end_char(or_default(url, default_base_url()), '/'),
            c.channel@ == or_default(channel, "dev"@),
            c.current_version@ == or_default(version, "0.0.0"@),
            c.base_url@.len() == 0 || c.base_url@.last() != '/',
    {
        let base = match url {
            Some(u) => trim_end_matches_char(u, '/'),
            None => trim_end_matches_char("http://updates.sigma.localtest.me:30080", '/'),
        };
        let channel = match channel {
            Some(c) => c.to_owned(),
            None => "dev".to_owned(),
        };
        let current_version = match version {
            Some(v) => v.to_owned(),
            None => "0.0.0".to_owned(),
        };
        proof {
            text::lemma_trim_end_char_last(or_default(url, default_base_url()), '/');
        }
        UpdatesConfig { base_url: base, channel, current_version }
    }

    /// Catalog endpoint for the channel's latest release.
    pub fn latest_url(&self) -> (u: String)
        ensures
            u@ == spec_latest_url(self.base_url@, self.channel@),
    {
        let mut u = self.base_url.clone();
        u.append("/v1/channel/");
        u.append(self.channel.as_str());
        u.append("/latest");
        u
    }
}


/// The catalog URL starts with the base URL, then `/v1/channel/`, then the
/// channel, and ends with `/latest`.
pub proof fn lemma_latest_url_layout(base_url: Seq<char>, channel: Seq<char>)
    ensures
        ({
            let u = spec_latest_url(base_url, channel);
            let b = base_url.len() as int;
            let c = channel.len() as int;
            &&& u.len() == b + 12 + c + 7
            &&& u.subrange(0, b) == base_url
            &&& u.subrange(b, b + 12) == "/v1/channel/"@
            &&& u.subrange(b + 12, b + 12 + c) == channel
            &&& u.subrange(b + 12 + c, u.len() as int) == "/latest"@
        }),
{
    reveal_strlit("/v1/channel/");
    reveal_strlit("/latest");
    let u = spec_latest_url(base_url, channel);
    let b = base_url.len() as int;
    let c = channel.len() as int;
    assert(u.subrange(0, b) =~= base_url);
    assert(u.subrange(b, b + 12) =~= "/v1/channel/"@);
    assert(u.subrange(b + 12, b + 12 + c) =~= channel);
    assert(u.subrange(b + 12 + c, u.len() as int) =~= "/latest"@);
}

/// The base URL is the configured URL (or the default) with its trailing
/// slashes cut: a prefix of it, followed in it by slashes only, and not
/// ending in a slash itself.
pub proof fn lemma_base_url_cuts_trailing_slashes(url: Option<&str>)
    ensures
        ({
            let given = or_default(url, default_base_url());
            let base = text::trim_end_char(given, '/');
            &&& base == given.subrange(0, base.len() as int)
            &&& forall|k: int| base.len() <= k < given.len() ==> given[k] == '/'
            &&& (base.len() == 0 || base.last() != '/')
        }),
{
    text::lemma_trim_end_char_cuts_only_c(or_default(url, default_base_url()), '/');
}

} // verus!
