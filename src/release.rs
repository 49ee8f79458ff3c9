//! Release channels and their resolution to a download link and hash.
use vstd::prelude::*;

use crate::hex::{decode_digest_spec, is_digest_text, DIGEST_LEN};
use crate::text::{check_download_url, https_scheme, is_download_url};

verus! {

/// The release channels served by the update service.
#[derive(Debug, Clone, Copy, PartialEq, Eq, Structural)]
pub enum Channel {
    /// Official stable releases.
    Stable,
    /// Snapshot alpha builds.
    Alpha,
    /// Pre-release beta versions.
    Beta,
}

/// A version that can be asked for.
#[derive(Debug, Clone, Copy, PartialEq, Eq, Structural)]
pub enum Endpoint {
    /// Stable release version.
    Stable,
    /// Snapshot alpha version.
    Alpha,
    /// Beta release version.
    Beta,
    /// The last version compatible with Windows XP.
    Xp,
    /// The last version compatible with Windows 7.
    Win7,
}

/// Link to the last Windows XP build.
pub open spec fn xp_url_text() -> Seq<char> {
    "https://download.nvaccess.org/releases/2017.3/nvda_2017.3.exe"@
}

/// SHA-1 hash of the last Windows XP build.
pub open spec fn xp_hash_text() -> Seq<char> {
    "386e7acb8cc3ecaabc8005894cf783b51a8ac7f6"@
}

/// Link to the last Windows 7 build.
pub open spec fn win7_url_text() -> Seq<char> {
    "https://download.nvaccess.org/releases/2023.3.4/nvda_2023.3.4.exe"@
}

/// SHA-1 hash of the last Windows 7 build.
pub open spec fn win7_hash_text() -> Seq<char> {
    "985a6deab01edb55fbedc9b056956e30120db290"@
}

/// The digest that the Windows XP build's hash writes.
pub open spec fn xp_digest() -> Seq<u8> {
    seq![0x38u8, 0x6eu8, 0x7au8, 0xcbu8, 0x8cu8, 0xc3u8, 0xecu8, 0xaau8, 0xbcu8, 0x80u8, 0x05u8, 0x89u8, 0x4cu8, 0xf7u8, 0x83u8, 0xb5u8, 0x1au8, 0x8au8, 0xc7u8, 0xf6u8]
}

/// The digest that the Windows 7 build's hash writes.
pub open spec fn win7_digest() -> Seq<u8> {
    seq![0x98u8, 0x5au8, 0x6du8, 0xeau8, 0xb0u8, 0x1eu8, 0xdbu8, 0x55u8, 0xfbu8, 0xedu8, 0xc9u8, 0xb0u8, 0x56u8, 0x95u8, 0x6eu8, 0x30u8, 0x12u8, 0x0du8, 0xb2u8, 0x90u8]
}

/// The digest that a legacy version's fixed hash writes.
pub open spec fn legacy_digest(e: Endpoint) -> Option<Seq<u8>> {
    match e {
        Endpoint::Xp => Some(xp_digest()),
        Endpoint::Win7 => Some(win7_digest()),
        _ => None,
    }
}

/// Relies on `nvda_url::XP_URL`, the link to NVDA 2017.3.
#[verifier::external_body]
fn xp_url() -> (r: String)
    ensures
        r@ == xp_url_text(),
{
    nvda_url::XP_URL.to_owned()
}

/// Relies on `nvda_url::XP_HASH`, the SHA-1 hash of NVDA 2017.3.
#[verifier::external_body]
fn xp_hash() -> (r: String)
    ensures
        r@ == xp_hash_text(),
{
    nvda_url::XP_HASH.to_owned()
}

/// Relies on `nvda_url::WIN7_URL`, the link to NVDA 2023.3.4.
#[verifier::external_body]
fn win7_url() -> (r: String)
    ensures
        r@ == win7_url_text(),
{
    nvda_url::WIN7_URL.to_owned()
}

/// Relies on `nvda_url::WIN7_HASH`, the SHA-1 hash of NVDA 2023.3.4.
#[verifier::external_body]
fn win7_hash() -> (r: String)
    ensures
        r@ == win7_hash_text(),
{
    nvda_url::WIN7_HASH.to_owned()
}

/// A resolved release: where to download it and, if known, its hash.
#[derive(Debug, Clone, PartialEq, Eq)]
pub struct ReleaseDescriptor {
    pub download_url: String,
    pub expected_hash: Option<String>,
}

/// Why a channel could not be resolved.
#[derive(Debug, Clone, PartialEq, Eq)]
pub enum ResolutionError {
    /// The metadata request failed, with a description.
    Transport(String),
    /// The metadata named no download link.
    MissingUrl,
    /// The download link in the metadata is not an HTTP or HTTPS link.
    MalformedResponse,
}

/// How a version is resolved: from a fixed entry, or by asking the service.
#[derive(Debug, Clone, PartialEq, Eq)]
pub enum Source {
    Fixed(ReleaseDescriptor),
    Dynamic(Channel),
}

/// What the metadata request gave back.
#[derive(Debug, Clone, PartialEq, Eq)]
pub enum MetadataReply {
    /// The request failed (no connection, timeout, error status).
    Failed(String),
    /// The fields found in the response.
    Received { url: Option<String>, hash: Option<String> },
}

impl Endpoint {
    /// The service channel of a dynamic version.
    pub open spec fn channel_spec(self) -> Option<Channel> {
        match self {
            Endpoint::Stable => Some(Channel::Stable),
            Endpoint::Alpha => Some(Channel::Alpha),
            Endpoint::Beta => Some(Channel::Beta),
            _ => None,
        }
    }

    /// The fixed link of a legacy version.
    pub open spec fn fixed_url_spec(self) -> Option<Seq<char>> {
        match self {
            Endpoint::Xp => Some(xp_url_text()),
            Endpoint::Win7 => Some(win7_url_text()),
            _ => None,
        }
    }

    /// The fixed hash of a legacy version.
    pub open spec fn fixed_hash_spec(self) -> Option<Seq<char>> {
        match self {
            Endpoint::Xp => Some(xp_hash_text()),
            Endpoint::Win7 => Some(win7_hash_text()),
            _ => None,
        }
    }

    /// The version is one of the fixed legacy builds.
    pub open spec fn is_legacy(self) -> bool {
        self is Xp || self is Win7
    }

    /// The service channel to ask, for a dynamic version.
    pub fn as_version_type(&self) -> (r: Option<Channel>)
        ensures
            r == self.channel_spec(),
    {
        match self {
            Endpoint::Stable => Some(Channel::Stable),
            Endpoint::Alpha => Some(Channel::Alpha),
            Endpoint::Beta => Some(Channel::Beta),
            _ => None,
        }
    }

    /// The fixed download link, for a legacy version.
    pub fn as_fixed_url(&self) -> (r: Option<String>)
        ensures
            r matches Some(u) ==> self.fixed_url_spec() == Some(u@),
            r is None ==> self.fixed_url_spec() is None,
    {
        match self {
            Endpoint::Xp => Some(xp_url()),
            Endpoint::Win7 => Some(win7_url()),
            _ => None,
        }
    }

    /// The fixed hash, for a legacy version.
    pub fn as_fixed_hash(&self) -> (r: Option<String>)
        ensures
            r matches Some(h) ==> self.fixed_hash_spec() == Some(h@),
            r is None ==> self.fixed_hash_spec() is None,
    {
        match self {
            Endpoint::Xp => Some(xp_hash()),
            Endpoint::Win7 => Some(win7_hash()),
            _ => None,
        }
    }

    /// How this version is resolved: a legacy version from its fixed
    /// entry, with no request; any other by asking its channel.
    pub fn source(&self) -> (r: Source)
        ensures
            self.is_legacy() <==> r is Fixed,
            r matches Source::Fixed(d) ==> {
                &&& self.fixed_url_spec() == Some(d.download_url@)
                &&& self.fixed_hash_spec() == Some(d.expected_hash->0@)
                &&& d.expected_hash is Some
            },
            r matches Source::Dynamic(c) ==> self.channel_spec() == Some(c),
    {
        match self {
            Endpoint::Xp => Source::Fixed(
                ReleaseDescriptor { download_url: xp_url(), expected_hash: Some(xp_hash()) },
            ),
            Endpoint::Win7 => Source::Fixed(
                ReleaseDescriptor { download_url: win7_url(), expected_hash: Some(win7_hash()) },
            ),
            Endpoint::Stable => Source::Dynamic(Channel::Stable),
            Endpoint::Alpha => Source::Dynamic(Channel::Alpha),
            Endpoint::Beta => Source::Dynamic(Channel::Beta),
        }
    }
}

/// Each legacy version has a fixed HTTPS link and a fixed hash that decodes
/// to its digest of twenty bytes, so it resolves with no request.
pub proof fn legacy_entries_are_complete(e: Endpoint)
    requires
        e.is_legacy(),
    ensures
        e.fixed_url_spec() matches Some(u) && is_download_url(u),
        e.fixed_hash_spec() matches Some(h) && decode_digest_spec(h) == legacy_digest(e),
        legacy_digest(e) matches Some(d) && d.len() == DIGEST_LEN,
{
    reveal_strlit("https://download.nvaccess.org/releases/2017.3/nvda_2017.3.exe");
    reveal_strlit("386e7acb8cc3ecaabc8005894cf783b51a8ac7f6");
    reveal_strlit("https://download.nvaccess.org/releases/2023.3.4/nvda_2023.3.4.exe");
    reveal_strlit("985a6deab01edb55fbedc9b056956e30120db290");
    assert(xp_url_text().take(8) =~= https_scheme());
    assert(win7_url_text().take(8) =~= https_scheme());
    assert(is_digest_text(xp_hash_text()));
    assert(is_digest_text(win7_hash_text()));
    assert(decode_digest_spec(xp_hash_text())->0 =~= xp_digest());
    assert(decode_digest_spec(win7_hash_text())->0 =~= win7_digest());
}

/// The descriptor, or the error, that a metadata reply resolves to.
pub open spec fn resolution_spec(reply: MetadataReply) -> Result<
    ReleaseDescriptor,
    ResolutionError,
> {
    match reply {
        MetadataReply::Failed(detail) => Err(ResolutionError::Transport(detail)),
        MetadataReply::Received { url, hash } => match url {
            None => Err(ResolutionError::MissingUrl),
            Some(u) => if is_download_url(u@) {
                Ok(ReleaseDescriptor { download_url: u, expected_hash: hash })
            } else {
                Err(ResolutionError::MalformedResponse)
            },
        },
    }
}

/// Resolves a dynamic channel from the reply to its metadata request. A
/// missing hash is no error: the descriptor then has none.
pub fn resolve_reply(reply: MetadataReply) -> (r: Result<ReleaseDescriptor, ResolutionError>)
    ensures
        r == resolution_spec(reply),
{
    match reply {
        MetadataReply::Failed(detail) => Err(ResolutionError::Transport(detail)),
        MetadataReply::Received { url, hash } => match url {
            None => Err(ResolutionError::MissingUrl),
            Some(u) => if check_download_url(u.as_str()) {
                Ok(ReleaseDescriptor { download_url: u, expected_hash: hash })
            } else {
                Err(ResolutionError::MalformedResponse)
            },
        },
    }
}

} // verus!
