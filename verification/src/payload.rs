//! The status payload, the acceptance filter and the artifacts of an
//! accepted payload.

use crate::error::ProbeError;
use vstd::prelude::*;
use vstd::slice::slice_subrange;
use vstd::string::StringExecFns;
use vstd::string::StringSliceAdditionalSpecFns;

verus! {

/// The protocol version that a probe announces unless told otherwise.
pub const PROTOCOL_VERSION: u32 = 760;

/// The player cap that an accepted server reports.
pub const PLAYER_CAP: u32 = 50;

/// The length in bytes of the scheme prefix of a favicon data URI,
/// `data:image/png;base64,`.
pub const FAVICON_PREFIX_LEN: usize = 22;

/// The description of a server.
#[derive(Clone, Debug, PartialEq, Eq)]
pub struct MOTDDescription {
    pub text: String,
}

/// One player of the sample that a server lists.
#[derive(Clone, Debug, PartialEq, Eq)]
pub struct MOTDPlayer {
    pub name: String,
    pub id: String,
}

/// The player counts of a server.
#[derive(Clone, Debug, PartialEq, Eq)]
pub struct MOTDPlayers {
    pub max: u32,
    pub online: u32,
    pub sample: Option<Vec<MOTDPlayer>>,
}

/// The version that a server runs.
#[derive(Clone, Debug, PartialEq, Eq)]
pub struct MOTDVersion {
    pub name: String,
    pub protocol: u32,
}

/// The status payload of a server.
#[derive(Clone, Debug, PartialEq, Eq)]
pub struct MOTD {
    pub description: MOTDDescription,
    pub players: MOTDPlayers,
    pub version: MOTDVersion,
    /// A data URI: a scheme prefix of fixed length, then the image in
    /// base64.
    pub favicon: Option<String>,
}

/// The first condition of the acceptance filter that a payload fails.
#[derive(Clone, Copy, Debug, PartialEq, Eq, Structural)]
pub enum Rejection {
    /// The player cap is not the one looked for.
    PlayerCap,
    /// The payload carries no favicon.
    NoFavicon,
    /// The server speaks another protocol version than the one announced.
    ProtocolMismatch,
}

/// Whether a payload passes the acceptance filter: the player cap is 50,
/// a favicon is present, and the protocol version is the announced one.
pub open spec fn passes_filter(payload: MOTD, protocol_version: u32) -> bool {
    &&& payload.players.max == PLAYER_CAP
    &&& payload.favicon is Some
    &&& payload.version.protocol == protocol_version
}

/// The first of the three conditions, in the order player cap, favicon,
/// protocol version, that a payload fails; `None` when it passes all.
pub open spec fn first_rejection(payload: MOTD, protocol_version: u32) -> Option<Rejection> {
    if payload.players.max != PLAYER_CAP {
        Some(Rejection::PlayerCap)
    } else if payload.favicon is None {
        Some(Rejection::NoFavicon)
    } else if payload.version.protocol != protocol_version {
        Some(Rejection::ProtocolMismatch)
    } else {
        None
    }
}

/// Applies the acceptance filter, condition by condition in their order.
/// Gives the favicon of a payload that passes, and names the first
/// condition that fails of one that does not.
pub fn screen(payload: &MOTD, protocol_version: u32) -> (res: Result<&String, Rejection>)
    ensures
        match res {
            Ok(favicon) => {
                &&& first_rejection(*payload, protocol_version) is None
                &&& payload.favicon == Some(*favicon)
            },
            Err(rejection) => first_rejection(*payload, protocol_version) == Some(rejection),
        },
        res is Ok <==> passes_filter(*payload, protocol_version),
{
    if payload.players.max != PLAYER_CAP {
        return Err(Rejection::PlayerCap);
    }
    match &payload.favicon {
        None => Err(Rejection::NoFavicon),
        Some(favicon) => {
            if payload.version.protocol != protocol_version {
                Err(Rejection::ProtocolMismatch)
            } else {
                Ok(favicon)
            }
        },
    }
}

/// Whether a payload passes the acceptance filter.
pub fn accepts(payload: &MOTD, protocol_version: u32) -> (accepted: bool)
    ensures
        accepted == passes_filter(*payload, protocol_version),
{
    screen(payload, protocol_version).is_ok()
}

/// `base64::DecodeError`, the reason why an input is not base64. Nothing
/// is read from it.
#[verifier::external_type_specification]
#[verifier::external_body]
pub struct ExDecodeError(base64::DecodeError);

/// What `base64::decode` makes of its input: the decoded bytes, or `None`
/// where it reports an error.
pub uninterp spec fn base64_decoded(input: Seq<u8>) -> Option<Seq<u8>>;

/// Calls `base64::decode`, which decodes standard base64 with padding. Its
/// result is a function of the input bytes alone. It adds up to seven to
/// the length of its input and panics when that sum overflows.
#[verifier::external_body]
fn base64_decode(input: &[u8]) -> (outcome: Result<Vec<u8>, base64::DecodeError>)
    requires
        input@.len() + 7 <= usize::MAX,
    ensures
        match outcome {
            Ok(bytes) => base64_decoded(input@) == Some(bytes@),
            Err(_) => base64_decoded(input@) is None,
        },
{
    base64::decode(input)
}

/// The base64 body of a favicon: what follows the scheme prefix. `None`
/// when the favicon is shorter than the prefix.
pub open spec fn favicon_body(favicon: Seq<u8>) -> Option<Seq<u8>> {
    if favicon.len() >= FAVICON_PREFIX_LEN {
        Some(favicon.skip(FAVICON_PREFIX_LEN as int))
    } else {
        None
    }
}

/// The image that a favicon holds: its body, decoded. `None` when there is
/// no body or the body is not base64.
pub open spec fn favicon_image_bytes(favicon: Seq<u8>) -> Option<Seq<u8>> {
    match favicon_body(favicon) {
        Some(body) => base64_decoded(body),
        None => None,
    }
}

/// Skips the scheme prefix of a favicon. The prefix is skipped by its
/// length; what it says is not looked at.
pub fn skip_favicon_prefix(favicon: &str) -> (body: Option<&[u8]>)
    ensures
        match body {
            Some(bytes) => {
                &&& favicon_body(favicon.spec_bytes()) == Some(bytes@)
                &&& bytes@.len() + FAVICON_PREFIX_LEN <= usize::MAX
            },
            None => favicon_body(favicon.spec_bytes()) is None,
        },
{
    let bytes = favicon.as_bytes();
    if bytes.len() < FAVICON_PREFIX_LEN {
        None
    } else {
        Some(slice_subrange(bytes, FAVICON_PREFIX_LEN, bytes.len()))
    }
}

/// Turns the outcome of decoding a favicon body into the image or the
/// probe's error.
pub fn image_from_decoded(outcome: Result<Vec<u8>, base64::DecodeError>) -> (res: Result<
    Vec<u8>,
    ProbeError,
>)
    ensures
        match outcome {
            Ok(bytes) => res == Ok::<Vec<u8>, ProbeError>(bytes),
            Err(_) => res == Err::<Vec<u8>, ProbeError>(ProbeError::FaviconDecodeError),
        },
{
    match outcome {
        Ok(bytes) => Ok(bytes),
        Err(_) => Err(ProbeError::FaviconDecodeError),
    }
}

/// Extracts the image from a favicon: skips the scheme prefix and decodes
/// the rest as base64.
pub fn favicon_image(favicon: &str) -> (res: Result<Vec<u8>, ProbeError>)
    ensures
        match res {
            Ok(image) => favicon_image_bytes(favicon.spec_bytes()) == Some(image@),
            Err(e) => {
                &&& e == ProbeError::FaviconDecodeError
                &&& favicon_image_bytes(favicon.spec_bytes()) is None
            },
        },
{
    match skip_favicon_prefix(favicon) {
        Some(body) => image_from_decoded(base64_decode(body)),
        None => Err(ProbeError::FaviconDecodeError),
    }
}

/// The directory that artifacts are written to.
pub open spec fn output_dir() -> Seq<char> {
    "data/"@
}

/// Where the document of an accepted payload goes: a file named by the
/// host, in the output directory.
pub fn payload_path(host: &str) -> (path: String)
    ensures
        path@ == output_dir() + host@ + ".json"@,
{
    let mut path = String::from_str("data/");
    path.append(host);
    path.append(".json");
    path
}

/// Where the image of an accepted payload goes: beside the document.
pub fn image_path(host: &str) -> (path: String)
    ensures
        path@ == output_dir() + host@ + ".png"@,
{
    let mut path = String::from_str("data/");
    path.append(host);
    path.append(".png");
    path
}

} // verus!
