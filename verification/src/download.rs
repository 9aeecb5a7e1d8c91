//! The download flow: from the remote service's answer to a terminal outcome.
//!
//! Fetching the theme over the network happens outside this flow; the flow
//! takes the fetch's result, converts a fetched theme to file bytes under
//! the hexadecimal color convention, and decides exactly one outcome.
use vstd::prelude::*;
use vstd::string::*;

use crate::theme_codec::theme_hex_bytes;
use crate::theme_codec::theme_to_hex_bytes;

verus! {

/// What fetching a theme from the remote service produced.
pub enum FetchResult {
    /// The service returned the theme's name and content.
    Fetched { name: String, content: attheme::Attheme },
    /// The service classified the identifier as not found or a bad request.
    NotFound,
    /// Any other transport or protocol failure.
    TransportError,
}

/// The download flow's terminal outcome; exactly one is produced per event.
pub enum DownloadOutcome {
    /// Deliver the converted bytes as a file attachment under `file_name`.
    Success { file_name: String, bytes: Vec<u8> },
    /// The theme converted to zero bytes, which cannot be attached.
    EmptyTheme,
    /// The identifier no longer addresses a stored theme.
    Expired,
    /// A failure that is logged and never surfaced to the user.
    TransportError,
}

/// True when the flow is owed a delivered file: the fetch succeeded and the
/// converted bytes are not empty.
pub open spec fn spec_download_succeeds(fetch: FetchResult) -> bool {
    &&& fetch is Fetched
    &&& theme_hex_bytes(fetch->content).len() > 0
}

/// The bytes a successful download delivers.
pub open spec fn spec_download_bytes(fetch: FetchResult) -> Seq<u8>
    recommends
        fetch is Fetched,
{
    theme_hex_bytes(fetch->content)
}

/// The attachment name of a successful download: `<theme name>.attheme`.
pub open spec fn spec_download_file_name(fetch: FetchResult) -> Seq<char>
    recommends
        fetch is Fetched,
{
    fetch->name@ + ".attheme"@
}

/// Decides the download flow's outcome from the fetch's result.
pub fn download_flow(fetch: FetchResult) -> (outcome: DownloadOutcome)
    ensures
        outcome is Success <==> spec_download_succeeds(fetch),
        spec_download_succeeds(fetch) ==> {
            &&& outcome->bytes@ == spec_download_bytes(fetch)
            &&& outcome->file_name@ == spec_download_file_name(fetch)
        },
        outcome is EmptyTheme <==> (fetch is Fetched && theme_hex_bytes(fetch->content).len()
            == 0),
        outcome is Expired <==> fetch is NotFound,
        outcome is TransportError <==> fetch is TransportError,
{
    match fetch {
        FetchResult::Fetched { name, content } => {
            let bytes = theme_to_hex_bytes(&content);
            if bytes.len() == 0 {
                DownloadOutcome::EmptyTheme
            } else {
                let mut file_name = name;
                file_name.append(".attheme");
                DownloadOutcome::Success { file_name, bytes }
            }
        },
        FetchResult::NotFound => DownloadOutcome::Expired,
        FetchResult::TransportError => DownloadOutcome::TransportError,
    }
}

/// Idempotence: repeating the same download request against an unchanged
/// remote theme yields byte-identical output — equal fetched themes decide
/// equal outcomes, down to the delivered bytes and attachment name.
pub proof fn lemma_download_idempotent(first: FetchResult, second: FetchResult)
    requires
        first is Fetched,
        second is Fetched,
        first->name@ == second->name@,
        theme_hex_bytes(first->content) == theme_hex_bytes(second->content),
    ensures
        spec_download_succeeds(first) == spec_download_succeeds(second),
        spec_download_bytes(first) == spec_download_bytes(second),
        spec_download_file_name(first) == spec_download_file_name(second),
{
}

} // verus!
