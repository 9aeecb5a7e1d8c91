//! The upload flow: from an accepted file to a terminal outcome.
//!
//! Validation of the declared file name happens in the classifier, before
//! any network access. The flow then decodes the retrieved bytes into a
//! theme, derives the display name from the file name's stem, and — once
//! the remote submission has answered — decides exactly one outcome.
use vstd::prelude::*;

use crate::event::has_theme_extension;
use crate::event::stem_of;
use crate::event::theme_stem;
use crate::theme_codec::check_parse_safe;
use crate::theme_codec::parse_safe;
use crate::theme_codec::parsed_theme_hex_bytes;
use crate::theme_codec::theme_from_bytes;
use crate::theme_codec::theme_hex_bytes;

verus! {

/// A decoded theme together with the name it is to be submitted under.
pub struct PreparedUpload {
    /// The file name's stem: the human-readable label and submission name.
    pub display_name: String,
    /// The decoded theme, ready for submission to the remote service.
    pub theme: attheme::Attheme,
}

/// What submitting a theme to the remote service produced.
pub enum SubmitResult {
    /// The service stored the theme under this identifier.
    Submitted { identifier: String },
    /// Any failure; it is logged and never surfaced to the user.
    SubmitFailed,
}

/// The upload flow's terminal outcome; exactly one is produced per event.
pub enum UploadOutcome {
    /// Reply with a link-bearing button for the stored theme.
    Success { identifier: String, display_name: String },
    /// The declared file name was absent or had the wrong suffix.
    RejectedFileType,
    /// The file's bytes lie outside what the theme parser handles; the flow
    /// terminates with no reply, like every other non-user-visible failure.
    MalformedTheme,
    /// A failure that is logged and never surfaced to the user.
    TransportError,
}

/// Decodes the retrieved bytes and derives the display name. Decoding never
/// errors — malformed variables become a degenerate theme — but the parser
/// accepts only the bytes [`parse_safe`] describes; anything else ends the
/// flow at once with the malformed-theme outcome, before any remote call.
pub fn prepare_upload(file_name: &str, bytes: &Vec<u8>) -> (prepared: Result<
    PreparedUpload,
    UploadOutcome,
>)
    requires
        has_theme_extension(file_name@),
    ensures
        prepared is Ok <==> parse_safe(bytes@),
        prepared matches Ok(p) ==> {
            &&& p.display_name@ == stem_of(file_name@)
            &&& theme_hex_bytes(p.theme) == parsed_theme_hex_bytes(bytes@)
        },
        prepared matches Err(outcome) ==> outcome is MalformedTheme,
{
    if !check_parse_safe(bytes) {
        return Err(UploadOutcome::MalformedTheme);
    }
    let theme = theme_from_bytes(bytes);
    let display_name = theme_stem(file_name);
    Ok(PreparedUpload { display_name, theme })
}

/// Decides the upload flow's outcome from the remote submission's answer.
pub fn upload_flow(submit: SubmitResult, display_name: String) -> (outcome: UploadOutcome)
    ensures
        outcome is Success <==> submit is Submitted,
        submit is Submitted ==> {
            &&& outcome->identifier == submit->identifier
            &&& outcome->display_name == display_name
        },
        outcome is TransportError <==> submit is SubmitFailed,
{
    match submit {
        SubmitResult::Submitted { identifier } => UploadOutcome::Success {
            identifier,
            display_name,
        },
        SubmitResult::SubmitFailed => UploadOutcome::TransportError,
    }
}

} // verus!
