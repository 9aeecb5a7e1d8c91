//! The response composer: from a flow's outcome to the one composed reply.
//!
//! Pure mapping, no network: every flow outcome becomes at most one reply —
//! none at all for the silently dropped transport failures — and the reply
//! carries the message text, at most one link button, and at most one file
//! attachment.
use vstd::prelude::*;
use vstd::string::*;

use crate::download::spec_download_bytes;
use crate::download::spec_download_file_name;
use crate::download::spec_download_succeeds;
use crate::download::download_flow;
use crate::download::DownloadOutcome;
use crate::download::FetchResult;
use crate::event::GreetingKind;
use crate::event::has_theme_extension;
use crate::event::stem_of;
use crate::localization;
use crate::localization::Message;
use crate::theme_codec::theme_hex_bytes;
use crate::upload::upload_flow;
use crate::upload::SubmitResult;
use crate::upload::UploadOutcome;

verus! {

/// One interactive button that opens a URL.
pub struct UrlButton {
    pub label: String,
    pub url: String,
}

/// One file attachment: its suggested name and its raw bytes.
pub struct Attachment {
    pub file_name: String,
    pub bytes: Vec<u8>,
}

/// One composed reply: a text, at most one button, at most one attachment.
pub struct Reply {
    pub text: Message,
    pub button: Option<UrlButton>,
    pub attachment: Option<Attachment>,
}

/// The editor URL that opens the theme stored under `identifier`.
pub open spec fn spec_editor_link(identifier: Seq<char>) -> Seq<char> {
    "https://attheme-editor.snejugal.ru/?themeId="@ + identifier
}

/// The label of the button that opens `display_name` in the editor.
pub open spec fn spec_open_button_label(display_name: Seq<char>) -> Seq<char> {
    "Open "@ + display_name + " in the editor"@
}

/// Builds the deep link into the external editor for a stored theme.
pub fn editor_link(identifier: &str) -> (url: String)
    ensures
        url@ == spec_editor_link(identifier@),
{
    let mut url = String::from_str("https://attheme-editor.snejugal.ru/?themeId=");
    url.append(identifier);
    url
}

/// Composes the greeting reply; no remote call is involved.
pub fn compose_greeting_reply(kind: &GreetingKind) -> (reply: Reply)
    ensures
        reply.button is None,
        reply.attachment is None,
        kind is Start ==> reply.text.text@ == localization::spec_start_text(),
        kind is Help ==> reply.text.text@ == localization::spec_help_text(),
{
    let text = match kind {
        GreetingKind::Start => localization::start_message(),
        GreetingKind::Help => localization::help_message(),
    };
    Reply { text, button: None, attachment: None }
}

/// Composes the download flow's reply: the converted theme as a captioned
/// file on success, an explanatory message for an empty or expired theme,
/// and no reply at all for a transport failure.
pub fn compose_download_reply(outcome: DownloadOutcome) -> (reply: Option<Reply>)
    ensures
        reply is Some <==> !(outcome is TransportError),
        outcome matches DownloadOutcome::Success { file_name, bytes } ==> {
            &&& reply->0.attachment matches Some(a) && a.file_name == file_name && a.bytes
                == bytes
            &&& reply->0.text.text@ == localization::spec_theme_file_caption_text()
            &&& reply->0.button is None
        },
        outcome is EmptyTheme ==> {
            &&& reply->0.text.text@ == localization::spec_empty_theme_text()
            &&& reply->0.attachment is None
            &&& reply->0.button is None
        },
        outcome is Expired ==> {
            &&& reply->0.text.text@ == localization::spec_theme_expired_text()
            &&& reply->0.attachment is None
            &&& reply->0.button is None
        },
{
    match outcome {
        DownloadOutcome::Success { file_name, bytes } => Some(
            Reply {
                text: localization::theme_file_caption(),
                button: None,
                attachment: Some(Attachment { file_name, bytes }),
            },
        ),
        DownloadOutcome::EmptyTheme => Some(
            Reply { text: localization::empty_theme(), button: None, attachment: None },
        ),
        DownloadOutcome::Expired => Some(
            Reply { text: localization::theme_expired(), button: None, attachment: None },
        ),
        DownloadOutcome::TransportError => None,
    }
}

/// Composes the upload flow's reply: the success message with its one
/// link-bearing button, the wrong-file-type message for a rejected name,
/// and no reply at all for a transport failure or for bytes the theme
/// parser does not handle.
pub fn compose_upload_reply(outcome: UploadOutcome) -> (reply: Option<Reply>)
    ensures
        reply is Some <==> (outcome is Success || outcome is RejectedFileType),
        outcome matches UploadOutcome::Success { identifier, display_name } ==> {
            &&& reply->0.text.text@ == localization::spec_theme_uploaded_text()
            &&& reply->0.button matches Some(b) && b.label@ == spec_open_button_label(
                display_name@,
            ) && b.url@ == spec_editor_link(identifier@)
            &&& reply->0.attachment is None
        },
        outcome is RejectedFileType ==> {
            &&& reply->0.text.text@ == localization::spec_wrong_file_type_text()
            &&& reply->0.button is None
            &&& reply->0.attachment is None
        },
{
    match outcome {
        UploadOutcome::Success { identifier, display_name } => {
            let label = localization::open_theme_button(display_name.as_str());
            let url = editor_link(identifier.as_str());
            Some(
                Reply {
                    text: localization::theme_uploaded(),
                    button: Some(UrlButton { label, url }),
                    attachment: None,
                },
            )
        },
        UploadOutcome::RejectedFileType => Some(
            Reply { text: localization::wrong_file_type(), button: None, attachment: None },
        ),
        UploadOutcome::MalformedTheme => None,
        UploadOutcome::TransportError => None,
    }
}

/// Runs the download flow's decisions end to end: decides the outcome of
/// the fetch and composes its reply. A successful download whose converted
/// byte length is zero is answered with the empty-theme message and no
/// document; a transport failure is dropped silently.
pub fn download_reply(fetch: FetchResult) -> (reply: Option<Reply>)
    ensures
        reply is Some <==> !(fetch is TransportError),
        spec_download_succeeds(fetch) ==> {
            &&& reply->0.attachment matches Some(a) && a.file_name@ == spec_download_file_name(
                fetch,
            ) && a.bytes@ == spec_download_bytes(fetch)
            &&& reply->0.text.text@ == localization::spec_theme_file_caption_text()
            &&& reply->0.button is None
        },
        fetch is Fetched && theme_hex_bytes(fetch->content).len() == 0 ==> {
            &&& reply->0.text.text@ == localization::spec_empty_theme_text()
            &&& reply->0.attachment is None
            &&& reply->0.button is None
        },
        fetch is NotFound ==> {
            &&& reply->0.text.text@ == localization::spec_theme_expired_text()
            &&& reply->0.attachment is None
            &&& reply->0.button is None
        },
{
    let outcome = download_flow(fetch);
    compose_download_reply(outcome)
}

/// Runs the upload flow's tail end to end: decides the outcome of the
/// remote submission and composes its reply. A successful submission is
/// answered with the success message and exactly one button that deep-links
/// into the editor; a failed one is dropped silently.
pub fn upload_reply(submit: SubmitResult, display_name: String) -> (reply: Option<Reply>)
    ensures
        reply is Some <==> submit is Submitted,
        submit matches SubmitResult::Submitted { identifier } ==> {
            &&& reply->0.text.text@ == localization::spec_theme_uploaded_text()
            &&& reply->0.button matches Some(b) && b.label@ == spec_open_button_label(
                display_name@,
            ) && b.url@ == spec_editor_link(identifier@)
            &&& reply->0.attachment is None
        },
{
    let outcome = upload_flow(submit, display_name);
    compose_upload_reply(outcome)
}

/// For every successful upload of a file accepted by validation, the reply's
/// one button is labeled `Open <stem> in the editor`, where `<stem>` is the
/// declared file name with its trailing recognized extension removed.
pub proof fn lemma_upload_button_label(file_name: Seq<char>, display_name: Seq<char>, label: Seq<char>)
    requires
        has_theme_extension(file_name),
        display_name == stem_of(file_name),
        label == spec_open_button_label(display_name),
    ensures
        label == "Open "@ + stem_of(file_name) + " in the editor"@,
{
}

} // verus!
