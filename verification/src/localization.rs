//! The canned user-facing strings.
//!
//! Every reply the bot sends is one of the messages below. The formatted
//! ones are rendered through `tbot`'s MarkdownV2 markup utilities, which
//! escape the pieces and join them; what exactly the rendering yields is
//! left abstract and only named, since the bot's logic never inspects it.
use vstd::prelude::*;
use vstd::string::*;

verus! {

/// How a message's text is to be interpreted by the chat platform.
pub enum TextKind {
    Plain,
    MarkdownV2,
}

/// One user-facing message: its text and the markup mode it was rendered for.
pub struct Message {
    pub kind: TextKind,
    pub text: String,
}

/// What `tbot`'s MarkdownV2 renderer yields for a message made of a leading
/// piece, a link, a middle piece, an inline-code piece and a trailing piece.
pub uninterp spec fn md_link_code_of(
    pre: Seq<char>,
    link_text: Seq<char>,
    url: Seq<char>,
    mid: Seq<char>,
    code: Seq<char>,
    post: Seq<char>,
) -> Seq<char>;

/// What `tbot`'s MarkdownV2 renderer yields for a message made of a leading
/// piece, an inline-code piece and a trailing piece.
pub uninterp spec fn md_code_of(pre: Seq<char>, code: Seq<char>, post: Seq<char>) -> Seq<char>;

/// What `tbot`'s MarkdownV2 renderer yields for a message made of a leading
/// piece, a bold piece and a trailing piece.
pub uninterp spec fn md_bold_of(pre: Seq<char>, bold: Seq<char>, post: Seq<char>) -> Seq<char>;

/// Relies on `tbot::markup::markdown_v2` (with `link` and `inline_code`):
/// rendering escapes and joins the pieces and depends on the pieces alone.
#[verifier::external_body]
fn render_md_link_code(
    pre: &str,
    link_text: &str,
    url: &str,
    mid: &str,
    code: &str,
    post: &str,
) -> (rendered: String)
    ensures
        rendered@ == md_link_code_of(pre@, link_text@, url@, mid@, code@, post@),
{
    tbot::markup::markdown_v2((
        pre,
        tbot::markup::link(link_text, url),
        mid,
        tbot::markup::inline_code([code]),
        post,
    ))
    .to_string()
}

/// Relies on `tbot::markup::markdown_v2` (with `inline_code`): rendering
/// escapes and joins the pieces and depends on the pieces alone.
#[verifier::external_body]
fn render_md_code(pre: &str, code: &str, post: &str) -> (rendered: String)
    ensures
        rendered@ == md_code_of(pre@, code@, post@),
{
    tbot::markup::markdown_v2((pre, tbot::markup::inline_code([code]), post)).to_string()
}

/// Relies on `tbot::markup::markdown_v2` (with `bold`): rendering escapes
/// and joins the pieces and depends on the pieces alone.
#[verifier::external_body]
fn render_md_bold(pre: &str, bold: &str, post: &str) -> (rendered: String)
    ensures
        rendered@ == md_bold_of(pre@, bold@, post@),
{
    tbot::markup::markdown_v2((pre, tbot::markup::bold(bold), post)).to_string()
}

/// The text of the greeting for a bare start invocation.
pub open spec fn spec_start_text() -> Seq<char> {
    md_link_code_of(
        "Hello! I'm a bot that makes it easier to open themes in "@,
        ".attheme editor"@,
        "https://attheme-editor.snejugal.ru"@,
        ". Just send me an "@,
        ".attheme"@,
        " file, and I will send you the link to open it."@,
    )
}

/// The text of the reply to an explicit help invocation.
pub open spec fn spec_help_text() -> Seq<char> {
    md_link_code_of(
        "I'm a bot that makes it easier to open themes in "@,
        ".attheme editor"@,
        "https://attheme-editor.snejugal.ru"@,
        ". Just send me an "@,
        ".attheme"@,
        " file, and I will send you the link to open it."@,
    )
}

/// The text of the reply to a document of the wrong file type.
pub open spec fn spec_wrong_file_type_text() -> Seq<char> {
    md_code_of(
        "Hmm, looks like you sent a wrong file — I only know how to work with "@,
        ".attheme"@,
        " files."@,
    )
}

/// The text of the message accompanying a successful upload's button.
pub open spec fn spec_theme_uploaded_text() -> Seq<char> {
    md_bold_of(
        "The theme is ready to be opened in the editor! Just tap the button below.\n\n"@,
        "Warning:"@,
        " Once you use the link, it expires and can't be used anymore."@,
    )
}

/// The text of the reply when a theme serializes to an empty file.
pub open spec fn spec_empty_theme_text() -> Seq<char> {
    "Oops, your theme is empty, Telegram doesn't allow such ones."@
}

/// The caption attached to a delivered theme file.
pub open spec fn spec_theme_file_caption_text() -> Seq<char> {
    "Here you go!"@
}

/// The text of the reply when the remote service no longer knows the
/// identifier.
pub open spec fn spec_theme_expired_text() -> Seq<char> {
    "Hmm. Looks like the theme has already expired."@
}

/// The greeting sent for a bare start invocation.
pub fn start_message() -> (message: Message)
    ensures
        message.kind is MarkdownV2,
        message.text@ == spec_start_text(),
{
    let text = render_md_link_code(
        "Hello! I'm a bot that makes it easier to open themes in ",
        ".attheme editor",
        "https://attheme-editor.snejugal.ru",
        ". Just send me an ",
        ".attheme",
        " file, and I will send you the link to open it.",
    );
    Message { kind: TextKind::MarkdownV2, text }
}

/// The reply to an explicit help invocation.
pub fn help_message() -> (message: Message)
    ensures
        message.kind is MarkdownV2,
        message.text@ == spec_help_text(),
{
    let text = render_md_link_code(
        "I'm a bot that makes it easier to open themes in ",
        ".attheme editor",
        "https://attheme-editor.snejugal.ru",
        ". Just send me an ",
        ".attheme",
        " file, and I will send you the link to open it.",
    );
    Message { kind: TextKind::MarkdownV2, text }
}

/// The reply to a document whose name does not end in the theme extension.
pub fn wrong_file_type() -> (message: Message)
    ensures
        message.kind is MarkdownV2,
        message.text@ == spec_wrong_file_type_text(),
{
    let text = render_md_code(
        "Hmm, looks like you sent a wrong file — I only know how to work with ",
        ".attheme",
        " files.",
    );
    Message { kind: TextKind::MarkdownV2, text }
}

/// The label of the inline button that opens an uploaded theme in the editor.
pub fn open_theme_button(theme: &str) -> (label: String)
    ensures
        label@ == "Open "@ + theme@ + " in the editor"@,
{
    let mut label = String::from_str("Open ");
    label.append(theme);
    label.append(" in the editor");
    label
}

/// The message accompanying the button after a successful upload.
pub fn theme_uploaded() -> (message: Message)
    ensures
        message.kind is MarkdownV2,
        message.text@ == spec_theme_uploaded_text(),
{
    let text = render_md_bold(
        "The theme is ready to be opened in the editor! Just tap the button below.\n\n",
        "Warning:",
        " Once you use the link, it expires and can't be used anymore.",
    );
    Message { kind: TextKind::MarkdownV2, text }
}

/// The reply when a downloaded theme serializes to an empty file.
pub fn empty_theme() -> (message: Message)
    ensures
        message.kind is Plain,
        message.text@ == spec_empty_theme_text(),
{
    Message {
        kind: TextKind::Plain,
        text: String::from_str("Oops, your theme is empty, Telegram doesn't allow such ones."),
    }
}

/// The caption attached to a delivered theme file.
pub fn theme_file_caption() -> (message: Message)
    ensures
        message.kind is Plain,
        message.text@ == spec_theme_file_caption_text(),
{
    Message { kind: TextKind::Plain, text: String::from_str("Here you go!") }
}

/// The reply when the remote service no longer knows the identifier.
pub fn theme_expired() -> (message: Message)
    ensures
        message.kind is Plain,
        message.text@ == spec_theme_expired_text(),
{
    Message {
        kind: TextKind::Plain,
        text: String::from_str("Hmm. Looks like the theme has already expired."),
    }
}

} // verus!
