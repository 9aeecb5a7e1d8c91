//! Incoming chat events and their classification.
//!
//! A single incoming event is routed to exactly one of three flows —
//! greeting, theme download by link, theme upload by file — with the
//! wrong-file-type case decided synchronously, before any network access.
use vstd::prelude::*;
use vstd::string::*;

verus! {

/// The number of characters of the recognized extension, `.attheme`,
/// leading dot included.
pub const THEME_EXTENSION_LEN: usize = 8;

/// True when `name` ends in the recognized theme extension
/// (a case-sensitive exact suffix match).
pub open spec fn has_theme_extension(name: Seq<char>) -> bool {
    &&& name.len() >= 8
    &&& name.subrange(name.len() - 8, name.len() as int) == ".attheme"@
}

/// The declared file name with its trailing recognized extension removed.
pub open spec fn stem_of(name: Seq<char>) -> Seq<char>
    recommends
        has_theme_extension(name),
{
    name.subrange(0, name.len() - 8)
}

/// One incoming chat event, as the platform delivers it.
pub enum ChatEvent {
    /// A start-style command, whose argument may be empty.
    StartCommand { argument: String },
    /// An explicit help invocation, which never carries an argument.
    HelpCommand,
    /// A message with an attached file, whose declared name may be absent.
    Document { file_name: Option<String> },
}

/// Which greeting a greeting-routed event asks for.
pub enum GreetingKind {
    Start,
    Help,
}

/// The flow an event is routed to; decided with no side effects.
pub enum Route {
    /// Reply with a canned greeting; no remote call is made.
    Greeting { kind: GreetingKind },
    /// Fetch the theme the argument identifies from the remote service.
    Download { identifier: String },
    /// Upload the attached file, whose name ends in the recognized extension.
    Upload { file_name: String },
    /// Reply at once that the file type is wrong; no remote call is made.
    WrongFileType,
}

/// Where [`classify`] routes an event.
pub open spec fn spec_classify(event: ChatEvent) -> Route {
    match event {
        ChatEvent::StartCommand { argument } => {
            if argument@.len() == 0 {
                Route::Greeting { kind: GreetingKind::Start }
            } else {
                Route::Download { identifier: argument }
            }
        },
        ChatEvent::HelpCommand => Route::Greeting { kind: GreetingKind::Help },
        ChatEvent::Document { file_name } => match file_name {
            Some(name) => {
                if has_theme_extension(name@) {
                    Route::Upload { file_name: name }
                } else {
                    Route::WrongFileType
                }
            },
            None => Route::WrongFileType,
        },
    }
}

/// True when the exec suffix test must answer: the last eight characters
/// spell out the extension.
proof fn lemma_extension_chars(name: Seq<char>)
    requires
        name.len() >= 8,
    ensures
        has_theme_extension(name) <==> {
            &&& name[name.len() - 8] == '.'
            &&& name[name.len() - 7] == 'a'
            &&& name[name.len() - 6] == 't'
            &&& name[name.len() - 5] == 't'
            &&& name[name.len() - 4] == 'h'
            &&& name[name.len() - 3] == 'e'
            &&& name[name.len() - 2] == 'm'
            &&& name[name.len() - 1] == 'e'
        },
{
    reveal_strlit(".attheme");
    let tail = name.subrange(name.len() - 8, name.len() as int);
    assert(tail.len() == 8);
    if tail =~= ".attheme"@ {
        assert(tail[0] == '.' && tail[1] == 'a' && tail[2] == 't' && tail[3] == 't' && tail[4]
            == 'h' && tail[5] == 'e' && tail[6] == 'm' && tail[7] == 'e');
    }
    if name[name.len() - 8] == '.' && name[name.len() - 7] == 'a' && name[name.len() - 6] == 't'
        && name[name.len() - 5] == 't' && name[name.len() - 4] == 'h' && name[name.len() - 3]
        == 'e' && name[name.len() - 2] == 'm' && name[name.len() - 1] == 'e' {
        assert(tail =~= ".attheme"@);
    }
}

/// Decides whether a declared file name ends in the recognized extension.
pub fn ends_with_theme_extension(name: &str) -> (matches: bool)
    ensures
        matches == has_theme_extension(name@),
{
    let len = name.unicode_len();
    if len < THEME_EXTENSION_LEN {
        return false;
    }
    proof {
        lemma_extension_chars(name@);
    }
    name.get_char(len - 8) == '.' && name.get_char(len - 7) == 'a' && name.get_char(len - 6)
        == 't' && name.get_char(len - 5) == 't' && name.get_char(len - 4) == 'h' && name.get_char(
        len - 3,
    ) == 'e' && name.get_char(len - 2) == 'm' && name.get_char(len - 1) == 'e'
}

/// Derives the display name of an uploaded theme: the declared file name
/// with its trailing recognized extension removed.
pub fn theme_stem(name: &str) -> (stem: String)
    requires
        has_theme_extension(name@),
    ensures
        stem@ == stem_of(name@),
{
    let len = name.unicode_len();
    let stem = name.substring_char(0, len - THEME_EXTENSION_LEN);
    String::from_str(stem)
}

/// A document whose declared name is absent, or present but not ending in
/// the recognized extension, is routed straight to the wrong-file-type
/// reply: no flow starts, so no remote-service call is ever made for it.
pub proof fn lemma_wrong_file_type_short_circuit(event: ChatEvent)
    requires
        event matches ChatEvent::Document { file_name } && (file_name matches Some(name)
            ==> !has_theme_extension(name@)),
    ensures
        spec_classify(event) is WrongFileType,
{
}

/// Routes one incoming event, with no side effect other than the decision.
pub fn classify(event: &ChatEvent) -> (route: Route)
    ensures
        route == spec_classify(*event),
{
    match event {
        ChatEvent::StartCommand { argument } => {
            if argument.as_str().is_empty() {
                Route::Greeting { kind: GreetingKind::Start }
            } else {
                Route::Download { identifier: argument.clone() }
            }
        },
        ChatEvent::HelpCommand => Route::Greeting { kind: GreetingKind::Help },
        ChatEvent::Document { file_name } => match file_name {
            Some(name) => {
                if ends_with_theme_extension(name.as_str()) {
                    Route::Upload { file_name: name.clone() }
                } else {
                    Route::WrongFileType
                }
            },
            None => Route::WrongFileType,
        },
    }
}

} // verus!
