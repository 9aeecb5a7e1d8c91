//! The flows end to end: classification, download, upload, liveness.
use attheme_bot::download::FetchResult;
use attheme_bot::event::classify;
use attheme_bot::event::ends_with_theme_extension;
use attheme_bot::event::theme_stem;
use attheme_bot::event::ChatEvent;
use attheme_bot::event::GreetingKind;
use attheme_bot::event::Route;
use attheme_bot::liveness::LivenessSignaler;
use attheme_bot::liveness::INDICATOR_INTERVAL_SECONDS;
use attheme_bot::reply::compose_greeting_reply;
use attheme_bot::reply::compose_upload_reply;
use attheme_bot::reply::download_reply;
use attheme_bot::reply::editor_link;
use attheme_bot::reply::upload_reply;
use attheme_bot::upload::prepare_upload;
use attheme_bot::upload::SubmitResult;
use attheme_bot::upload::UploadOutcome;

#[test]
fn empty_start_argument_routes_to_greeting() {
    let event = ChatEvent::StartCommand {
        argument: String::new(),
    };
    assert!(matches!(
        classify(&event),
        Route::Greeting {
            kind: GreetingKind::Start
        }
    ));
}

#[test]
fn nonempty_start_argument_routes_to_download() {
    let event = ChatEvent::StartCommand {
        argument: "abc123".to_string(),
    };
    match classify(&event) {
        Route::Download { identifier } => assert_eq!(identifier, "abc123"),
        _ => panic!("expected the download route"),
    }
}

#[test]
fn help_routes_to_greeting() {
    assert!(matches!(
        classify(&ChatEvent::HelpCommand),
        Route::Greeting {
            kind: GreetingKind::Help
        }
    ));
}

#[test]
fn document_with_recognized_extension_routes_to_upload() {
    let event = ChatEvent::Document {
        file_name: Some("mytheme.attheme".to_string()),
    };
    match classify(&event) {
        Route::Upload { file_name } => assert_eq!(file_name, "mytheme.attheme"),
        _ => panic!("expected the upload route"),
    }
}

#[test]
fn document_with_wrong_extension_is_rejected() {
    let event = ChatEvent::Document {
        file_name: Some("photo.png".to_string()),
    };
    assert!(matches!(classify(&event), Route::WrongFileType));
}

#[test]
fn document_without_name_is_rejected() {
    let event = ChatEvent::Document { file_name: None };
    assert!(matches!(classify(&event), Route::WrongFileType));
}

#[test]
fn extension_match_is_case_sensitive_and_exact() {
    assert!(ends_with_theme_extension("a.attheme"));
    assert!(ends_with_theme_extension(".attheme"));
    assert!(ends_with_theme_extension("тема.attheme"));
    assert!(!ends_with_theme_extension("attheme"));
    assert!(!ends_with_theme_extension("a.ATTHEME"));
    assert!(!ends_with_theme_extension("a.attheme "));
    assert!(!ends_with_theme_extension(""));
}

#[test]
fn stem_drops_only_the_trailing_extension() {
    assert_eq!(theme_stem("mytheme.attheme"), "mytheme");
    assert_eq!(theme_stem("a.b.attheme"), "a.b");
    assert_eq!(theme_stem(".attheme"), "");
    assert_eq!(theme_stem("тема.attheme"), "тема");
}

#[test]
fn greeting_reply_has_no_button_and_no_attachment() {
    let reply = compose_greeting_reply(&GreetingKind::Start);
    assert!(reply.button.is_none());
    assert!(reply.attachment.is_none());
}

#[test]
fn not_found_download_replies_with_the_expired_message() {
    let reply = download_reply(FetchResult::NotFound).unwrap();
    assert_eq!(reply.text.text, "Hmm. Looks like the theme has already expired.");
    assert!(reply.button.is_none());
    assert!(reply.attachment.is_none());
}

#[test]
fn transport_failure_on_download_is_dropped_silently() {
    assert!(download_reply(FetchResult::TransportError).is_none());
}

#[test]
fn empty_theme_is_reported_and_no_document_is_sent() {
    let fetch = FetchResult::Fetched {
        name: "empty".to_string(),
        content: attheme::Attheme::new(),
    };
    let reply = download_reply(fetch).unwrap();
    assert_eq!(
        reply.text.text,
        "Oops, your theme is empty, Telegram doesn't allow such ones."
    );
    assert!(reply.attachment.is_none());
    assert!(reply.button.is_none());
}

#[test]
fn fetched_theme_is_delivered_as_a_renamed_hex_file() {
    let content = attheme::Attheme::from_bytes(b"divider=-1\n");
    let expected = content.to_bytes(attheme::ColorSignature::Hex);
    assert_eq!(expected, b"divider=#ffffffff\n".to_vec());
    let fetch = FetchResult::Fetched {
        name: "mytheme".to_string(),
        content,
    };
    let reply = download_reply(fetch).unwrap();
    assert_eq!(reply.text.text, "Here you go!");
    assert!(reply.button.is_none());
    let attachment = reply.attachment.unwrap();
    assert_eq!(attachment.file_name, "mytheme.attheme");
    assert_eq!(attachment.bytes, expected);
}

#[test]
fn repeated_download_of_an_unchanged_theme_is_byte_identical() {
    let first = FetchResult::Fetched {
        name: "mytheme".to_string(),
        content: attheme::Attheme::from_bytes(b"divider=#40302010\n"),
    };
    let second = FetchResult::Fetched {
        name: "mytheme".to_string(),
        content: attheme::Attheme::from_bytes(b"divider=#40302010\n"),
    };
    let a = download_reply(first).unwrap().attachment.unwrap();
    let b = download_reply(second).unwrap().attachment.unwrap();
    assert_eq!(a.bytes, b.bytes);
    assert_eq!(a.file_name, b.file_name);
}

#[test]
fn prepared_upload_uses_the_file_name_stem() {
    let prepared = match prepare_upload("mytheme.attheme", &b"divider=-1\n".to_vec()) {
        Ok(prepared) => prepared,
        Err(_) => panic!("a plain ASCII theme must decode"),
    };
    assert_eq!(prepared.display_name, "mytheme");
    assert_eq!(
        prepared.theme.to_bytes(attheme::ColorSignature::Hex),
        b"divider=#ffffffff\n".to_vec()
    );
}

#[test]
fn wallpaper_marker_without_headroom_is_rejected() {
    // The parser sizes its wallpaper buffer as `len - line - 5`, which
    // underflows on this input; the flow must reject it silently instead.
    let prepared = prepare_upload("mytheme.attheme", &b"WPS".to_vec());
    let outcome = match prepared {
        Ok(_) => panic!("bytes the parser cannot handle must be rejected"),
        Err(outcome) => outcome,
    };
    assert!(matches!(outcome, UploadOutcome::MalformedTheme));
    assert!(compose_upload_reply(outcome).is_none());

    let late_marker = prepare_upload("mytheme.attheme", &b"x\nWPS".to_vec());
    assert!(matches!(late_marker, Err(UploadOutcome::MalformedTheme)));
}

#[test]
fn non_ascii_before_the_wallpaper_marker_is_rejected() {
    // A two-byte character straddles the parser's fixed color-value slice
    // offsets; the flow must reject such bytes silently instead.
    let prepared = prepare_upload("mytheme.attheme", &"x=#a\u{e9}aaa\n".as_bytes().to_vec());
    assert!(matches!(prepared, Err(UploadOutcome::MalformedTheme)));
}

#[test]
fn binary_wallpaper_after_the_marker_is_accepted() {
    let bytes = b"divider=-1\nWPS\n\xff\xd8\nWPE\n".to_vec();
    let prepared = match prepare_upload("mytheme.attheme", &bytes) {
        Ok(prepared) => prepared,
        Err(_) => panic!("non-ASCII wallpaper content is fine for the parser"),
    };
    assert_eq!(
        prepared.theme.to_bytes(attheme::ColorSignature::Hex),
        attheme::Attheme::from_bytes(&bytes).to_bytes(attheme::ColorSignature::Hex)
    );
    assert_eq!(prepared.theme.wallpaper, Some(vec![0xff, 0xd8]));
}

#[test]
fn successful_upload_reply_links_the_editor() {
    let submit = SubmitResult::Submitted {
        identifier: "42".to_string(),
    };
    let reply = upload_reply(submit, "mytheme".to_string()).unwrap();
    assert!(reply.attachment.is_none());
    let button = reply.button.unwrap();
    assert_eq!(button.label, "Open mytheme in the editor");
    assert_eq!(button.url, "https://attheme-editor.snejugal.ru/?themeId=42");
    assert!(button.url.contains("themeId=42"));
}

#[test]
fn failed_submission_is_dropped_silently() {
    assert!(upload_reply(SubmitResult::SubmitFailed, "mytheme".to_string()).is_none());
}

#[test]
fn rejected_file_type_always_replies() {
    let reply = compose_upload_reply(UploadOutcome::RejectedFileType).unwrap();
    assert!(reply.button.is_none());
    assert!(reply.attachment.is_none());
    let expected = tbot::markup::markdown_v2((
        "Hmm, looks like you sent a wrong file — I only know how to work with ",
        tbot::markup::inline_code([".attheme"]),
        " files.",
    ))
    .to_string();
    assert_eq!(reply.text.text, expected);
}

#[test]
fn editor_link_embeds_the_identifier() {
    assert_eq!(
        editor_link("abc123"),
        "https://attheme-editor.snejugal.ru/?themeId=abc123"
    );
}

#[test]
fn liveness_emits_nothing_before_the_first_interval() {
    let signaler = LivenessSignaler::new();
    assert_eq!(signaler.indicators_attempted, 0);
    assert_eq!(signaler.intervals_elapsed, 0);
    assert_eq!(INDICATOR_INTERVAL_SECONDS, 5);
}

#[test]
fn liveness_attempts_at_most_one_indicator_per_interval() {
    let mut signaler = LivenessSignaler::new();
    for round in 1..4u64 {
        signaler.interval_elapsed();
        signaler.indicator_attempted();
        assert_eq!(signaler.intervals_elapsed, round);
        assert_eq!(signaler.indicators_attempted, round);
    }
}
