//! The theme file codec, provided by the `attheme` crate.
//!
//! A theme value is a collection of named colors plus an optional wallpaper;
//! the bot never looks inside one. All the logic reads of a theme is the byte
//! sequence it serializes to, so that sequence is the theme's whole model
//! here: [`theme_hex_bytes`] names it, and the two wrappers below carry theme
//! values between it and the codec.
//!
//! Parsing is not total: the parser slices color values at fixed byte
//! offsets, which a multi-byte character can straddle, and it sizes its
//! wallpaper buffer from a subtraction that underflows when a `WPS` marker
//! line sits too close to the end of the input. [`parse_safe`] states a
//! byte-level condition under which neither can happen, [`check_parse_safe`]
//! decides it, and the parsing wrapper admits only such input.
use vstd::prelude::*;

verus! {

#[verifier::external_type_specification]
#[verifier::external_body]
pub struct ExAttheme(attheme::Attheme);

/// The bytes that serializing `theme` under the hexadecimal color convention
/// yields. Serialization reads nothing but the theme value, so the result is
/// a function of the theme alone.
pub uninterp spec fn theme_hex_bytes(theme: attheme::Attheme) -> Seq<u8>;

/// Relies on `attheme::Attheme::to_bytes` with `ColorSignature::Hex`:
/// serialization is a pure function of the theme value.
#[verifier::external_body]
pub(crate) fn theme_to_hex_bytes(theme: &attheme::Attheme) -> (bytes: Vec<u8>)
    ensures
        bytes@ == theme_hex_bytes(*theme),
{
    theme.to_bytes(attheme::ColorSignature::Hex)
}

/// The number of newline bytes strictly before position `p`. The parser
/// splits its input at newlines, so this is also the index of the line that
/// position `p` lies on.
pub open spec fn newlines_before(contents: Seq<u8>, p: int) -> int
    decreases p,
{
    if p <= 0 {
        0
    } else {
        newlines_before(contents, p - 1) + if contents[p - 1] == 10 {
            1int
        } else {
            0int
        }
    }
}

/// True when position `p` begins a line: it is the very first position, or
/// the byte before it is a newline.
pub open spec fn is_line_start(contents: Seq<u8>, p: int) -> bool {
    p == 0 || (0 < p <= contents.len() && contents[p - 1] == 10)
}

/// True when the line starting at position `p` begins with the wallpaper
/// start marker `WPS`.
pub open spec fn wps_marker_at(contents: Seq<u8>, p: int) -> bool {
    &&& is_line_start(contents, p)
    &&& p + 3 <= contents.len()
    &&& contents[p] == 87  // 'W'
    &&& contents[p + 1] == 80  // 'P'
    &&& contents[p + 2] == 83  // 'S'
}

/// True when the byte at position `q` lies on a line strictly after one that
/// begins with the wallpaper start marker: from there on the parser copies
/// bytes raw as wallpaper content and never slices them as text.
pub open spec fn wallpaper_byte(contents: Seq<u8>, q: int) -> bool {
    exists|p: int|
        0 <= p <= q && #[trigger] wps_marker_at(contents, p) && newlines_before(contents, p)
            < newlines_before(contents, q)
}

/// The byte sequences the theme parser handles without panicking: every
/// marker line leaves the five bytes of headroom from which the parser sizes
/// its wallpaper buffer, and non-ASCII bytes appear only in wallpaper
/// content — every line the parser reads as text, up to and including the
/// first marker line, is pure ASCII, so no fixed-offset slice of a color
/// value can fall inside a multi-byte character.
pub open spec fn parse_safe(contents: Seq<u8>) -> bool {
    &&& forall|p: int|
        0 <= p < contents.len() && #[trigger] wps_marker_at(contents, p) ==> newlines_before(
            contents,
            p,
        ) + 5 <= contents.len()
    &&& forall|q: int|
        0 <= q < contents.len() && #[trigger] contents[q] >= 128 ==> wallpaper_byte(contents, q)
}

/// Line indices never decrease along the input.
proof fn lemma_newlines_monotone(contents: Seq<u8>, p1: int, p2: int)
    requires
        0 <= p1 <= p2,
    ensures
        newlines_before(contents, p1) <= newlines_before(contents, p2),
    decreases p2,
{
    if p1 < p2 {
        lemma_newlines_monotone(contents, p1, p2 - 1);
    }
}

/// Decides whether the theme parser handles `bytes` without panicking.
pub fn check_parse_safe(bytes: &Vec<u8>) -> (safe: bool)
    ensures
        safe == parse_safe(bytes@),
{
    let n: usize = bytes.len();
    let mut j: usize = 0;
    let mut line: usize = 0;
    let mut at_line_start: bool = true;
    let mut first_marker_line: Option<usize> = None;

    while j < n
        invariant
            j <= n,
            n == bytes@.len(),
            line <= j,
            line as int == newlines_before(bytes@, j as int),
            at_line_start == is_line_start(bytes@, j as int),
            first_marker_line matches Some(w) ==> {
                &&& w <= line
                &&& exists|p: int|
                    0 <= p < j && #[trigger] wps_marker_at(bytes@, p) && newlines_before(
                        bytes@,
                        p,
                    ) == w
                &&& forall|p: int|
                    0 <= p < j && #[trigger] wps_marker_at(bytes@, p) ==> newlines_before(
                        bytes@,
                        p,
                    ) >= w
            },
            first_marker_line is None ==> forall|p: int|
                0 <= p < j ==> !wps_marker_at(bytes@, p),
            forall|p: int|
                0 <= p < j && #[trigger] wps_marker_at(bytes@, p) ==> newlines_before(bytes@, p)
                    + 5 <= n,
            forall|q: int|
                0 <= q < j && #[trigger] bytes@[q] >= 128 ==> wallpaper_byte(bytes@, q),
        decreases n - j,
    {
        let is_marker = at_line_start && n - j >= 3 && bytes[j] == 87 && bytes[j + 1] == 80
            && bytes[j + 2] == 83;
        proof {
            assert(is_marker == wps_marker_at(bytes@, j as int));
        }
        if is_marker {
            if n - line < 5 {
                // The parser would size the wallpaper buffer from
                // `len - line - 5`, which underflows here.
                return false;
            }
            if first_marker_line.is_none() {
                first_marker_line = Some(line);
            }
        }
        let b = bytes[j];
        if b >= 128 {
            let in_wallpaper: bool = match first_marker_line {
                Some(w) => w < line,
                None => false,
            };
            if in_wallpaper {
                proof {
                    let w = first_marker_line->0;
                    let p0 = choose|p: int|
                        0 <= p < j && #[trigger] wps_marker_at(bytes@, p) && newlines_before(
                            bytes@,
                            p,
                        ) == w;
                    assert(wps_marker_at(bytes@, p0) && newlines_before(bytes@, p0)
                        < newlines_before(bytes@, j as int));
                    assert(wallpaper_byte(bytes@, j as int));
                }
            } else {
                proof {
                    // No marker line precedes this line, so this non-ASCII
                    // byte reaches the parser's text handling.
                    assert forall|p: int| 0 <= p <= j implies !(#[trigger] wps_marker_at(
                        bytes@,
                        p,
                    ) && newlines_before(bytes@, p) < newlines_before(bytes@, j as int)) by {
                        lemma_newlines_monotone(bytes@, p, j as int);
                    }
                    assert(!wallpaper_byte(bytes@, j as int));
                    assert(bytes@[j as int] >= 128);
                }
                return false;
            }
        }
        proof {
            assert(newlines_before(bytes@, j as int + 1) == newlines_before(bytes@, j as int) + (
            if bytes@[j as int] == 10 {
                1int
            } else {
                0int
            }));
        }
        at_line_start = b == 10;
        if b == 10 {
            line = line + 1;
        }
        j = j + 1;
    }
    true
}

/// The model of the theme that parsing `bytes` yields: what serializing it
/// back under the hexadecimal color convention gives. Parsing reads nothing
/// but the bytes, so this is a function of the bytes alone.
pub uninterp spec fn parsed_theme_hex_bytes(bytes: Seq<u8>) -> Seq<u8>;

/// Relies on `attheme::Attheme::from_bytes`: on input accepted by
/// [`parse_safe`] parsing returns — deterministically, with malformed
/// variables becoming a degenerate theme rather than an error. Outside
/// [`parse_safe`] the parser can panic, so such input is not admitted here.
#[verifier::external_body]
pub(crate) fn theme_from_bytes(bytes: &Vec<u8>) -> (theme: attheme::Attheme)
    requires
        parse_safe(bytes@),
    ensures
        theme_hex_bytes(theme) == parsed_theme_hex_bytes(bytes@),
{
    attheme::Attheme::from_bytes(bytes)
}

} // verus!
