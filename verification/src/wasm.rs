//! The browser probe: everything is read off one User-Agent string.
//!
//! The parsers are total. Text that lacks an expected delimiter yields a
//! fixed fallback, never a failure.

use vstd::prelude::*;
use vstd::slice::slice_subrange;
use crate::text::{
    append_chars, contains, equal, find, find_from, first_occurrence, from_chars,
    last_occurrence, lemma_first_occurrence_none, lemma_first_occurrence_some,
    lemma_last_occurrence_none, lemma_occurs_at_char, lemma_occurs_iff_first, occurs, occurs_at,
    replace, replaced, rfind, starts_with, to_chars,
};
use crate::utf16::utf16_lossy;
use crate::{DesktopEnv, Platform, PlatformView};

verus! {

/// The platform segment of a User-Agent: the text strictly between the first
/// `(` and the first `)` that follows it.
pub open spec fn platform_segment(ua: Seq<char>) -> Option<Seq<char>> {
    match first_occurrence(ua, "("@, 0) {
        Some(open) => match first_occurrence(ua, ")"@, open + 1) {
            Some(close) => Some(ua.subrange(open + 1, close)),
            None => None,
        },
        None => None,
    }
}

/// The segment names a Windows system.
pub open spec fn is_windows(segment: Seq<char>) -> bool {
    occurs(segment, "Win32"@) || occurs(segment, "Win64"@)
}

/// The segment names a Linux system.
pub open spec fn is_linux(segment: Seq<char>) -> bool {
    occurs(segment, "Linux"@)
}

/// The segment names a macOS system.
pub open spec fn is_mac(segment: Seq<char>) -> bool {
    occurs(segment, "Mac OS X"@)
}

/// "Windows " and the version: the text from three characters past the start
/// of the first "NT" up to the next `.`. Plain "Windows" where either is
/// missing.
pub open spec fn windows_name(segment: Seq<char>) -> Seq<char> {
    match first_occurrence(segment, "NT"@, 0) {
        Some(nt) => match first_occurrence(segment, "."@, nt + 3) {
            Some(dot) => "Windows "@ + segment.subrange(nt + 3, dot),
            None => "Windows"@,
        },
        None => "Windows"@,
    }
}

/// What is left of a Linux segment once the windowing-system token is
/// dropped: where the segment mentions X11 or Wayland, the text from two
/// characters past the first `;`; else the whole segment.
pub open spec fn linux_remainder(segment: Seq<char>) -> Option<Seq<char>> {
    if occurs(segment, "X11"@) || occurs(segment, "Wayland"@) {
        match first_occurrence(segment, ";"@, 0) {
            Some(semi) => if semi + 2 <= segment.len() {
                Some(segment.subrange(semi + 2, segment.len() as int))
            } else {
                None
            },
            None => None,
        }
    } else {
        Some(segment)
    }
}

/// The distribution: the remainder up to its first `;`, unless the remainder
/// begins with the kernel tag. "Unknown Linux" where nothing names one.
pub open spec fn linux_name(segment: Seq<char>) -> Seq<char> {
    match linux_remainder(segment) {
        Some(rest) => if occurs_at(rest, "Linux"@, 0) {
            "Unknown Linux"@
        } else {
            match first_occurrence(rest, ";"@, 0) {
                Some(end) => rest.subrange(0, end),
                None => "Unknown Linux"@,
            }
        },
        None => "Unknown Linux"@,
    }
}

/// The text from the first "Mac OS X" up to the next `;`. Where no `;`
/// follows, the rest of the segment with every `_` turned into `.`.
pub open spec fn mac_name(segment: Seq<char>) -> Seq<char> {
    match first_occurrence(segment, "Mac OS X"@, 0) {
        Some(begin) => match first_occurrence(segment, ";"@, begin) {
            Some(end) => segment.subrange(begin, end),
            None => replaced(segment.subrange(begin, segment.len() as int), '_', '.'),
        },
        None => segment,
    }
}

/// The operating system that a platform segment names. The first family
/// whose tag occurs decides; a segment of no known family is its own name.
pub open spec fn segment_os_name(segment: Seq<char>) -> Seq<char> {
    if is_windows(segment) {
        windows_name(segment)
    } else if is_linux(segment) {
        linux_name(segment)
    } else if is_mac(segment) {
        mac_name(segment)
    } else {
        segment
    }
}

/// The operating system that a User-Agent names; "Unknown" where it has no
/// platform segment.
pub open spec fn os_name(ua: Seq<char>) -> Seq<char> {
    match platform_segment(ua) {
        Some(segment) => segment_os_name(segment),
        None => "Unknown"@,
    }
}

/// The platform that a segment names. Only the family tags are looked at.
pub open spec fn segment_platform(segment: Seq<char>) -> PlatformView {
    if is_windows(segment) {
        PlatformView::Windows
    } else if is_linux(segment) {
        PlatformView::Linux
    } else if is_mac(segment) {
        PlatformView::MacOS
    } else {
        PlatformView::Unknown(segment)
    }
}

/// The platform that a User-Agent names; `Unknown("Unknown")` where it has no
/// platform segment.
pub open spec fn platform_class(ua: Seq<char>) -> PlatformView {
    match platform_segment(ua) {
        Some(segment) => segment_platform(segment),
        None => PlatformView::Unknown("Unknown"@),
    }
}

/// The browser that a User-Agent names: the text between the last space and
/// the last `/` of the whole string, except that "Safari" in a string that
/// mentions "Chrome" is Chrome. "Unknown Browser" where there is no such text.
pub open spec fn browser_name(ua: Seq<char>) -> Seq<char> {
    match (last_occurrence(ua, "/"@), last_occurrence(ua, " "@)) {
        (Some(slash), Some(space)) => if space + 1 <= slash {
            let token = ua.subrange(space + 1, slash);
            if token == "Safari"@ && occurs(ua, "Chrome"@) {
                "Chrome"@
            } else {
                token
            }
        } else {
            "Unknown Browser"@
        },
        _ => "Unknown Browser"@,
    }
}

/// The User-Agent that the host delivered as UTF-16 code units.
pub fn user_agent(units: &[u16]) -> (user_agent: String)
    ensures
        user_agent@ == utf16_lossy(units@),
{
    String::from_utf16_lossy(units)
}

/// The platform segment of `ua`, if it has one.
pub fn segment_of(ua: &[char]) -> (segment: Option<&[char]>)
    ensures
        platform_segment(ua@) == match segment {
            Some(s) => Some(s@),
            None => None,
        },
{
    match find(ua, "(") {
        Some(open) => {
            proof {
                reveal_strlit("(");
                reveal_strlit(")");
                assert(open < ua.len());
            }
            match find_from(ua, ")", open + 1) {
                Some(close) => Some(slice_subrange(ua, open + 1, close)),
                None => None,
            }
        },
        None => None,
    }
}

/// The Windows name of a segment.
pub fn windows_os(segment: &[char]) -> (name: String)
    ensures
        name@ == windows_name(segment@),
{
    match find(segment, "NT") {
        Some(nt) => {
            proof {
                reveal_strlit("NT");
                reveal_strlit(".");
                assert(nt + 2 <= segment.len());
            }
            let tag_end = nt + 2;
            if tag_end < segment.len() {
                match find_from(segment, ".", tag_end + 1) {
                    Some(dot) => {
                        let mut name = "Windows ".to_string();
                        append_chars(&mut name, slice_subrange(segment, tag_end + 1, dot));
                        name
                    },
                    None => "Windows".to_string(),
                }
            } else {
                proof {
                    lemma_first_occurrence_none(segment@, "."@, nt + 3);
                }
                "Windows".to_string()
            }
        },
        None => "Windows".to_string(),
    }
}

/// The Linux name of a segment.
pub fn linux_os(segment: &[char]) -> (name: String)
    ensures
        name@ == linux_name(segment@),
{
    let rest = if contains(segment, "X11") || contains(segment, "Wayland") {
        match find(segment, ";") {
            Some(semi) => {
                proof {
                    reveal_strlit(";");
                    assert(semi < segment.len());
                }
                if semi + 1 < segment.len() {
                    slice_subrange(segment, semi + 2, segment.len())
                } else {
                    return "Unknown Linux".to_string();
                }
            },
            None => {
                return "Unknown Linux".to_string();
            },
        }
    } else {
        segment
    };
    if starts_with(rest, "Linux") {
        "Unknown Linux".to_string()
    } else {
        match find(rest, ";") {
            Some(end) => {
                proof {
                    reveal_strlit(";");
                }
                from_chars(slice_subrange(rest, 0, end))
            },
            None => "Unknown Linux".to_string(),
        }
    }
}

/// The macOS name of a segment.
pub fn mac_os(segment: &[char]) -> (name: String)
    ensures
        name@ == mac_name(segment@),
{
    match find(segment, "Mac OS X") {
        Some(begin) => {
            match find_from(segment, ";", begin) {
                Some(end) => {
                    proof {
                        reveal_strlit(";");
                    }
                    from_chars(slice_subrange(segment, begin, end))
                },
                None => {
                    let rest = replace(slice_subrange(segment, begin, segment.len()), '_', '.');
                    from_chars(rest.as_slice())
                },
            }
        },
        None => from_chars(segment),
    }
}

/// The operating system that a platform segment names.
pub fn segment_os(segment: &[char]) -> (name: String)
    ensures
        name@ == segment_os_name(segment@),
{
    if contains(segment, "Win32") || contains(segment, "Win64") {
        windows_os(segment)
    } else if contains(segment, "Linux") {
        linux_os(segment)
    } else if contains(segment, "Mac OS X") {
        mac_os(segment)
    } else {
        from_chars(segment)
    }
}

/// The operating system that the User-Agent names.
pub fn os(user_agent: &str) -> (name: String)
    ensures
        name@ == os_name(user_agent@),
        !user_agent@.contains('(') || !user_agent@.contains(')') ==> name@ == "Unknown"@,
{
    proof {
        if !user_agent@.contains('(') || !user_agent@.contains(')') {
            lemma_unknown_without_parentheses(user_agent@);
        }
    }
    let ua = to_chars(user_agent);
    match segment_of(ua.as_slice()) {
        Some(segment) => segment_os(segment),
        None => "Unknown".to_string(),
    }
}

/// The platform that a segment names.
pub fn platform_of_segment(segment: &[char]) -> (platform: Platform)
    ensures
        platform@ == segment_platform(segment@),
{
    if contains(segment, "Win32") || contains(segment, "Win64") {
        Platform::Windows
    } else if contains(segment, "Linux") {
        Platform::Linux
    } else if contains(segment, "Mac OS X") {
        Platform::MacOS
    } else {
        Platform::Unknown(from_chars(segment))
    }
}

/// The platform that the User-Agent names.
pub fn platform(user_agent: &str) -> (platform: Platform)
    ensures
        platform@ == platform_class(user_agent@),
        !user_agent@.contains('(') || !user_agent@.contains(')') ==> platform@
            == PlatformView::Unknown("Unknown"@),
{
    proof {
        if !user_agent@.contains('(') || !user_agent@.contains(')') {
            lemma_unknown_without_parentheses(user_agent@);
        }
    }
    let ua = to_chars(user_agent);
    match segment_of(ua.as_slice()) {
        Some(segment) => platform_of_segment(segment),
        None => Platform::Unknown("Unknown".to_string()),
    }
}

/// The browser that the User-Agent names.
pub fn computer(user_agent: &str) -> (name: String)
    ensures
        name@ == browser_name(user_agent@),
{
    let ua = to_chars(user_agent);
    let slash = match rfind(ua.as_slice(), "/") {
        Some(slash) => slash,
        None => {
            return "Unknown Browser".to_string();
        },
    };
    let space = match rfind(ua.as_slice(), " ") {
        Some(space) => space,
        None => {
            return "Unknown Browser".to_string();
        },
    };
    proof {
        reveal_strlit("/");
        reveal_strlit(" ");
    }
    if space >= slash {
        return "Unknown Browser".to_string();
    }
    let token = slice_subrange(ua.as_slice(), space + 1, slash);
    if equal(token, "Safari") && contains(ua.as_slice(), "Chrome") {
        "Chrome".to_string()
    } else {
        from_chars(token)
    }
}

/// The user of a browser session has no login name.
pub fn username() -> (name: String)
    ensures
        name@ == "anonymous"@,
{
    "anonymous".to_string()
}

/// The user of a browser session has no display name.
pub fn realname() -> (name: String)
    ensures
        name@ == "Anonymous"@,
{
    "Anonymous".to_string()
}

/// A browser session runs on no named host.
pub fn hostname() -> (name: String)
    ensures
        name@ == "localhost"@,
{
    "localhost".to_string()
}

/// The tag of the browser probe.
pub fn env() -> (env: DesktopEnv)
    ensures
        env == DesktopEnv::Wasm,
{
    DesktopEnv::Wasm
}

/// A User-Agent that lacks `(` or lacks `)` has no platform segment: its
/// operating system is "Unknown" and its platform `Unknown("Unknown")`.
pub proof fn lemma_unknown_without_parentheses(ua: Seq<char>)
    requires
        !ua.contains('(') || !ua.contains(')'),
    ensures
        platform_segment(ua) is None,
        os_name(ua) == "Unknown"@,
        platform_class(ua) == PlatformView::Unknown("Unknown"@),
{
    reveal_strlit("(");
    reveal_strlit(")");
    assert("("@ =~= seq!['(']);
    assert(")"@ =~= seq![')']);
    if let Some(open) = first_occurrence(ua, "("@, 0) {
        lemma_first_occurrence_some(ua, "("@, 0);
        lemma_occurs_at_char(ua, "("@, '(', open);
        if let Some(close) = first_occurrence(ua, ")"@, open + 1) {
            lemma_first_occurrence_some(ua, ")"@, open + 1);
            lemma_occurs_at_char(ua, ")"@, ')', close);
        }
    }
}

/// The platform follows the family tags of the segment alone, first match
/// first, whatever becomes of the segment when a name is read from it. A
/// segment of no known family is handed back as it is, by both readings.
pub proof fn lemma_platform_by_family(ua: Seq<char>, segment: Seq<char>)
    requires
        platform_segment(ua) == Some(segment),
    ensures
        is_windows(segment) ==> platform_class(ua) == PlatformView::Windows,
        !is_windows(segment) && is_linux(segment) ==> platform_class(ua) == PlatformView::Linux,
        !is_windows(segment) && !is_linux(segment) && is_mac(segment) ==> platform_class(ua)
            == PlatformView::MacOS,
        !is_windows(segment) && !is_linux(segment) && !is_mac(segment) ==> platform_class(ua)
            == PlatformView::Unknown(segment) && os_name(ua) == segment,
{
}

/// A Windows segment that lacks "NT" or lacks `.` is plain "Windows".
pub proof fn lemma_windows_without_version(segment: Seq<char>)
    requires
        !occurs(segment, "NT"@) || !occurs(segment, "."@),
    ensures
        windows_name(segment) == "Windows"@,
{
    if let Some(nt) = first_occurrence(segment, "NT"@, 0) {
        lemma_first_occurrence_some(segment, "NT"@, 0);
        if first_occurrence(segment, "."@, nt + 3) is Some {
            lemma_first_occurrence_some(segment, "."@, nt + 3);
        }
    }
}

/// A Linux segment is "Unknown Linux" where the windowing-system token
/// cannot be dropped, where what is left begins with the kernel tag, and
/// where no `;` ends a name in what is left.
pub proof fn lemma_linux_unknown(segment: Seq<char>)
    requires
        linux_remainder(segment) matches Some(rest) ==> occurs_at(rest, "Linux"@, 0) || !occurs(
            rest,
            ";"@,
        ),
    ensures
        linux_name(segment) == "Unknown Linux"@,
{
    if let Some(rest) = linux_remainder(segment) {
        lemma_occurs_iff_first(rest, ";"@);
    }
}

/// A Linux segment without any `;` is "Unknown Linux".
pub proof fn lemma_linux_without_delimiter(segment: Seq<char>)
    requires
        !occurs(segment, ";"@),
    ensures
        linux_name(segment) == "Unknown Linux"@,
{
    lemma_occurs_iff_first(segment, ";"@);
}

/// Where no `;` follows the tag of a macOS segment, the name is all that
/// follows, the tag included, and holds no `_`.
pub proof fn lemma_mac_without_delimiter(segment: Seq<char>, begin: int)
    requires
        first_occurrence(segment, "Mac OS X"@, 0) == Some(begin),
        forall|j: int| begin <= j ==> !occurs_at(segment, ";"@, j),
    ensures
        mac_name(segment) == replaced(segment.subrange(begin, segment.len() as int), '_', '.'),
        mac_name(segment).len() == segment.len() - begin,
        !mac_name(segment).contains('_'),
{
    lemma_first_occurrence_some(segment, "Mac OS X"@, 0);
    lemma_first_occurrence_none(segment, ";"@, begin);
}

/// A User-Agent that lacks `/` or lacks a space names no browser.
pub proof fn lemma_browser_without_delimiter(ua: Seq<char>)
    requires
        !occurs(ua, "/"@) || !occurs(ua, " "@),
    ensures
        browser_name(ua) == "Unknown Browser"@,
{
    lemma_last_occurrence_none(ua, "/"@);
    lemma_last_occurrence_none(ua, " "@);
}

/// Where "Safari" stands between the last space and the last `/`, the
/// browser is Chrome if the User-Agent mentions "Chrome", else Safari.
pub proof fn lemma_safari_token(ua: Seq<char>, space: int, slash: int)
    requires
        last_occurrence(ua, " "@) == Some(space),
        last_occurrence(ua, "/"@) == Some(slash),
        space + 1 <= slash,
        ua.subrange(space + 1, slash) == "Safari"@,
    ensures
        occurs(ua, "Chrome"@) ==> browser_name(ua) == "Chrome"@,
        !occurs(ua, "Chrome"@) ==> browser_name(ua) == "Safari"@,
{
}

/// "Safari" is never the browser of a User-Agent that mentions "Chrome".
pub proof fn lemma_chrome_over_safari(ua: Seq<char>)
    requires
        occurs(ua, "Chrome"@),
    ensures
        browser_name(ua) != "Safari"@,
{
    reveal_strlit("Safari");
    reveal_strlit("Chrome");
    reveal_strlit("Unknown Browser");
    assert("Chrome"@[0] != "Safari"@[0]);
    assert("Unknown Browser"@.len() != "Safari"@.len());
}

} // verus!
