use whoami::wasm::{
    computer, hostname, linux_os, mac_os, os, platform, platform_of_segment, realname,
    segment_of, segment_os, user_agent, username, windows_os,
};
use whoami::text::to_chars;
use whoami::{DesktopEnv, Platform};

const CHROME_WINDOWS: &str = "Mozilla/5.0 (Windows NT 10.0; Win64; x64) AppleWebKit/537.36 \
    (KHTML, like Gecko) Chrome/90.0.4430.93 Safari/537.36";
const FIREFOX_UBUNTU: &str =
    "Mozilla/5.0 (X11; Ubuntu; Linux x86_64; rv:109.0) Gecko/20100101 Firefox/115.0";
const SAFARI_MAC: &str = "Mozilla/5.0 (Macintosh; Intel Mac OS X 10_15_7) AppleWebKit/605.1.15 \
    (KHTML, like Gecko) Version/14.1.2 Safari/605.1.15";

#[test]
fn os_windows_takes_version_up_to_dot() {
    assert_eq!(os(CHROME_WINDOWS), "Windows 10");
    assert_eq!(os("Mozilla/5.0 (Windows NT 6.1; Win64; x64) Gecko"), "Windows 6");
    assert_eq!(os("(Windows NT 6.1; Win32)"), "Windows 6");
}

#[test]
fn os_windows_without_version_is_plain() {
    assert_eq!(os("(Win64)"), "Windows");
    assert_eq!(os("(Win32; NT)"), "Windows");
    assert_eq!(os("(Win32; NT 10)"), "Windows");
    assert_eq!(os("(Windows 6.1; Win64)"), "Windows");
    assert_eq!(os("(Win32 NT"), "Unknown");
}

#[test]
fn os_windows_version_may_be_empty() {
    assert_eq!(os("(Win64 NT .)"), "Windows ");
    assert_eq!(os("(Win64 NTx.1)"), "Windows ");
}

#[test]
fn os_windows_dot_before_tag_is_passed_over() {
    assert_eq!(os("(v1.0; Win64; Windows NT 10.0)"), "Windows 10");
    assert_eq!(os("(v1.0; Win64; NT 10)"), "Windows");
    assert_eq!(os("(Win64; NT.5.1)"), "Windows 5");
}

#[test]
fn os_windows_counts_characters() {
    assert_eq!(os("(Win64; NT\u{e9}10.0)"), "Windows 10");
    assert_eq!(os("(Win64; NT \u{4e2d}\u{6587}.0)"), "Windows \u{4e2d}\u{6587}");
}

#[test]
fn os_windows_tag_needs_win32_or_win64() {
    assert_eq!(
        os("Mozilla/5.0 (Windows NT 6.1; WOW64; Trident/7.0) like Gecko"),
        "Windows NT 6.1; WOW64; Trident/7.0"
    );
}

#[test]
fn os_linux_kernel_tag_alone_is_unknown() {
    assert_eq!(os("(X11; Linux x86_64) AppleWebKit/537.36"), "Unknown Linux");
    assert_eq!(os("Mozilla/5.0 (X11; Linux x86_64) AppleWebKit/537.36 Chrome/1.0"), "Unknown Linux");
    assert_eq!(os("(Linux; Android 10; K)"), "Unknown Linux");
    assert_eq!(os("(Linux)"), "Unknown Linux");
}

#[test]
fn os_linux_names_the_distribution() {
    assert_eq!(os(FIREFOX_UBUNTU), "Ubuntu");
    assert_eq!(os("(Wayland; Fedora; Linux x86_64)"), "Fedora");
    assert_eq!(os("(Fedora; Linux x86_64)"), "Fedora");
    assert_eq!(os("(X11; ; Linux)"), "");
}

#[test]
fn os_linux_missing_delimiter_is_unknown() {
    assert_eq!(os("(X11 Linux x86_64)"), "Unknown Linux");
    assert_eq!(os("(Fedora Linux x86_64)"), "Unknown Linux");
    assert_eq!(os("(X11; Fedora Linux)"), "Unknown Linux");
    assert_eq!(os("(Linux X11;)"), "Unknown Linux");
    assert_eq!(os("(Linux X11; )"), "Unknown Linux");
}

#[test]
fn os_linux_skips_two_characters_after_delimiter() {
    assert_eq!(os("(X11;Ubuntu; Linux)"), "buntu");
    assert_eq!(os("(X11;\u{e9}Ubuntu; Linux)"), "Ubuntu");
}

#[test]
fn os_mac_turns_underscores_into_dots() {
    assert_eq!(os("(Macintosh; Intel Mac OS X 10_15_7)"), "Mac OS X 10.15.7");
    assert_eq!(os(SAFARI_MAC), "Mac OS X 10.15.7");
    assert_eq!(os("(Mac OS X)"), "Mac OS X");
    assert_eq!(os("(Intel_Mac OS X_)"), "Mac OS X.");
}

#[test]
fn os_mac_stops_at_delimiter() {
    assert_eq!(
        os("Mozilla/5.0 (Macintosh; Intel Mac OS X 10.15; rv:109.0) Gecko/20100101"),
        "Mac OS X 10.15"
    );
    assert_eq!(os("(Macintosh; Intel Mac OS X 10_15; rv:109.0)"), "Mac OS X 10_15");
    assert_eq!(os("(Mac OS X;)"), "Mac OS X");
}

#[test]
fn os_other_segment_is_returned_verbatim() {
    assert_eq!(os("Mozilla/5.0 (PlayStation 4 3.11) AppleWebKit/537.73"), "PlayStation 4 3.11");
    assert_eq!(os("()"), "");
    assert_eq!(os("a(b(c)d)"), "b(c");
    assert_eq!(os("(FreeBSD_amd64; rv:1.0)"), "FreeBSD_amd64; rv:1.0");
}

#[test]
fn os_without_parentheses_is_unknown() {
    assert_eq!(os(""), "Unknown");
    assert_eq!(os("Mozilla/5.0"), "Unknown");
    assert_eq!(os("Mozilla/5.0 (Windows NT 10.0; Win64"), "Unknown");
    assert_eq!(os("Windows NT 10.0; Win64) Gecko"), "Unknown");
    assert_eq!(os(") Win64 ("), "Unknown");
}

#[test]
fn os_segment_ends_at_first_closing_parenthesis_after_opening() {
    assert_eq!(os("a) (Win64; NT 10.0) b"), "Windows 10");
    assert_eq!(os("(X11; Ubuntu; Linux) (Win64)"), "Ubuntu");
}

#[test]
fn os_first_family_wins() {
    assert_eq!(os("(Linux; Win64; Mac OS X)"), "Windows");
    assert_eq!(os("(Mac OS X 10_1; Linux)"), "Mac OS X 10_1");
    assert_eq!(os("(Debian; Mac OS X; Linux)"), "Debian");
    assert_eq!(os("(linux; win64; Mac OS X 1_2)"), "Mac OS X 1.2");
}

#[test]
fn segment_os_reads_a_bare_segment() {
    assert_eq!(segment_os(&to_chars("Windows NT 10.0; Win64; x64")), "Windows 10");
    assert_eq!(segment_os(&to_chars("X11; Arch; Linux x86_64")), "Arch");
    assert_eq!(segment_os(&to_chars("Intel Mac OS X 11_2")), "Mac OS X 11.2");
    assert_eq!(segment_os(&to_chars("Nintendo Switch")), "Nintendo Switch");
    assert_eq!(segment_os(&[]), "");
    assert_eq!(windows_os(&to_chars("NT 5.1")), "Windows 5");
    assert_eq!(windows_os(&to_chars("NT")), "Windows");
    assert_eq!(windows_os(&to_chars("NT ")), "Windows");
    assert_eq!(linux_os(&to_chars("X11; Mint; Linux")), "Mint");
    assert_eq!(linux_os(&to_chars("Mint; BSD")), "Mint");
    assert_eq!(linux_os(&to_chars("BSD")), "Unknown Linux");
    assert_eq!(mac_os(&to_chars("PPC Mac OS X 10_4")), "Mac OS X 10.4");
    assert_eq!(mac_os(&to_chars("Mac_OS_X 10_4")), "Mac_OS_X 10_4");
}

#[test]
fn segment_of_cuts_between_parentheses() {
    assert_eq!(segment_of(&to_chars("a (b; c) d")), Some(&to_chars("b; c")[..]));
    assert_eq!(segment_of(&to_chars("(a)(b)")), Some(&to_chars("a")[..]));
    assert_eq!(segment_of(&to_chars("((a))")), Some(&to_chars("(a")[..]));
    assert_eq!(segment_of(&to_chars(") (a) (b)")), Some(&to_chars("a")[..]));
    assert_eq!(segment_of(&to_chars("()")), Some(&to_chars("")[..]));
    assert_eq!(segment_of(&to_chars(")(")), None);
    assert_eq!(segment_of(&to_chars("(a")), None);
    assert_eq!(segment_of(&to_chars("a)")), None);
    assert_eq!(segment_of(&[]), None);
}

#[test]
fn platform_follows_family_tags() {
    assert_eq!(platform(CHROME_WINDOWS), Platform::Windows);
    assert_eq!(platform("(Win32)"), Platform::Windows);
    assert_eq!(platform(FIREFOX_UBUNTU), Platform::Linux);
    assert_eq!(platform("(Linux; Android 10; K)"), Platform::Linux);
    assert_eq!(platform(SAFARI_MAC), Platform::MacOS);
    assert_eq!(platform("(Linux; Win64; Mac OS X)"), Platform::Windows);
    assert_eq!(platform("(Mac OS X; Linux)"), Platform::Linux);
    assert_eq!(platform_of_segment(&to_chars("X11; Linux")), Platform::Linux);
}

#[test]
fn platform_without_segment_is_unknown_unknown() {
    assert_eq!(platform(""), Platform::Unknown("Unknown".to_string()));
    assert_eq!(platform("Mozilla/5.0"), Platform::Unknown("Unknown".to_string()));
    assert_eq!(platform("(Win64"), Platform::Unknown("Unknown".to_string()));
    assert_eq!(platform("Win64)"), Platform::Unknown("Unknown".to_string()));
    assert_eq!(platform(")Win64("), Platform::Unknown("Unknown".to_string()));
}

#[test]
fn platform_of_other_segment_carries_the_segment() {
    assert_eq!(
        platform("Mozilla/5.0 (PlayStation 4 3.11) AppleWebKit/537.73"),
        Platform::Unknown("PlayStation 4 3.11".to_string())
    );
    assert_eq!(os("Mozilla/5.0 (PlayStation 4 3.11) AppleWebKit/537.73"), "PlayStation 4 3.11");
    assert_eq!(platform("()"), Platform::Unknown(String::new()));
    assert_eq!(
        platform("(Windows NT 6.1; WOW64)"),
        Platform::Unknown("Windows NT 6.1; WOW64".to_string())
    );
}

#[test]
fn platform_holds_where_the_name_degrades() {
    assert_eq!(platform("(Win64)"), Platform::Windows);
    assert_eq!(os("(Win64)"), "Windows");
    assert_eq!(platform("(X11 Linux)"), Platform::Linux);
    assert_eq!(os("(X11 Linux)"), "Unknown Linux");
    assert_eq!(platform("(Linux X11;)"), Platform::Linux);
}

#[test]
fn computer_takes_token_before_last_slash() {
    assert_eq!(computer(FIREFOX_UBUNTU), "Firefox");
    assert_eq!(computer("Mozilla/5.0 (X11) Gecko/20100101 Opera/12.16"), "Opera");
    assert_eq!(computer("a b/c"), "b");
    assert_eq!(computer(" /"), "");
    assert_eq!(computer("x /1"), "");
}

#[test]
fn computer_safari_without_chrome_is_safari() {
    assert_eq!(computer(SAFARI_MAC), "Safari");
    assert_eq!(computer("Mozilla/5.0 (iPad) Version/14.0 Safari/605.1.15"), "Safari");
    assert_eq!(computer("chrome Safari/605.1.15"), "Safari");
}

#[test]
fn computer_safari_with_chrome_is_chrome() {
    assert_eq!(computer(CHROME_WINDOWS), "Chrome");
    assert_eq!(
        computer("Mozilla/5.0 (X11; Linux x86_64) Chrome/90.0 Safari/605.1.15"),
        "Chrome"
    );
    assert_eq!(computer("Chrome Safari/1"), "Chrome");
}

#[test]
fn computer_other_token_is_kept_beside_chrome() {
    assert_eq!(computer("Mozilla/5.0 Chrome/90.0 Safari/537.36 Edg/90.0"), "Edg");
    assert_eq!(computer("Chrome/90.0 Safari2/537.36"), "Safari2");
}

#[test]
fn computer_without_delimiters_is_unknown_browser() {
    assert_eq!(computer(""), "Unknown Browser");
    assert_eq!(computer("Mozilla"), "Unknown Browser");
    assert_eq!(computer("Mozilla/5.0"), "Unknown Browser");
    assert_eq!(computer("Mozilla 5.0"), "Unknown Browser");
}

#[test]
fn computer_space_after_last_slash_is_unknown_browser() {
    assert_eq!(computer("Mozilla/5.0 Gecko"), "Unknown Browser");
    assert_eq!(computer("a/ "), "Unknown Browser");
    assert_eq!(computer("Safari/1 Chrome"), "Unknown Browser");
}

#[test]
fn browser_session_has_fixed_names() {
    assert_eq!(username(), "anonymous");
    assert_eq!(realname(), "Anonymous");
    assert_eq!(hostname(), "localhost");
    assert_eq!(whoami::wasm::env(), DesktopEnv::Wasm);
}

#[test]
fn user_agent_is_decoded_from_utf16() {
    let units: Vec<u16> = CHROME_WINDOWS.encode_utf16().collect();
    assert_eq!(user_agent(&units), CHROME_WINDOWS);
    assert_eq!(os(&user_agent(&units)), "Windows 10");
    assert_eq!(user_agent(&[]), "");
    assert_eq!(user_agent(&[0x0041, 0xd83d, 0xde00, 0x0042]), "A\u{1f600}B");
    assert_eq!(user_agent(&[0x0028, 0xd800, 0x0029]), "(\u{fffd})");
    assert_eq!(os(&user_agent(&[0x0028, 0xd800, 0x0029])), "\u{fffd}");
}
