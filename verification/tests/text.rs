use audio_isolation_mirror::text::{contains, eq_ignore_ascii_case, file_name_of, to_decimal};

#[test]
fn substrings() {
    let cases = [
        ("", ""),
        ("abc", ""),
        ("abc", "abc"),
        ("abc", "bc"),
        ("abc", "ab"),
        ("abc", "ac"),
        ("abc", "abcd"),
        ("aab", "ab"),
        ("Größe", "öß"),
        ("", "a"),
    ];
    for (haystack, needle) in cases {
        assert_eq!(contains(haystack, needle), haystack.contains(needle));
    }
}

#[test]
fn case_of_ascii_letters_only() {
    let words = ["", "a", "A", "z", "Z", "@", "`", "[", "{", "ab", "aB", "Ä", "ä", "chrome.EXE"];
    for a in words {
        for b in words {
            assert_eq!(eq_ignore_ascii_case(a, b), a.eq_ignore_ascii_case(b));
        }
    }
}

#[test]
fn numbers_in_decimal() {
    assert_eq!(to_decimal(0), "0");
    assert_eq!(to_decimal(9), "9");
    assert_eq!(to_decimal(10), "10");
    assert_eq!(to_decimal(1024), "1024");
    assert_eq!(to_decimal(u64::MAX), u64::MAX.to_string());
}

#[test]
fn last_component_of_a_path() {
    assert_eq!(file_name_of("C:\\Program Files\\Mozilla\\firefox.exe"), "firefox.exe");
    assert_eq!(file_name_of("/usr/bin/opera"), "opera");
    assert_eq!(file_name_of("a\\b/c"), "c");
    assert_eq!(file_name_of("chrome.exe"), "chrome.exe");
    assert_eq!(file_name_of("dir/"), "");
    assert_eq!(file_name_of(""), "");
    assert_eq!(file_name_of("C:\\Größe\\büro.exe"), "büro.exe");
}
