use friday::text::{chars_of, split_lines, starts_with, string_from_chars, trim_start_matches};

#[test]
fn split_lines_matches_std_lines() {
    let cases = [
        "",
        "a",
        "a\n",
        "a\nb",
        "a\r\nb\r\n",
        "\n",
        "\n\n",
        "foo\nbar\n\r\nbaz\r",
        "x\ry\nz",
        "\r\n",
        "\u{e9}\n\u{2728}",
    ];
    for case in cases {
        let expected: Vec<String> = case.lines().map(|l| l.to_string()).collect();
        assert_eq!(split_lines(case), expected, "case {:?}", case);
    }
}

#[test]
fn trim_start_matches_matches_std() {
    let cases = [("aaab", "a"), ("abab", "ab"), ("", "x"), ("xyz", ""), ("data: data: x", "data: "), ("dat", "data")];
    for (s, p) in cases {
        assert_eq!(trim_start_matches(s, p), s.trim_start_matches(p), "case {:?} {:?}", s, p);
    }
}

#[test]
fn starts_with_matches_std() {
    let cases = [("/help", "/"), ("help", "/"), ("", ""), ("", "a"), ("ab", "abc"), ("\u{e9}x", "\u{e9}")];
    for (s, p) in cases {
        assert_eq!(starts_with(s, p), s.starts_with(p));
    }
}

#[test]
fn chars_and_back() {
    let v = chars_of("h\u{e9}llo");
    assert_eq!(v, vec!['h', '\u{e9}', 'l', 'l', 'o']);
    assert_eq!(string_from_chars(&v, 1, 3), "\u{e9}l");
    assert_eq!(string_from_chars(&v, 2, 2), "");
}

