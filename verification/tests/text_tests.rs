use remote_backup::text::{
    ascii_lower, chars_of, contains, decimal, file_stem, is_blank, is_whitespace, join, join_path,
    parse_size, parse_size_text, parse_u64, replace, signed_decimal, starts_with, str_eq,
    string_of, trim_bounds, trim_end_matches,
};

#[test]
fn chars_round_trip() {
    let chars = chars_of("héllo");
    assert_eq!(chars, vec!['h', 'é', 'l', 'l', 'o']);
    assert_eq!(string_of(&chars), "héllo");
    assert_eq!(string_of(&chars_of("")), "");
}

#[test]
fn str_eq_compares_contents() {
    assert!(str_eq("abc", "abc"));
    assert!(!str_eq("abc", "abd"));
    assert!(!str_eq("abc", "ab"));
    assert!(str_eq("", ""));
}

#[test]
fn starts_with_prefixes() {
    assert!(starts_with(&chars_of("/dev/vda"), "/dev/"));
    assert!(!starts_with(&chars_of("/de"), "/dev/"));
    assert!(!starts_with(&chars_of("UUID=1"), "/dev/"));
    assert!(starts_with(&chars_of("anything"), ""));
}

#[test]
fn decimal_numerals() {
    assert_eq!(decimal(0), "0");
    assert_eq!(decimal(7), "7");
    assert_eq!(decimal(10), "10");
    assert_eq!(decimal(65536), "65536");
    assert_eq!(decimal(u64::MAX), "18446744073709551615");
    assert_eq!(decimal(10737418240), 10737418240u64.to_string());
}

#[test]
fn signed_decimal_numerals() {
    assert_eq!(signed_decimal(0), "0");
    assert_eq!(signed_decimal(1), "1");
    assert_eq!(signed_decimal(-1), "-1");
    assert_eq!(signed_decimal(255), "255");
    assert_eq!(signed_decimal(i32::MAX), "2147483647");
    assert_eq!(signed_decimal(i32::MIN), "-2147483648");
}

#[test]
fn ascii_lower_touches_only_ascii_capitals() {
    assert_eq!(ascii_lower("GZIP"), "gzip");
    assert_eq!(ascii_lower("GzIp"), "gzip");
    assert_eq!(ascii_lower("az-AZ_09"), "az-az_09");
    assert_eq!(ascii_lower("ÀB"), "Àb");
    assert_eq!(ascii_lower("[@`{"), "[@`{");
    for s in ["Continue", "XZ", "ZsTd", "", "Ünïcode MiXed"] {
        assert_eq!(ascii_lower(s), s.to_ascii_lowercase());
    }
}

#[test]
fn whitespace_is_the_unicode_property() {
    let mut c = 0u32;
    while c < 0x3100 {
        if let Some(ch) = char::from_u32(c) {
            assert_eq!(is_whitespace(ch), ch.is_whitespace(), "U+{:04X}", c);
        }
        c += 1;
    }
    assert!(!is_whitespace('\u{FFFD}'));
    assert!(!is_whitespace('\u{200B}'));
}

#[test]
fn trim_bounds_cut_both_ends() {
    assert_eq!(trim_bounds(&chars_of("  ab c \n")), (2, 6));
    assert_eq!(trim_bounds(&chars_of("abc")), (0, 3));
    assert_eq!(trim_bounds(&chars_of("")), (0, 0));
    let (a, b) = trim_bounds(&chars_of(" \t\n"));
    assert_eq!(a, b);
    assert_eq!(trim_bounds(&chars_of("\u{a0}x\u{3000}")), (1, 2));
}

#[test]
fn is_blank_means_only_white_space() {
    assert!(is_blank(""));
    assert!(is_blank("   "));
    assert!(is_blank("\t\r\n \u{2003}"));
    assert!(!is_blank(" x "));
    assert!(!is_blank("secret"));
}

#[test]
fn parse_u64_follows_the_decimal_grammar() {
    let p = |s: &str| {
        let c = chars_of(s);
        parse_u64(&c, 0, c.len())
    };
    assert_eq!(p("0"), Some(0));
    assert_eq!(p("007"), Some(7));
    assert_eq!(p("+5"), Some(5));
    assert_eq!(p("18446744073709551615"), Some(u64::MAX));
    assert_eq!(p("18446744073709551616"), None);
    assert_eq!(p("99999999999999999999999"), None);
    assert_eq!(p(""), None);
    assert_eq!(p("+"), None);
    assert_eq!(p("-5"), None);
    assert_eq!(p("++5"), None);
    assert_eq!(p("12a"), None);
    assert_eq!(p("1 2"), None);
    assert_eq!(p("１２"), None);
    for s in ["0", "42", "+42", "-1", "", "+", "1e3", "18446744073709551615", "18446744073709551616", "0x10"] {
        assert_eq!(p(s), s.parse::<u64>().ok(), "{:?}", s);
    }
    let c = chars_of("ab123cd");
    assert_eq!(parse_u64(&c, 2, 5), Some(123));
    assert_eq!(parse_u64(&c, 2, 2), None);
}

#[test]
fn parse_size_text_defaults_to_zero() {
    assert_eq!(parse_size_text("10737418240\n"), 10737418240);
    assert_eq!(parse_size_text("  42  "), 42);
    assert_eq!(parse_size_text("\u{a0}7\u{2003}"), 7);
    assert_eq!(parse_size_text(""), 0);
    assert_eq!(parse_size_text("   "), 0);
    assert_eq!(parse_size_text("blockdev: cannot open /dev/vda"), 0);
    assert_eq!(parse_size_text("12 34"), 0);
    assert_eq!(parse_size_text("-5"), 0);
    assert_eq!(parse_size_text("18446744073709551616"), 0);
    assert_eq!(parse_size_text("18446744073709551615"), u64::MAX);
}

#[test]
fn parse_size_decodes_leniently() {
    assert_eq!(parse_size(b"10737418240\n"), 10737418240);
    assert_eq!(parse_size(b"42"), 42);
    assert_eq!(parse_size(b""), 0);
    assert_eq!(parse_size(b"\xff42"), 0);
    assert_eq!(parse_size(b"42\xff"), 0);
    assert_eq!(parse_size(b"\xc2\xa0" as &[u8]), 0);
    assert_eq!(parse_size(b"\xc2\xa0 512 \xe2\x80\x83"), 512);
    for raw in [&b"123\n"[..], &b" 9 "[..], &b"\xfe"[..], &b"n/a"[..]] {
        let expected: u64 = String::from_utf8_lossy(raw).trim().parse().unwrap_or(0);
        assert_eq!(parse_size(raw), expected);
    }
}

#[test]
fn file_stem_drops_directories_and_last_extension() {
    assert_eq!(file_stem("backups/20240101T000000Z.img.gz"), "20240101T000000Z.img");
    assert_eq!(file_stem("./20240101T000000Z.img"), "20240101T000000Z");
    assert_eq!(file_stem("x.tar"), "x");
    assert_eq!(file_stem("a/b"), "b");
    assert_eq!(file_stem(".img"), ".img");
    assert_eq!(file_stem("dir.d/name"), "name");
    assert_eq!(file_stem("name."), "name");
    assert_eq!(file_stem(""), "");
    for p in ["backups/a.img.zst", "/tmp/x.img", "plain", ".hidden", "a.b/c.d.e", "/abs/.x.y"] {
        let std_stem = std::path::Path::new(p).file_stem().unwrap().to_string_lossy().into_owned();
        assert_eq!(file_stem(p), std_stem, "{:?}", p);
    }
}

#[test]
fn join_path_puts_one_separator() {
    assert_eq!(join_path(".", "f.img"), "./f.img");
    assert_eq!(join_path("dir", "f"), "dir/f");
    assert_eq!(join_path("dir/", "f"), "dir/f");
    assert_eq!(join_path("", "f"), "f");
    assert_eq!(join_path("/", "f"), "/f");
    assert_eq!(join_path("dir", "/abs"), "/abs");
    assert_eq!(join_path("dir", ""), "dir/");
    for (d, n) in [(".", "a"), ("x/y", "z.json"), ("x/", "z"), ("", "z"), ("/", "z"), ("a", "/b")] {
        let mut p = std::path::PathBuf::from(d);
        p.push(n);
        assert_eq!(join_path(d, n), p.to_string_lossy(), "{:?} {:?}", d, n);
    }
}

#[test]
fn contains_finds_substrings() {
    assert!(contains("backup-{{timestamp}}.tar.gz", "{{timestamp}}"));
    assert!(contains("{{timestamp}}", "{{timestamp}}"));
    assert!(!contains("backup.tar.gz", "{{timestamp}}"));
    assert!(!contains("{{timestamp}", "{{timestamp}}"));
    assert!(contains("abc", ""));
    assert!(contains("", ""));
    assert!(!contains("", "a"));
    assert!(contains("aab", "ab"));
}

#[test]
fn replace_substitutes_every_occurrence() {
    assert_eq!(replace("a-{{t}}-b-{{t}}", "{{t}}", "X"), "a-X-b-X");
    assert_eq!(replace("nothing here", "{{t}}", "X"), "nothing here");
    assert_eq!(replace("aaa", "aa", "b"), "ba");
    assert_eq!(replace("", "a", "b"), "");
    assert_eq!(replace("abc", "abc", ""), "");
    assert_eq!(replace("ab", "abc", "x"), "ab");
    assert_eq!(replace("abc", "", "x"), "abc");
    for (s, p, w) in [("aaaa", "aa", "a"), ("xyz", "y", "yy"), ("{{{{t}}}}", "{{t}}", "T")] {
        assert_eq!(replace(s, p, w), s.replace(p, w));
    }
}

#[test]
fn trim_end_matches_strips_the_run() {
    assert_eq!(trim_end_matches("/var/backups///", '/'), "/var/backups");
    assert_eq!(trim_end_matches("/var/backups", '/'), "/var/backups");
    assert_eq!(trim_end_matches("///", '/'), "");
    assert_eq!(trim_end_matches("", '/'), "");
    assert_eq!(trim_end_matches("a/b/", '/'), "a/b");
}

#[test]
fn join_prefixes_and_separates() {
    let list = vec!["/a".to_string(), "/b".to_string(), "/c".to_string()];
    assert_eq!(join(&list, "", " "), "/a /b /c");
    assert_eq!(join(&list, "--exclude=", " "), "--exclude=/a --exclude=/b --exclude=/c");
    assert_eq!(join(&Vec::new(), "--exclude=", " "), "");
    assert_eq!(join(&vec!["x".to_string()], "p", ", "), "px");
}
