use release_packer::failure::Failure;
use release_packer::text::{chars_of, find_char, is_space_char, same_text, trim_bounds};
use release_packer::version::{parse_version, resolve_version};

#[test]
fn version_is_what_follows_the_hash() {
    assert_eq!(
        parse_version("some-pkg 0.1.0 (path+file:///…)#1.2.3"),
        Some("1.2.3".to_string())
    );
}

#[test]
fn version_without_hash_is_not_found() {
    assert_eq!(parse_version("some-pkg 0.1.0 (path+file:///work)"), None);
    assert_eq!(parse_version(""), None);
}

#[test]
fn missing_hash_is_reported_with_the_input() {
    let input = "some-pkg 0.1.0 (path+file:///work)";
    let failure = resolve_version(input.as_bytes().to_vec()).unwrap_err();
    assert_eq!(failure, Failure::VersionNotFound { input: input.to_string() });
    assert_eq!(
        failure.message(),
        "Version not found in some-pkg 0.1.0 (path+file:///work)"
    );
}

#[test]
fn version_is_trimmed() {
    assert_eq!(parse_version("path+file:///work/ocp#0.1.0\n"), Some("0.1.0".to_string()));
    assert_eq!(parse_version("x# \t 1.2.3 \r\n"), Some("1.2.3".to_string()));
    assert_eq!(parse_version("x#\u{2003}1.0\u{a0}"), Some("1.0".to_string()));
    assert_eq!(parse_version("x#1 2"), Some("1 2".to_string()));
}

#[test]
fn version_ends_at_the_second_hash() {
    assert_eq!(parse_version("a#b#c"), Some("b".to_string()));
    assert_eq!(parse_version("#0.3.0 #rest"), Some("0.3.0".to_string()));
}

#[test]
fn empty_version_is_not_found() {
    assert_eq!(parse_version("pkg#"), None);
    assert_eq!(parse_version("pkg#  \n"), None);
    assert_eq!(parse_version("pkg##1.0"), None);
    assert_eq!(
        resolve_version(b"pkg#\n".to_vec()),
        Err(Failure::VersionNotFound { input: "pkg#\n".to_string() })
    );
}

#[test]
fn resolve_version_reads_the_output_of_the_query() {
    assert_eq!(
        resolve_version(b"path+file:///work/ocp#0.1.0\n".to_vec()),
        Ok("0.1.0".to_string())
    );
    assert_eq!(
        resolve_version("registry+https://example.org/índice#ocp@2.0.1\n".as_bytes().to_vec()),
        Ok("ocp@2.0.1".to_string())
    );
}

#[test]
fn resolve_version_rejects_what_is_not_utf8() {
    assert_eq!(resolve_version(vec![0x70, 0x6b, 0x67, 0x23, 0xff, 0x31]), Err(Failure::NotText));
    assert_eq!(resolve_version(vec![0xc3]), Err(Failure::NotText));
    assert_eq!(
        Failure::NotText.message(),
        "cargo pkgid contained non-utf8 text"
    );
}

#[test]
fn white_space_is_the_unicode_property() {
    for c in [
        ' ', '\t', '\n', '\u{b}', '\u{c}', '\r', '\u{85}', '\u{a0}', '\u{1680}', '\u{2000}',
        '\u{2005}', '\u{200a}', '\u{2028}', '\u{2029}', '\u{202f}', '\u{205f}', '\u{3000}',
    ] {
        assert!(is_space_char(c));
        assert!(c.is_whitespace());
    }
    for c in ['a', '0', '#', '\u{8}', '\u{e}', '\u{200b}', '\u{feff}', '\u{180e}', '…'] {
        assert!(!is_space_char(c));
        assert!(!c.is_whitespace());
    }
}

#[test]
fn white_space_agrees_with_the_standard_library_everywhere() {
    for code in 0..=0x10ffffu32 {
        if let Some(c) = char::from_u32(code) {
            assert_eq!(is_space_char(c), c.is_whitespace());
        }
    }
}

#[test]
fn chars_of_counts_characters_not_bytes() {
    assert_eq!(chars_of("a…b"), vec!['a', '…', 'b']);
    assert_eq!(chars_of(""), Vec::<char>::new());
}

#[test]
fn find_char_finds_the_first_at_or_after() {
    let chars = chars_of("a#b#c");
    assert_eq!(find_char(&chars, '#', 0), 1);
    assert_eq!(find_char(&chars, '#', 1), 1);
    assert_eq!(find_char(&chars, '#', 2), 3);
    assert_eq!(find_char(&chars, '#', 4), 5);
    assert_eq!(find_char(&chars, '#', 5), 5);
    assert_eq!(find_char(&chars, 'x', 0), 5);
}

#[test]
fn trim_bounds_cut_white_space_at_both_ends() {
    let chars = chars_of("  ab c \n");
    assert_eq!(trim_bounds(&chars, 0, 8), (2, 6));
    assert_eq!(trim_bounds(&chars, 3, 5), (3, 4));
    assert_eq!(trim_bounds(&chars, 0, 2), (2, 2));
    assert_eq!(trim_bounds(&chars, 4, 4), (4, 4));
    let blank = chars_of(" \t ");
    let (from, to) = trim_bounds(&blank, 0, 3);
    assert_eq!(from, to);
}

#[test]
fn same_text_compares_characters() {
    assert!(same_text("", ""));
    assert!(same_text("gh-tmp/ocp…", "gh-tmp/ocp…"));
    assert!(!same_text("abc", "abd"));
    assert!(!same_text("abc", "ab"));
    assert!(!same_text("", "a"));
}
