//! Text and paths.

use cuda_oxide::paths::file_name;
use cuda_oxide::paths::file_stem;
use cuda_oxide::paths::join_path;
use cuda_oxide::paths::parent;
use cuda_oxide::paths::with_extension;
use cuda_oxide::text::push_decimal;
use cuda_oxide::text::push_hex_byte;
use cuda_oxide::text::push_signed_decimal;
use cuda_oxide::text::split_lines;
use cuda_oxide::text::to_ascii_lowercase;
use cuda_oxide::text::trim;

#[test]
fn numbers_print_without_leading_zeros() {
    let mut s = String::from("n=");
    push_decimal(&mut s, 0);
    push_decimal(&mut s, u64::MAX);
    assert_eq!(s, "n=018446744073709551615");
    let mut s = String::new();
    push_signed_decimal(&mut s, i32::MIN);
    push_signed_decimal(&mut s, 7);
    assert_eq!(s, "-21474836487");
    let mut s = String::new();
    push_hex_byte(&mut s, 0x0a);
    push_hex_byte(&mut s, 0xff);
    assert_eq!(s, "0AFF");
}

#[test]
fn text_is_trimmed_and_split() {
    for s in [" a b\t\n", "", "\u{a0}x\u{3000}", "\u{200b}"] {
        assert_eq!(trim(s), s.trim());
    }
    for s in ["", "a", "a\n", "a\r\nb\n\nc\r", "\n"] {
        assert_eq!(split_lines(s), s.lines().collect::<Vec<_>>());
    }
    assert_eq!(to_ascii_lowercase("Line-TABLES \u{c9}"), "line-tables \u{c9}");
}

#[test]
fn paths_take_apart_and_join() {
    for path in [
        "a/b.ll",
        "/x",
        "b.ll",
        ".hidden",
        "a/.b.c",
        "a/b/",
        "",
        "/",
        "..",
        "a/..",
        "a/./b.c/.",
    ] {
        let std_path = std::path::Path::new(path);
        assert_eq!(
            file_name(path).as_deref(),
            std_path.file_name().map(|n| n.to_str().unwrap()),
            "{path}"
        );
        assert_eq!(
            file_stem(path).as_deref(),
            std_path.file_stem().map(|n| n.to_str().unwrap()),
            "{path}"
        );
        assert_eq!(
            parent(path).as_deref(),
            std_path.parent().map(|n| n.to_str().unwrap()),
            "{path}"
        );
        assert_eq!(
            with_extension(path, "cubin"),
            std_path.with_extension("cubin").to_str().unwrap(),
            "{path}"
        );
        assert_eq!(
            join_path(path, "k.ptx"),
            std_path.join("k.ptx").to_str().unwrap(),
            "{path}"
        );
    }
    assert_eq!(join_path("a", "/b"), "/b");
}
