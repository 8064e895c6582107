use ogg_library::naming::{sanitize, sanitize_filename, MAX_NAME};
use ogg_library::path::{join, Destination};
use ogg_library::text::{decimal_text, decimal_two_text, is_white_space};

#[test]
fn white_space_is_that_of_unicode() {
    for n in 0..=0x10ffffu32 {
        if let Some(c) = char::from_u32(n) {
            assert_eq!(is_white_space(c), c.is_whitespace(), "{n:x}");
        }
    }
}

#[test]
fn decimal_numbers() {
    for n in [0, 1, 9, 10, 42, 99, 100, 1000, 65536, 4294967295] {
        assert_eq!(decimal_text(n), format!("{n}"));
        assert_eq!(decimal_two_text(n), format!("{n:02}"));
    }
}

#[test]
fn every_illegal_character_is_replaced() {
    for c in ['<', '>', ':', '"', '/', '\\', '|', '?', '*', '\0', '\n', '\t', '\u{1f}'] {
        assert_eq!(sanitize(&format!("a{c}b")), "a_b");
    }
    assert_eq!(sanitize("a\u{7f}b é 世"), "a\u{7f}b é 世");
}

#[test]
fn control_characters_are_replaced_before_white_space_is_trimmed() {
    assert_eq!(sanitize("\ta\n"), "_a_");
}

#[test]
fn white_space_and_trailing_dots_are_trimmed() {
    assert_eq!(sanitize("  a  "), "a");
    assert_eq!(sanitize("\u{3000}a\u{a0}"), "a");
    assert_eq!(sanitize("a..."), "a");
    assert_eq!(sanitize("a ..."), "a");
    assert_eq!(sanitize("..a"), "..a");
    assert_eq!(sanitize(" .a. "), ".a");
}

#[test]
fn no_dot_or_space_is_left_at_the_end() {
    for s in ["a. .", "a. ...", "a . .", "a .. . .", "a.\u{a0}. \u{3000}"] {
        assert_eq!(sanitize(s), "a", "{s:?}");
    }
    assert_eq!(sanitize("a. .b. ."), "a. .b");
    assert_eq!(sanitize_filename("a. ..ogg"), "a.ogg");
}

#[test]
fn nothing_becomes_an_underscore() {
    for s in ["", " ", ".", "...", " . ", "\u{2028}", ". ", ". .", ".. .", ".. ..."] {
        assert_eq!(sanitize(s), "_", "{s:?}");
    }
    assert_eq!(sanitize_filename(""), "_.ogg");
    assert_eq!(sanitize_filename(".ogg"), "_.ogg");
}

#[test]
fn names_are_capped() {
    let long = "é".repeat(500);
    assert_eq!(sanitize(&long), "é".repeat(MAX_NAME));
    assert_eq!(sanitize(&"e".repeat(180)), "e".repeat(180));
    assert_eq!(sanitize_filename(&long), format!("{}.ogg", "é".repeat(180)));
    // What the cap uncovers at the end is trimmed too.
    for cut in [" ", "."] {
        let long = format!("{}{cut}tail", "e".repeat(179));
        assert_eq!(sanitize(&long), "e".repeat(179));
    }
    let long = format!("{} . .{}", "e".repeat(170), "t".repeat(200));
    assert_eq!(sanitize(&long), format!("{} . .tttttt", "e".repeat(170)));
    let long = format!("a{}b", " .".repeat(100));
    assert_eq!(sanitize(&long), "a");
    // White space in front does not count.
    assert_eq!(sanitize(&format!("   {}", "e".repeat(180))), "e".repeat(180));
}

#[test]
fn tidy_names_are_kept() {
    for s in ["a", "_", "My Song", "..a", &"e".repeat(180)] {
        assert_eq!(sanitize(s), s);
    }
}

#[test]
fn sanitizing_twice_is_sanitizing_once() {
    let long = format!("{} tail", "e".repeat(179));
    for s in ["AC/DC: Live?", "  a.. ", "x", "a. .", ".. .", "", &long] {
        assert_eq!(sanitize(&sanitize(s)), sanitize(s));
    }
}

#[test]
fn file_names_get_the_extension_once() {
    assert_eq!(sanitize_filename("a.ogg"), "a.ogg");
    assert_eq!(sanitize_filename("a"), "a.ogg");
    assert_eq!(sanitize_filename("a.mp3"), "a.mp3.ogg");
    assert_eq!(sanitize_filename("a.ogg.ogg"), "a.ogg.ogg");
    assert_eq!(sanitize_filename("a.OGG"), "a.OGG.ogg");
    assert_eq!(sanitize_filename("a ..ogg"), "a.ogg");
    assert_eq!(sanitize_filename("ogg"), "ogg.ogg");
}

#[test]
fn joining_is_that_of_paths() {
    for base in ["", "/", "a", "a/", "/a/b", "a//", ".", "é"] {
        for part in ["", "b", "/b", "b/c", "..", "/", "世"] {
            let joined = std::path::Path::new(base).join(part);
            assert_eq!(join(base, part), joined.to_str().unwrap(), "{base:?} {part:?}");
        }
    }
}

#[test]
fn parts_of_a_file_name_are_those_of_paths() {
    for name in ["a.ogg", "a", ".a", "a.", "a.b.c", "..a", "...", ". .", ".a.b", "é.世"] {
        let dest = Destination::in_directory("/d", name);
        let path = std::path::Path::new(&dest.path);
        assert_eq!(dest.path, format!("/d/{name}"));
        assert_eq!(dest.parent.as_deref(), path.parent().and_then(|p| p.to_str()));
        assert_eq!(dest.stem.as_deref(), path.file_stem().and_then(|p| p.to_str()), "{name}");
        assert_eq!(dest.extension.as_deref(), path.extension().and_then(|p| p.to_str()), "{name}");
    }
}

#[test]
fn no_name_leaves_its_directory() {
    assert_eq!(sanitize(".."), "_");
    assert_eq!(sanitize(".. ."), "_");
    assert_eq!(sanitize("../.."), ".._");
}
