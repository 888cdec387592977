use mono_rt::text::{c_string, same_text, strict_str, text_from_reply, wide_module_name};
use mono_rt::MonoError;

#[test]
fn c_string_appends_one_terminator() {
    assert_eq!(c_string("abc").unwrap(), vec![b'a', b'b', b'c', 0]);
    assert_eq!(c_string("").unwrap(), vec![0]);
    assert_eq!(c_string("é").unwrap(), vec![0xC3, 0xA9, 0]);
}

#[test]
fn c_string_rejects_null_anywhere() {
    assert!(matches!(c_string("\0"), Err(MonoError::NullByteInName)));
    assert!(matches!(c_string("ab\0"), Err(MonoError::NullByteInName)));
    assert!(matches!(c_string("\0ab"), Err(MonoError::NullByteInName)));
}

#[test]
fn wide_module_name_is_utf16_with_terminator() {
    assert_eq!(
        wide_module_name("mono.dll"),
        vec![0x6d, 0x6f, 0x6e, 0x6f, 0x2e, 0x64, 0x6c, 0x6c, 0]
    );
    assert_eq!(wide_module_name(""), vec![0]);
    assert_eq!(wide_module_name("é"), vec![0xE9, 0]);
    // U+1F600 is written as the surrogate pair D83D DE00.
    assert_eq!(wide_module_name("\u{1F600}"), vec![0xD83D, 0xDE00, 0]);
    let expected: Vec<u16> = "mono-2.0-bdwgc.dll\u{10437}"
        .encode_utf16()
        .chain(std::iter::once(0))
        .collect();
    assert_eq!(wide_module_name("mono-2.0-bdwgc.dll\u{10437}"), expected);
}

#[test]
fn text_from_reply_covers_every_answer() {
    assert!(matches!(text_from_reply(None), Err(MonoError::Uninitialized)));
    assert_eq!(text_from_reply(Some(None)).unwrap(), "");
    assert_eq!(
        text_from_reply(Some(Some(b"Player".to_vec()))).unwrap(),
        "Player"
    );
}

#[test]
fn text_from_reply_replaces_malformed_bytes() {
    let text = text_from_reply(Some(Some(vec![b'a', 0xFF, b'b']))).unwrap();
    assert_eq!(text, "a\u{FFFD}b");
}

#[test]
fn strict_str_reads_malformed_bytes_as_empty() {
    assert_eq!(strict_str(b"Assembly-CSharp"), "Assembly-CSharp");
    assert_eq!(strict_str(&[0xC3]), "");
    assert_eq!(strict_str(&[]), "");
}

#[test]
fn same_text_compares_whole_strings() {
    assert!(same_text("abc", "abc"));
    assert!(same_text("", ""));
    assert!(!same_text("abc", "abd"));
    assert!(!same_text("abc", "ab"));
}

#[test]
fn c_string_reads_back_as_its_text() {
    for text in ["", "Player", "Sp\u{e9}cial \u{1F600}"] {
        let bytes = c_string(text).unwrap();
        assert_eq!(bytes.last(), Some(&0));
        assert!(!bytes[..bytes.len() - 1].contains(&0));
        assert_eq!(std::str::from_utf8(&bytes[..bytes.len() - 1]).unwrap(), text);
    }
}

#[test]
fn wide_module_name_has_only_its_terminator_as_zero() {
    let wide = wide_module_name("mono-2.0-bdwgc.dll\u{10437}");
    assert_eq!(wide.last(), Some(&0));
    assert!(!wide[..wide.len() - 1].contains(&0));
    assert_eq!(
        String::from_utf16(&wide[..wide.len() - 1]).unwrap(),
        "mono-2.0-bdwgc.dll\u{10437}"
    );
}

#[test]
fn c_string_text_reads_back_through_a_reply() {
    for text in ["hello", "", "Sp\u{e9}cial \u{1F600}"] {
        let mut bytes = c_string(text).unwrap();
        bytes.pop();
        assert_eq!(text_from_reply(Some(Some(bytes))).unwrap(), text);
    }
}

#[test]
fn arguments_are_handed_over_only_when_the_runtime_may_be_asked() {
    assert_eq!(
        mono_rt::text::c_string_argument("Player", true),
        Some(vec![b'P', b'l', b'a', b'y', b'e', b'r', 0])
    );
    assert_eq!(mono_rt::text::c_string_argument("Player", false), None);
    assert_eq!(mono_rt::text::c_string_argument("Pl\0ayer", true), None);
    assert_eq!(
        mono_rt::text::c_string_arguments("Ns", "Cls", true),
        Some((vec![b'N', b's', 0], vec![b'C', b'l', b's', 0]))
    );
    assert_eq!(mono_rt::text::c_string_arguments("N\0s", "Cls", true), None);
    assert_eq!(mono_rt::text::c_string_arguments("Ns", "C\0ls", true), None);
    assert_eq!(mono_rt::text::c_string_arguments("Ns", "Cls", false), None);
    assert!(mono_rt::text::frees_answer(0x1000));
    assert!(!mono_rt::text::frees_answer(0));
    assert_eq!(mono_rt::MonoAssembly::base_dir_argument(None, true), Some(vec![0]));
    assert_eq!(
        mono_rt::MonoAssembly::base_dir_argument(Some("d"), true),
        Some(vec![b'd', 0])
    );
    assert_eq!(mono_rt::MonoAssembly::base_dir_argument(Some("d\0"), true), None);
    assert_eq!(mono_rt::MonoAssembly::base_dir_argument(None, false), None);
}
