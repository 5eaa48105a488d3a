use std::collections::hash_map::DefaultHasher;
use std::hash::{Hash, Hasher};

use cogni_icp_backend::credentials::{hash_password, secure_id_from_timestamp, verify_password};
use cogni_icp_backend::text::{
    contains_str, is_whitespace_char, join_with, lines, radix_string, trim,
};

#[test]
fn trim_removes_unicode_whitespace() {
    assert_eq!(trim("  \t hello world \n"), "hello world");
    assert_eq!(trim("\u{3000}x\u{a0}"), "x");
    assert_eq!(trim("   "), "");
    assert_eq!(trim(""), "");
}

#[test]
fn lines_match_std() {
    for s in ["", "a", "a\n", "a\r\nb", "a\n\nb\n", "\n", "x\r", "one\rtwo\r\n"] {
        let expected: Vec<String> = s.lines().map(|l| l.to_string()).collect();
        assert_eq!(lines(s), expected, "input {:?}", s);
    }
}

#[test]
fn contains_str_finds_substrings() {
    assert!(contains_str("learn rust today", "rust"));
    assert!(contains_str("abc", ""));
    assert!(!contains_str("abc", "abcd"));
    assert!(!contains_str("Rust", "rust"));
}

#[test]
fn join_with_separator() {
    let v = vec!["a".to_string(), "b".to_string(), "c".to_string()];
    assert_eq!(join_with(&v, ", "), "a, b, c");
    assert_eq!(join_with(&vec![], ", "), "");
}

#[test]
fn radix_formatting() {
    assert_eq!(radix_string(0, 10), "0");
    assert_eq!(radix_string(503, 10), "503");
    assert_eq!(radix_string(255, 16), "ff");
    assert_eq!(radix_string(u64::MAX, 16), format!("{:x}", u64::MAX));
    assert_eq!(radix_string(u64::MAX, 10), u64::MAX.to_string());
}

#[test]
fn password_hash_round_trip() {
    let h = hash_password("s3cret");
    assert!(!h.is_empty());
    assert!(h.chars().all(|c| c.is_ascii_hexdigit() && !c.is_ascii_uppercase()));
    assert_eq!(h, hash_password("s3cret"));
    assert!(verify_password("s3cret", &h));
    assert!(!verify_password("s3cret!", &h));
    assert_ne!(hash_password("a"), hash_password("b"));
}

#[test]
fn password_hash_matches_hashing_a_str() {
    let mut hasher = DefaultHasher::new();
    "pässword".hash(&mut hasher);
    assert_eq!(hash_password("pässword"), format!("{:x}", hasher.finish()));
}

#[test]
fn secure_id_has_prefix_and_is_stable() {
    let id = secure_id_from_timestamp(1_700_000_000_000_000_000);
    assert!(id.starts_with("tutor_"));
    assert!(id.len() > "tutor_".len());
    assert_eq!(id, secure_id_from_timestamp(1_700_000_000_000_000_000));
    assert_ne!(id, secure_id_from_timestamp(1));
}

#[test]
fn whitespace_matches_std() {
    for code in 0u32..0x11000 {
        if let Some(c) = char::from_u32(code) {
            assert_eq!(is_whitespace_char(c), c.is_whitespace(), "char {:?}", c);
        }
    }
}
