use codex_plus_core::fingerprint::{
    char_is_white_space, compute_config_hash, default_write_fingerprint_path, fingerprint_text_is_blank, hex_short,
    record_write_fingerprint,
};
use codex_plus_core::path::PathModel;

#[test]
fn compute_config_hash_is_deterministic() {
    let hash_a = compute_config_hash("model = \"gpt-5\"\n");
    let hash_b = compute_config_hash("model = \"gpt-5\"\n");
    assert_eq!(hash_a, hash_b);
}

#[test]
fn compute_config_hash_differs_on_content_change() {
    let hash_a = compute_config_hash("model = \"gpt-5\"\n");
    let hash_b = compute_config_hash("model = \"gpt-6\"\n");
    assert_ne!(hash_a, hash_b);
}

#[test]
fn compute_config_hash_is_hex_and_short() {
    let hash = compute_config_hash("hello");
    assert_eq!(hash.len(), 16);
    assert!(hash.chars().all(|c| c.is_ascii_hexdigit()));
}

#[test]
fn compute_config_hash_known_values() {
    // SHA-256("hello") = 2cf24dba5fb0a30e26e83b2ac5b9e29e...
    assert_eq!(compute_config_hash("hello"), "2cf24dba5fb0a30e");
    // SHA-256("") = e3b0c44298fc1c14...
    assert_eq!(compute_config_hash(""), "e3b0c44298fc1c14");
}

#[test]
fn hex_short_takes_at_most_eight_bytes() {
    assert_eq!(hex_short(&[0x00, 0xff, 0x10]), "00ff10");
    assert_eq!(hex_short(&[1, 2, 3, 4, 5, 6, 7, 8, 9, 10]), "0102030405060708");
    assert_eq!(hex_short(&[]), "");
}

#[test]
fn record_write_fingerprint_reads_live_config() {
    let fingerprint = record_write_fingerprint("model = \"test\"\n", Some(42), 1_700_000_000_000);
    assert_eq!(fingerprint.config_hash, compute_config_hash("model = \"test\"\n"));
    assert_eq!(fingerprint.config_mtime_secs, 42);
    assert_eq!(fingerprint.written_at_millis, 1_700_000_000_000);
    let unknown = record_write_fingerprint("x", None, 7);
    assert_eq!(unknown.config_mtime_secs, 0);
}

#[test]
fn blank_fingerprint_text() {
    assert!(fingerprint_text_is_blank(""));
    assert!(fingerprint_text_is_blank("  \n\t\r "));
    assert!(fingerprint_text_is_blank("\u{3000}\u{a0}"));
    assert!(!fingerprint_text_is_blank(" {} "));
}

#[test]
fn fingerprint_path_redirect_wins() {
    let state = PathModel { root: "/".to_string(), parts: vec!["h".to_string(), ".codex-session-delete".to_string()] };
    let p = default_write_fingerprint_path(&None, &state);
    assert_eq!(p.parts, vec!["h", ".codex-session-delete", "write-fingerprint.json"]);
    let redirect = PathModel { root: "/".to_string(), parts: vec!["tmp".to_string(), "fp.json".to_string()] };
    let q = default_write_fingerprint_path(&Some(redirect.clone()), &state);
    assert_eq!(q, redirect);
}

#[test]
fn white_space_matches_std() {
    for code in 0u32..=0x10FFFF {
        if let Some(c) = char::from_u32(code) {
            assert_eq!(char_is_white_space(c), c.is_whitespace(), "U+{code:04X}");
        }
    }
}
