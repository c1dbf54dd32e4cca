use codex_plus_core::detect::{
    check_cc_switch_db_activity, check_fingerprint_signals, check_sentinel_signals,
    detect_external_manager, detect_external_manager_with_options, home_cc_switch_db_path,
    DetectionInputs, ExternalManagerDetection, CATALOG_REASON, CC_SWITCH_CATALOG_SENTINEL,
    DB_ACTIVITY_REASON, HASH_REASON, MTIME_REASON, WEB_SEARCH_REASON,
};
use codex_plus_core::fingerprint::{compute_config_hash, record_write_fingerprint, WriteFingerprint};
use codex_plus_core::path::PathModel;

fn inputs(text: &str, fingerprint: Option<WriteFingerprint>) -> DetectionInputs {
    DetectionInputs {
        fingerprint,
        live_config_text: text.to_string(),
        live_config_mtime_secs: Some(100),
        cc_switch_db_modified_secs: None,
        now_secs: 1_000,
    }
}

#[test]
fn external_manager_detection_none_is_empty() {
    let empty = ExternalManagerDetection::none();
    assert!(!empty.detected);
    assert!(empty.reasons.is_empty());
}

#[test]
fn detect_returns_none_when_no_signals() {
    let detection = detect_external_manager_with_options(&inputs("model = \"gpt-5\"\n", None), false);
    assert!(!detection.detected, "detection = {detection:?}");
    assert!(detection.reasons.is_empty());
}

#[test]
fn detect_flags_cc_switch_catalog_sentinel() {
    let config = format!("model = \"x\"\nmodel_catalog_json = \"{CC_SWITCH_CATALOG_SENTINEL}\"\n");
    let detection = detect_external_manager(&inputs(&config, None));
    assert!(detection.detected);
    assert!(
        detection.reasons.iter().any(|r| r.contains("catalog 指针")),
        "{:?}",
        detection.reasons
    );
}

#[test]
fn detect_flags_cc_switch_web_search_sentinel() {
    let config = "model = \"x\"\nweb_search = \"disabled\"\n";
    let detection = detect_external_manager(&inputs(config, None));
    assert!(detection.detected);
    assert!(detection.reasons.iter().any(|r| r.contains("web_search")), "{:?}", detection.reasons);
}

#[test]
fn detect_flags_hash_mismatch() {
    let written = "model = \"gpt-5\"\n";
    let fp = WriteFingerprint {
        written_at_millis: 1,
        config_hash: compute_config_hash(written),
        config_mtime_secs: 0,
    };
    let detection = detect_external_manager(&inputs("model = \"gpt-6\"\n", Some(fp)));
    assert!(detection.detected);
    assert!(
        detection.reasons.iter().any(|r| r.contains("内容与 CodexPlusPlus 上次写入不一致")),
        "{:?}",
        detection.reasons
    );
    // the modification time 100 is later than the recorded 0
    assert_eq!(detection.reasons, vec![MTIME_REASON.to_string(), HASH_REASON.to_string()]);
}

#[test]
fn detect_returns_empty_when_fingerprint_missing() {
    let detection = detect_external_manager(&inputs("model = \"gpt-5\"\n", None));
    let has_fingerprint_signal = detection.reasons.iter().any(|r| r.contains("CodexPlusPlus 上次写入"));
    assert!(!has_fingerprint_signal, "{detection:?}");
}

#[test]
fn unchanged_file_after_record_is_not_flagged() {
    let text = "model = \"gpt-5\"\n";
    let fp = record_write_fingerprint(text, Some(100), 5);
    let detection = detect_external_manager(&inputs(text, Some(fp)));
    assert!(!detection.detected, "{detection:?}");
}

#[test]
fn newer_mtime_alone_is_flagged() {
    let text = "a = 1\n";
    let fp = record_write_fingerprint(text, Some(99), 5);
    let detection = detect_external_manager(&inputs(text, Some(fp)));
    assert_eq!(detection.reasons, vec![MTIME_REASON.to_string()]);
    assert!(detection.detected);
}

#[test]
fn both_sentinels_in_order() {
    let mut reasons = vec!["x".to_string()];
    check_sentinel_signals("web_search = \"disabled\"\ncc-switch-model-catalog.json", &mut reasons);
    assert_eq!(reasons, vec!["x".to_string(), CATALOG_REASON.to_string(), WEB_SEARCH_REASON.to_string()]);
}

#[test]
fn web_search_sentinel_needs_exact_value() {
    let mut reasons = Vec::new();
    check_sentinel_signals("web_search = \"enabled\"\nweb_search=\"disabled\"", &mut reasons);
    assert!(reasons.is_empty());
}

#[test]
fn fingerprint_signals_without_mtime() {
    let fp = WriteFingerprint { written_at_millis: 0, config_hash: compute_config_hash("a"), config_mtime_secs: 0 };
    let mut reasons = Vec::new();
    check_fingerprint_signals(None, &fp, "a", &mut reasons);
    assert!(reasons.is_empty());
    check_fingerprint_signals(Some(0), &fp, "b", &mut reasons);
    assert_eq!(reasons, vec![HASH_REASON.to_string()]);
}

#[test]
fn db_activity_window() {
    let mut reasons = Vec::new();
    check_cc_switch_db_activity(Some(700), 1_000, &mut reasons);
    assert_eq!(reasons, vec![DB_ACTIVITY_REASON.to_string()]);
    let mut reasons = Vec::new();
    check_cc_switch_db_activity(Some(699), 1_000, &mut reasons);
    assert!(reasons.is_empty());
    check_cc_switch_db_activity(Some(1_001), 1_000, &mut reasons);
    assert!(reasons.is_empty());
    check_cc_switch_db_activity(None, 1_000, &mut reasons);
    assert!(reasons.is_empty());
}

#[test]
fn db_check_can_be_switched_off() {
    let mut i = inputs("", None);
    i.cc_switch_db_modified_secs = Some(990);
    assert!(detect_external_manager(&i).detected);
    assert!(!detect_external_manager_with_options(&i, false).detected);
    assert_eq!(detect_external_manager(&i).reasons, vec![DB_ACTIVITY_REASON.to_string()]);
}

#[test]
fn cc_switch_db_path_under_home() {
    let home = PathModel { root: "/".to_string(), parts: vec!["home".to_string(), "u".to_string()] };
    let p = home_cc_switch_db_path(&Some(home));
    assert_eq!(p.root, "/");
    assert_eq!(p.parts, vec!["home", "u", ".cc-switch", "cc-switch.db"]);
    let q = home_cc_switch_db_path(&None);
    assert_eq!(q.root, "");
    assert_eq!(q.parts, vec![".cc-switch", "cc-switch.db"]);
}
