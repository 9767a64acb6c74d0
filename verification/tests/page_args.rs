//! Client page-argument hardening.

use record_history::page::{
    clamp_history_page_limit, clamp_history_page_offset, sanitize_kind_filter,
    MAX_HISTORY_PAGE_LIMIT, MAX_HISTORY_PAGE_OFFSET,
};

#[test]
fn clamp_history_page_limit_caps_high_values_sad() {
    assert_eq!(clamp_history_page_limit(0), 1);
    assert_eq!(clamp_history_page_limit(25), 25);
    assert_eq!(
        clamp_history_page_limit(MAX_HISTORY_PAGE_LIMIT),
        MAX_HISTORY_PAGE_LIMIT
    );
    assert_eq!(
        clamp_history_page_limit(MAX_HISTORY_PAGE_LIMIT + 500),
        MAX_HISTORY_PAGE_LIMIT
    );
    assert_eq!(clamp_history_page_limit(u32::MAX), MAX_HISTORY_PAGE_LIMIT);
}

#[test]
fn clamp_history_page_offset_caps_high_values_sad() {
    assert_eq!(clamp_history_page_offset(0), 0);
    assert_eq!(clamp_history_page_offset(100), 100);
    assert_eq!(
        clamp_history_page_offset(MAX_HISTORY_PAGE_OFFSET),
        MAX_HISTORY_PAGE_OFFSET
    );
    assert_eq!(
        clamp_history_page_offset(MAX_HISTORY_PAGE_OFFSET + 1),
        MAX_HISTORY_PAGE_OFFSET
    );
    assert_eq!(clamp_history_page_offset(u32::MAX), MAX_HISTORY_PAGE_OFFSET);
}

#[test]
fn sanitize_kind_filter_drops_empty_and_caps_cardinality_sad() {
    assert_eq!(sanitize_kind_filter(None), None);
    assert_eq!(sanitize_kind_filter(Some(vec![String::new()])), None);
    assert_eq!(
        sanitize_kind_filter(Some(vec!["tag_history".into()])),
        Some(vec!["tag_history".into()])
    );

    let many: Vec<String> = (0..64).map(|i| format!("kind_{i}")).collect();
    let cleaned = sanitize_kind_filter(Some(many)).expect("kinds");
    assert_eq!(cleaned.len(), 32);

    let long = "k".repeat(200);
    let cleaned = sanitize_kind_filter(Some(vec![long])).expect("kinds");
    assert_eq!(cleaned[0].chars().count(), 128);
}

#[test]
fn sanitize_kind_filter_keeps_first_names_in_order() {
    let mut kinds: Vec<String> = vec![String::new(), "a".into(), String::new()];
    kinds.extend((0..40).map(|i| format!("k{i}")));
    let cleaned = sanitize_kind_filter(Some(kinds)).expect("kinds");
    assert_eq!(cleaned.len(), 32);
    assert_eq!(cleaned[0], "a");
    assert_eq!(cleaned[1], "k0");
    assert_eq!(cleaned[31], "k30");
}

#[test]
fn sanitize_kind_filter_is_idempotent() {
    let kinds: Vec<String> = vec!["".into(), "x".repeat(300), "tag_history".into()];
    let once = sanitize_kind_filter(Some(kinds));
    let twice = sanitize_kind_filter(once.clone());
    assert_eq!(once, twice);
    let once = once.expect("kinds");
    assert_eq!(once.len(), 2);
    assert_eq!(once[0], "x".repeat(128));
}

#[test]
fn sanitize_kind_filter_truncates_by_characters() {
    let wide = "ü".repeat(130);
    let cleaned = sanitize_kind_filter(Some(vec![wide])).expect("kinds");
    assert_eq!(cleaned[0], "ü".repeat(128));
}

#[test]
fn clamps_are_idempotent() {
    for v in [0u32, 1, 2, 49, 50, 51, 9_999, 10_000, 10_001, u32::MAX] {
        let l = clamp_history_page_limit(v);
        assert!((1..=50).contains(&l));
        assert_eq!(clamp_history_page_limit(l), l);
        let o = clamp_history_page_offset(v);
        assert!(o <= 10_000);
        assert_eq!(clamp_history_page_offset(o), o);
    }
}
