//! Timeline component decisions.

use record_history::instant::{instant_or_epoch, UtcInstant};
use record_history::page::HistoryPageError;
use record_history::timeline::{
    banners_after_error, banners_after_page, timeline_kinds_arg, timeline_max_height,
    TimelineBanners,
};

#[test]
fn empty_kind_filter_requests_all_kinds() {
    assert_eq!(timeline_kinds_arg(Vec::new()), None);
    assert_eq!(
        timeline_kinds_arg(vec!["tag_history".into()]),
        Some(vec!["tag_history".to_string()])
    );
}

#[test]
fn max_height_defaults_to_400px() {
    assert_eq!(timeline_max_height(None), "400px");
    assert_eq!(timeline_max_height(Some("10em".into())), "10em");
}

#[test]
fn banners_follow_the_page_result() {
    let ok = banners_after_page();
    assert_eq!(ok, TimelineBanners { access_denied: false, load_failed: false });
    assert!(!ok.entries_hidden());
    let denied = banners_after_error("Not authorized to view this history");
    assert_eq!(denied, TimelineBanners { access_denied: true, load_failed: false });
    assert!(denied.entries_hidden());
    let unauth = banners_after_error("Authentication required");
    assert!(unauth.access_denied);
    let failed = banners_after_error("Failed to load record history");
    assert_eq!(failed, TimelineBanners { access_denied: false, load_failed: true });
    assert!(failed.entries_hidden());
}

#[test]
fn parse_results_outside_chrono_range_fall_back_to_epoch() {
    assert_eq!(instant_or_epoch(None), UtcInstant::unix_epoch());
    assert_eq!(instant_or_epoch(Some((i64::MAX, 0))), UtcInstant::unix_epoch());
    assert_eq!(instant_or_epoch(Some((5, 7))), UtcInstant::from_unix(5, 7).unwrap());
}

#[test]
fn each_page_error_shows_its_one_banner() {
    for (e, denied) in [
        (HistoryPageError::AuthenticationRequired, true),
        (HistoryPageError::AccessDenied, true),
        (HistoryPageError::LoadFailed, false),
    ] {
        let banners = banners_after_error(&e.message());
        assert_eq!(banners, TimelineBanners { access_denied: denied, load_failed: !denied });
    }
}
