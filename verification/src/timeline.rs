//! Decisions of the self-loading timeline component: which kind filter it
//! requests, how tall it is, and which banner a page result shows.
//!
//! Rendering and the page fetch itself are outside steps.

use vstd::prelude::*;

use crate::page::is_history_acl_error;
use crate::text::has_infix;

verus! {

/// Scroll container height when the embedder gives none.
pub const DEFAULT_TIMELINE_MAX_HEIGHT: &'static str = "400px";

/// The kind filter a timeline requests: none for an empty list (all
/// `RecordHistory` implementors), else the list.
pub fn timeline_kinds_arg(kind_filter: Vec<String>) -> (r: Option<Vec<String>>)
    ensures
        kind_filter@.len() == 0 ==> r is None,
        kind_filter@.len() != 0 ==> r == Some(kind_filter),
{
    if kind_filter.len() == 0 {
        None
    } else {
        Some(kind_filter)
    }
}

/// The scroll container height: the embedder's value, else the default.
pub fn timeline_max_height(max_height: Option<String>) -> (r: String)
    ensures
        max_height matches Some(h) ==> r == h,
        max_height is None ==> r@ == DEFAULT_TIMELINE_MAX_HEIGHT@,
{
    match max_height {
        Some(h) => h,
        None => String::from_str(DEFAULT_TIMELINE_MAX_HEIGHT),
    }
}

/// Which error banner the timeline shows; the entries are hidden while either
/// banner is up.
#[derive(Debug, Clone, Copy, PartialEq, Eq, Structural)]
pub struct TimelineBanners {
    /// "Not authorized to view this history".
    pub access_denied: bool,
    /// "Failed to load record history".
    pub load_failed: bool,
}

impl TimelineBanners {
    /// Are the entries hidden?
    pub fn entries_hidden(&self) -> (r: bool)
        ensures
            r == (self.access_denied || self.load_failed),
    {
        self.access_denied || self.load_failed
    }
}

/// The banners after a page loaded: none.
pub fn banners_after_page() -> (r: TimelineBanners)
    ensures
        r == (TimelineBanners { access_denied: false, load_failed: false }),
{
    TimelineBanners { access_denied: false, load_failed: false }
}

/// The banners for a failed page request's message: the access-denied
/// banner for authorization and session failures, else the load-failure
/// banner; never both.
pub open spec fn banners_for_message(message: Seq<char>) -> TimelineBanners {
    let acl = has_infix(message, "Not authorized"@) || has_infix(
        message,
        "Authentication required"@,
    );
    TimelineBanners { access_denied: acl, load_failed: !acl }
}

/// The banners after a page request failed with this message (see
/// [`banners_for_message`]).
pub fn banners_after_error(message: &str) -> (r: TimelineBanners)
    ensures
        r == banners_for_message(message@),
{
    if is_history_acl_error(message) {
        TimelineBanners { access_denied: true, load_failed: false }
    } else {
        TimelineBanners { access_denied: false, load_failed: true }
    }
}

} // verus!
