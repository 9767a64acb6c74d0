//! Actor presentation for timeline rows: a display label and an optional
//! profile link, never an email address.
//!
//! Loading the user and its profile goes through the request's store session
//! (never System); the results are handed to [`actor_presentation`].

use vstd::prelude::*;

use crate::text::{
    contains_text, first_chars, has_infix, is_ascii_alphanumeric, is_ascii_alphanumeric_char,
    trim_text, trim_ws,
};

verus! {

/// Label for rows without an actor.
pub const SYSTEM_ACTOR_LABEL: &'static str = "System";

/// Characters of a user id shown in an opaque label.
pub const OPAQUE_LABEL_ID_CHARS: usize = 8;

/// A character allowed in a profile-link path segment.
pub open spec fn is_user_path_char(c: char) -> bool {
    is_ascii_alphanumeric(c) || c == '-' || c == '_' || c == '.'
}

/// A bare user id that is one safe path segment: non-empty, no `://`, and
/// only ASCII letters, digits, `-`, `_` and `.`.
pub open spec fn safe_user_path_segment(id: Seq<char>) -> bool {
    &&& id.len() > 0
    &&& !has_infix(id, "://"@)
    &&& forall|i: int| 0 <= i < id.len() ==> is_user_path_char(#[trigger] id[i])
}

/// `/user/{id}`.
pub open spec fn profile_href(id: Seq<char>) -> Seq<char> {
    "/user/"@ + id
}

/// `User {first 8 chars of id}`, or `User` for an empty id.
pub open spec fn opaque_label(id: Seq<char>) -> Seq<char> {
    if id.len() == 0 {
        "User"@
    } else {
        "User "@ + first_chars(id, OPAQUE_LABEL_ID_CHARS as nat)
    }
}

/// The label shown for a user: the first profile display name when it has a
/// non-blank character, else the opaque label.
pub open spec fn user_label(id: Seq<char>, display_name: Option<Seq<char>>) -> Seq<char> {
    match display_name {
        Some(name) => if trim_ws(name).len() > 0 {
            name
        } else {
            opaque_label(id)
        },
        None => opaque_label(id),
    }
}

/// Is `id` a single safe path segment for a profile link?
pub fn is_safe_user_path_segment(id: &str) -> (r: bool)
    ensures
        r == safe_user_path_segment(id@),
{
    if id.is_empty() || contains_text(id, "://") {
        return false;
    }
    let n = id.unicode_len();
    let mut i: usize = 0;
    while i < n
        invariant
            n == id@.len(),
            i <= n,
            forall|k: int| 0 <= k < i ==> is_user_path_char(#[trigger] id@[k]),
        decreases n - i,
    {
        let c = id.get_char(i);
        if !(is_ascii_alphanumeric_char(c) || c == '-' || c == '_' || c == '.') {
            return false;
        }
        i = i + 1;
    }
    true
}

/// Build `/user/{id}` only when `bare_user_id` is a single safe path segment,
/// so a poisoned actor id cannot redirect the timeline elsewhere.
pub fn actor_profile_href(bare_user_id: &str) -> (r: Option<String>)
    ensures
        safe_user_path_segment(bare_user_id@) ==> (r matches Some(h) && h@ == profile_href(
            bare_user_id@,
        )),
        !safe_user_path_segment(bare_user_id@) ==> r is None,
{
    if !is_safe_user_path_segment(bare_user_id) {
        return None;
    }
    let mut href = String::from_str("/user/");
    href.append(bare_user_id);
    Some(href)
}

/// `User {first 8 chars}` (or `User`): a label that reveals no profile data.
pub fn opaque_actor_label(bare_user_id: &str) -> (r: String)
    ensures
        r@ == opaque_label(bare_user_id@),
{
    let short = crate::text::take_chars(bare_user_id, OPAQUE_LABEL_ID_CHARS);
    if short.is_empty() {
        String::from_str("User")
    } else {
        let mut label = String::from_str("User ");
        label.append(short);
        label
    }
}

/// Presentation of a row without an actor: `System`, no link.
pub fn system_actor_presentation() -> (r: (String, Option<String>))
    ensures
        r.0@ == SYSTEM_ACTOR_LABEL@,
        r.1 is None,
{
    (String::from_str(SYSTEM_ACTOR_LABEL), None)
}

/// Presentation of a user actor from its bare id and, when the viewer could
/// load the user, the first profile's display name.
///
/// The label is the display name when it is not blank, else the opaque
/// label; the link is the profile href when the id is a safe segment.
pub fn actor_presentation(bare_user_id: &str, display_name: Option<&str>) -> (r: (
    String,
    Option<String>,
))
    ensures
        r.0@ == user_label(
            bare_user_id@,
            match display_name {
                Some(n) => Some(n@),
                None => None,
            },
        ),
        safe_user_path_segment(bare_user_id@) ==> (r.1 matches Some(h) && h@ == profile_href(
            bare_user_id@,
        )),
        !safe_user_path_segment(bare_user_id@) ==> r.1 is None,
{
    let href = actor_profile_href(bare_user_id);
    let label = match display_name {
        Some(name) => {
            if trim_text(name).is_empty() {
                opaque_actor_label(bare_user_id)
            } else {
                name.to_owned()
            }
        },
        None => opaque_actor_label(bare_user_id),
    };
    (label, href)
}

} // verus!
