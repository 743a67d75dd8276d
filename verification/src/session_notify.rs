//! Which saved sessions are worth telling the web clients about.

use crate::text::starts_with;
use vstd::prelude::*;

verus! {

/// Whether the session stored under `key` is shown in the web interface:
/// a web session, or a scheduled job that writes to one.
pub open spec fn is_web_session(key: Seq<char>) -> bool {
    "web:"@.is_prefix_of(key) || "cron:web"@.is_prefix_of(key)
}

/// Decides whether saving the session stored under `key` is announced to
/// the web clients.
pub fn should_notify(key: &str) -> (notify: bool)
    ensures
        notify == is_web_session(key@),
{
    starts_with(key, "web:") || starts_with(key, "cron:web")
}

} // verus!
