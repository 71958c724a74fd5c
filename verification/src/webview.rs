//! Decisions taken for the web views of browser windows.

use vstd::prelude::*;

verus! {

/// `WKNavigationResponsePolicyAllow`.
pub const RESPONSE_POLICY_ALLOW: i64 = 1;

/// `WKNavigationResponsePolicyDownload`.
pub const RESPONSE_POLICY_DOWNLOAD: i64 = 2;

/// How to answer a navigation response: show what the web view can show,
/// download everything else.
pub fn response_policy(can_show_mime_type: bool) -> (policy: i64)
    ensures
        policy == (if can_show_mime_type {
            RESPONSE_POLICY_ALLOW
        } else {
            RESPONSE_POLICY_DOWNLOAD
        }),
{
    if can_show_mime_type {
        RESPONSE_POLICY_ALLOW
    } else {
        RESPONSE_POLICY_DOWNLOAD
    }
}

} // verus!
