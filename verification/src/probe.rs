//! Telling whether the server that answers on the local port is OpenCode.

use vstd::prelude::*;
use crate::text::{contains_run, str_contains};

verus! {

/// What a GET of the local URL produced: the status code and, for a
/// successful status, the body text (`None` when it could not be read).
pub struct ProbeResponse {
    pub status: u16,
    pub body: Option<String>,
}

/// The full Unicode lowercase mapping of a text, as `str::to_lowercase`
/// computes it.
pub uninterp spec fn lowercase(s: Seq<char>) -> Seq<char>;

/// Calls `str::to_lowercase`. Its result is named `lowercase`; the Unicode
/// case tables that define it are not written out here.
#[verifier::external_body]
fn to_lowercase(s: &str) -> (r: String)
    ensures
        r@ == lowercase(s@),
{
    s.to_lowercase()
}

/// A status in the 2xx range.
pub open spec fn is_success(status: u16) -> bool {
    200 <= status <= 299
}

/// Whether `status` is a success status.
pub fn status_is_success(status: u16) -> (b: bool)
    ensures
        b == is_success(status),
{
    200 <= status && status <= 299
}

/// Whether a lowercased page mentions `opencode`.
pub fn mentions_opencode(lowered: &str) -> (b: bool)
    ensures
        b == contains_run(lowered@, "opencode"@),
{
    str_contains(lowered, "opencode")
}

/// The body that is searched: an unreadable body counts as empty.
pub open spec fn body_text(body: Option<Seq<char>>) -> Seq<char> {
    match body {
        Some(b) => b,
        None => Seq::empty(),
    }
}

/// The server answered as OpenCode: a success status and a page that,
/// lowercased, contains `opencode`. A failed request counts as no answer.
pub open spec fn answers_as_opencode(resp: Option<(u16, Option<Seq<char>>)>) -> bool {
    match resp {
        Some((status, body)) => is_success(status) && contains_run(
            lowercase(body_text(body)),
            "opencode"@,
        ),
        None => false,
    }
}

/// View of a probe response.
pub open spec fn probe_view(resp: Option<ProbeResponse>) -> Option<(u16, Option<Seq<char>>)> {
    match resp {
        Some(r) => Some(
            (
                r.status,
                match r.body {
                    Some(b) => Some(b@),
                    None => None,
                },
            ),
        ),
        None => None,
    }
}

/// Whether a probe of the local URL found OpenCode running; `resp` is `None`
/// when the request failed.
pub fn looks_like_opencode(resp: &Option<ProbeResponse>) -> (b: bool)
    ensures
        b == answers_as_opencode(probe_view(*resp)),
{
    match resp {
        None => false,
        Some(r) => {
            if !status_is_success(r.status) {
                return false;
            }
            let lowered = match &r.body {
                Some(text) => to_lowercase(text.as_str()),
                None => to_lowercase(""),
            };
            proof {
                if r.body is None {
                    assert(""@ =~= Seq::<char>::empty()) by {
                        reveal_strlit("");
                    }
                }
            }
            mentions_opencode(lowered.as_str())
        },
    }
}


/// A page that is not a success, or that does not mention OpenCode, never
/// counts as the server answering.
pub proof fn lemma_foreign_answers_ignored(status: u16, body: Option<Seq<char>>)
    requires
        !is_success(status) || !contains_run(lowercase(body_text(body)), "opencode"@),
    ensures
        !answers_as_opencode(Some((status, body))),
{
}


/// A success status with a page that, lowercased, holds `opencode` anywhere
/// counts as OpenCode answering, wherever in the page it stands; and
/// whenever the probe counts, the status is in 200..=299 and such a place
/// exists.
pub proof fn lemma_opencode_anywhere_in_page(status: u16, page: Seq<char>, at: int)
    ensures
        200 <= status <= 299 && 0 <= at && at + 8 <= lowercase(page).len() && lowercase(
            page,
        ).subrange(at, at + 8) == "opencode"@ ==> answers_as_opencode(Some((status, Some(page)))),
        answers_as_opencode(Some((status, Some(page)))) ==> 200 <= status <= 299 && exists|i: int|
            0 <= i && i + 8 <= lowercase(page).len() && #[trigger] lowercase(page).subrange(i, i + 8)
                == "opencode"@,
        !answers_as_opencode(None),
{
    reveal_strlit("opencode");
    assert("opencode"@.len() == 8);
}

} // verus!
