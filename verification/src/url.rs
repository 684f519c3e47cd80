use vstd::prelude::*;
use vstd::string::{StrSliceExecFns, StringExecFns};
use crate::error::CrabtiveError;

verus! {

/// True when the placeholder marker `{}` stands at position `i` of `t`.
pub open spec fn marker_at(t: Seq<char>, i: int) -> bool {
    &&& 0 <= i
    &&& i + 1 < t.len()
    &&& t[i] == '{'
    &&& t[i + 1] == '}'
}

/// Position of the first placeholder marker at or after `i`, or `t.len()`
/// when no marker follows.
pub open spec fn spec_find_marker(t: Seq<char>, i: int) -> int
    decreases t.len() - i,
{
    if 0 <= i && i + 1 < t.len() {
        if t[i] == '{' && t[i + 1] == '}' {
            i
        } else {
            spec_find_marker(t, i + 1)
        }
    } else {
        t.len() as int
    }
}

/// The probe URL for a template and a username: the text before the first
/// `{}` marker, with the username substituted verbatim at the marker's
/// position. A template without a marker is a literal prefix, so the
/// username is appended at its end.
pub open spec fn spec_probe_url(t: Seq<char>, username: Seq<char>) -> Seq<char> {
    t.subrange(0, spec_find_marker(t, 0)) + username
}

/// `spec_find_marker(t, 0)` really is the first marker position: no marker
/// stands before it, and when it is below `t.len()` a marker stands there.
pub proof fn lemma_find_marker_first(t: Seq<char>)
    ensures
        0 <= spec_find_marker(t, 0) <= t.len(),
        spec_find_marker(t, 0) < t.len() ==> marker_at(t, spec_find_marker(t, 0)),
        forall|j: int| 0 <= j < spec_find_marker(t, 0) ==> !marker_at(t, j),
{
    lemma_find_marker_first_from(t, 0);
}

/// A template without any `{}` marker is a literal prefix: the probe URL
/// is the whole template with the username appended.
pub proof fn lemma_no_marker_appends(t: Seq<char>, u: Seq<char>)
    requires
        forall|j: int| !marker_at(t, j),
    ensures
        spec_probe_url(t, u) == t + u,
{
    lemma_find_marker_first(t);
    assert(spec_find_marker(t, 0) == t.len());
    assert(t.subrange(0, t.len() as int) =~= t);
}

proof fn lemma_find_marker_first_from(t: Seq<char>, i: int)
    requires
        0 <= i <= t.len(),
    ensures
        i <= spec_find_marker(t, i) <= t.len(),
        spec_find_marker(t, i) < t.len() ==> marker_at(t, spec_find_marker(t, i)),
        forall|j: int| i <= j < spec_find_marker(t, i) ==> !marker_at(t, j),
    decreases t.len() - i,
{
    if i + 1 < t.len() && !(t[i] == '{' && t[i + 1] == '}') {
        lemma_find_marker_first_from(t, i + 1);
    }
}

/// Position of the first `{}` marker in `t`, or `t@.len()` when `t` holds none.
fn find_marker(t: &str, i: usize) -> (r: usize)
    requires
        i <= t@.len(),
    ensures
        r == spec_find_marker(t@, i as int),
        i <= r <= t@.len(),
    decreases t@.len() - i,
{
    let l = t.unicode_len();
    if i < l && i + 1 < l {
        if t.get_char(i) == '{' && t.get_char(i + 1) == '}' {
            i
        } else {
            find_marker(t, i + 1)
        }
    } else {
        l
    }
}

/// Resolve a site's user-URL template and a username into the concrete URL
/// to probe.
///
/// The username is substituted verbatim at the first `{}` marker — no
/// escaping or encoding, matching what the probed sites expect. A template
/// without a marker is treated as a literal prefix and the username is
/// appended to it. Only an empty template is rejected; nothing validates
/// that the result is a well-formed URL, so a malformed result surfaces
/// later as a transport failure.
pub fn parse_user_url(plain_format: &str, username: &str) -> (r: Result<String, CrabtiveError>)
    ensures
        plain_format@.len() == 0 ==> r == Err::<String, CrabtiveError>(CrabtiveError::TemplateError),
        plain_format@.len() > 0 ==> r is Ok && r->Ok_0@ == spec_probe_url(plain_format@, username@),
{
    let l = plain_format.unicode_len();
    if l == 0 {
        return Err(CrabtiveError::TemplateError);
    }
    let m = find_marker(plain_format, 0);
    let prefix = plain_format.substring_char(0, m);
    let mut url = prefix.to_owned();
    url.append(username);
    Ok(url)
}

} // verus!
