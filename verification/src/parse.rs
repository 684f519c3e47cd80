//! Loading the site registry from its JSON configuration text.
//!
//! The configuration is a JSON document of the exact schema
//! `{ "websites": [ { "name": ..., "base_url": ..., "user_url": ... }, ... ] }`
//! with string field values. The grammar the loader accepts is written out
//! below as spec functions, and the executable parser is proved to return a
//! registry exactly when the text matches that grammar: object keys may come
//! in any order but each must appear exactly once, unknown keys and trailing
//! commas are schema errors, string literals contain no escape sequences,
//! and the load is atomic — one malformed entry fails the whole load.

use vstd::prelude::*;
use vstd::string::StrSliceExecFns;
use crate::error::CrabtiveError;
use crate::site::{Config, WebsiteInfo, WebsiteInfoView, all_templates_nonempty, sites_view};

verus! {

/// The whitespace characters JSON allows between tokens.
pub open spec fn is_json_ws(c: char) -> bool {
    c == ' ' || c == '\n' || c == '\t' || c == '\r'
}

/// First position at or after `i` that does not hold whitespace.
pub open spec fn spec_skip_ws(s: Seq<char>, i: int) -> int
    decreases s.len() - i,
{
    if 0 <= i && i < s.len() && is_json_ws(s[i]) {
        spec_skip_ws(s, i + 1)
    } else {
        i
    }
}

/// Position of the closing quote of a string literal whose content starts
/// at `j`, or `None` when the literal is unterminated or holds a backslash
/// (escape sequences are not part of the accepted grammar).
pub open spec fn spec_scan_string_end(s: Seq<char>, j: int) -> Option<int>
    decreases s.len() - j,
{
    if 0 <= j && j < s.len() {
        if s[j] == '"' {
            Some(j)
        } else if s[j] == '\\' {
            None
        } else {
            spec_scan_string_end(s, j + 1)
        }
    } else {
        None
    }
}

/// A string literal at `i`: its content and the position after the closing
/// quote.
pub open spec fn spec_parse_string(s: Seq<char>, i: int) -> Option<(Seq<char>, int)> {
    if 0 <= i && i < s.len() && s[i] == '"' {
        match spec_scan_string_end(s, i + 1) {
            Some(q) => Some((s.subrange(i + 1, q), q + 1)),
            None => None,
        }
    } else {
        None
    }
}

/// Record a parsed `key: value` pair in the entry's three field slots.
/// A key outside the schema, or one that was already seen, is an error.
pub open spec fn spec_assign_field(
    name: Option<Seq<char>>,
    base: Option<Seq<char>>,
    user: Option<Seq<char>>,
    key: Seq<char>,
    val: Seq<char>,
) -> Option<(Option<Seq<char>>, Option<Seq<char>>, Option<Seq<char>>)> {
    if key == "name"@ {
        if name is None {
            Some((Some(val), base, user))
        } else {
            None
        }
    } else if key == "base_url"@ {
        if base is None {
            Some((name, Some(val), user))
        } else {
            None
        }
    } else if key == "user_url"@ {
        if user is None {
            Some((name, base, Some(val)))
        } else {
            None
        }
    } else {
        None
    }
}

/// The field pairs of one entry, starting at a pair and ending at the
/// entry's closing brace. All three schema fields must be present by the
/// closing brace.
pub open spec fn spec_parse_fields(
    s: Seq<char>,
    i: int,
    name: Option<Seq<char>>,
    base: Option<Seq<char>>,
    user: Option<Seq<char>>,
) -> Option<(WebsiteInfoView, int)>
    decreases s.len() - i,
{
    match spec_parse_string(s, i) {
        None => None,
        Some((key, j)) => {
            let j2 = spec_skip_ws(s, j);
            if 0 <= j2 && j2 < s.len() && s[j2] == ':' {
                let j3 = spec_skip_ws(s, j2 + 1);
                match spec_parse_string(s, j3) {
                    None => None,
                    Some((val, k)) => match spec_assign_field(name, base, user, key, val) {
                        None => None,
                        Some((n2, b2, u2)) => {
                            let k2 = spec_skip_ws(s, k);
                            if 0 <= k2 && k2 < s.len() && s[k2] == ',' {
                                let k3 = spec_skip_ws(s, k2 + 1);
                                if i < k3 && k3 <= s.len() {
                                    spec_parse_fields(s, k3, n2, b2, u2)
                                } else {
                                    None
                                }
                            } else if 0 <= k2 && k2 < s.len() && s[k2] == '}' {
                                if n2 is Some && b2 is Some && u2 is Some {
                                    Some((
                                        WebsiteInfoView {
                                            name: n2->0,
                                            base_url: b2->0,
                                            user_url: u2->0,
                                        },
                                        k2 + 1,
                                    ))
                                } else {
                                    None
                                }
                            } else {
                                None
                            }
                        },
                    },
                }
            } else {
                None
            }
        },
    }
}

/// One site entry: an object holding exactly the three schema fields.
pub open spec fn spec_parse_entry(s: Seq<char>, i: int) -> Option<(WebsiteInfoView, int)> {
    if 0 <= i && i < s.len() && s[i] == '{' {
        spec_parse_fields(s, spec_skip_ws(s, i + 1), None, None, None)
    } else {
        None
    }
}

/// A non-empty, comma-separated run of entries, ending at the array's
/// closing bracket.
pub open spec fn spec_parse_entries(s: Seq<char>, i: int) -> Option<(Seq<WebsiteInfoView>, int)>
    decreases s.len() - i,
{
    match spec_parse_entry(s, i) {
        None => None,
        Some((e, j)) => {
            let j2 = spec_skip_ws(s, j);
            if 0 <= j2 && j2 < s.len() && s[j2] == ',' {
                let j3 = spec_skip_ws(s, j2 + 1);
                if i < j3 && j3 <= s.len() {
                    match spec_parse_entries(s, j3) {
                        None => None,
                        Some((rest, k)) => Some((seq![e] + rest, k)),
                    }
                } else {
                    None
                }
            } else if 0 <= j2 && j2 < s.len() && s[j2] == ']' {
                Some((seq![e], j2 + 1))
            } else {
                None
            }
        },
    }
}

/// The `websites` array: possibly empty, with no trailing comma.
pub open spec fn spec_parse_array(s: Seq<char>, i: int) -> Option<(Seq<WebsiteInfoView>, int)> {
    if 0 <= i && i < s.len() && s[i] == '[' {
        let j = spec_skip_ws(s, i + 1);
        if 0 <= j && j < s.len() && s[j] == ']' {
            Some((Seq::empty(), j + 1))
        } else {
            spec_parse_entries(s, j)
        }
    } else {
        None
    }
}

/// The whole configuration document: one top-level object whose single
/// field `websites` holds the entry array, with nothing but whitespace
/// after the closing brace.
pub open spec fn spec_parse_config(s: Seq<char>) -> Option<Seq<WebsiteInfoView>> {
    let i0 = spec_skip_ws(s, 0);
    if 0 <= i0 && i0 < s.len() && s[i0] == '{' {
        match spec_parse_string(s, spec_skip_ws(s, i0 + 1)) {
            None => None,
            Some((key, j)) => {
                if key == "websites"@ {
                    let j2 = spec_skip_ws(s, j);
                    if 0 <= j2 && j2 < s.len() && s[j2] == ':' {
                        match spec_parse_array(s, spec_skip_ws(s, j2 + 1)) {
                            None => None,
                            Some((sites, k)) => {
                                let k2 = spec_skip_ws(s, k);
                                if 0 <= k2 && k2 < s.len() && s[k2] == '}' {
                                    if spec_skip_ws(s, k2 + 1) == s.len() {
                                        Some(sites)
                                    } else {
                                        None
                                    }
                                } else {
                                    None
                                }
                            },
                        }
                    } else {
                        None
                    }
                } else {
                    None
                }
            },
        }
    } else {
        None
    }
}

/// The field slots of an entry under construction, as sequences.
pub open spec fn opt_view(o: Option<String>) -> Option<Seq<char>> {
    match o {
        Some(x) => Some(x@),
        None => None,
    }
}

/// Character-for-character string equality.
fn str_eq_chars(a: &str, b: &str) -> (r: bool)
    ensures
        r == (a@ == b@),
{
    let la = a.unicode_len();
    let lb = b.unicode_len();
    if la != lb {
        return false;
    }
    let mut i: usize = 0;
    while i < la
        invariant
            i <= la,
            la == a@.len(),
            la == b@.len(),
            forall|t: int| 0 <= t < i ==> a@[t] == b@[t],
        decreases la - i,
    {
        if a.get_char(i) != b.get_char(i) {
            return false;
        }
        i = i + 1;
    }
    proof {
        assert(a@ =~= b@);
    }
    true
}

fn skip_ws(s: &str, i: usize) -> (r: usize)
    requires
        i <= s@.len(),
    ensures
        r == spec_skip_ws(s@, i as int),
        i <= r <= s@.len(),
    decreases s@.len() - i,
{
    let l = s.unicode_len();
    if i < l {
        let c = s.get_char(i);
        if c == ' ' || c == '\n' || c == '\t' || c == '\r' {
            skip_ws(s, i + 1)
        } else {
            i
        }
    } else {
        i
    }
}

fn scan_string_end(s: &str, j: usize) -> (r: Option<usize>)
    requires
        j <= s@.len(),
    ensures
        match r {
            Some(q) => spec_scan_string_end(s@, j as int) == Some(q as int) && j <= q < s@.len(),
            None => spec_scan_string_end(s@, j as int) is None,
        },
    decreases s@.len() - j,
{
    let l = s.unicode_len();
    if j < l {
        let c = s.get_char(j);
        if c == '"' {
            Some(j)
        } else if c == '\\' {
            None
        } else {
            scan_string_end(s, j + 1)
        }
    } else {
        None
    }
}

fn parse_string(s: &str, i: usize) -> (r: Option<(String, usize)>)
    requires
        i <= s@.len(),
    ensures
        match r {
            Some(v) => spec_parse_string(s@, i as int) == Some((v.0@, v.1 as int)) && i < v.1
                <= s@.len(),
            None => spec_parse_string(s@, i as int) is None,
        },
{
    let l = s.unicode_len();
    if i < l && s.get_char(i) == '"' {
        match scan_string_end(s, i + 1) {
            Some(q) => {
                let content = s.substring_char(i + 1, q);
                Some((content.to_owned(), q + 1))
            },
            None => None,
        }
    } else {
        None
    }
}

fn assign_field(
    name: Option<String>,
    base: Option<String>,
    user: Option<String>,
    key: &String,
    val: String,
) -> (r: Option<(Option<String>, Option<String>, Option<String>)>)
    ensures
        match r {
            Some(slots) => spec_assign_field(
                opt_view(name),
                opt_view(base),
                opt_view(user),
                key@,
                val@,
            ) == Some((opt_view(slots.0), opt_view(slots.1), opt_view(slots.2))),
            None => spec_assign_field(
                opt_view(name),
                opt_view(base),
                opt_view(user),
                key@,
                val@,
            ) is None,
        },
{
    if str_eq_chars(key.as_str(), "name") {
        if name.is_none() {
            Some((Some(val), base, user))
        } else {
            None
        }
    } else if str_eq_chars(key.as_str(), "base_url") {
        if base.is_none() {
            Some((name, Some(val), user))
        } else {
            None
        }
    } else if str_eq_chars(key.as_str(), "user_url") {
        if user.is_none() {
            Some((name, base, Some(val)))
        } else {
            None
        }
    } else {
        None
    }
}

fn parse_fields(
    s: &str,
    i: usize,
    name: Option<String>,
    base: Option<String>,
    user: Option<String>,
) -> (r: Option<(WebsiteInfo, usize)>)
    requires
        i <= s@.len(),
    ensures
        match r {
            Some(v) => spec_parse_fields(
                s@,
                i as int,
                opt_view(name),
                opt_view(base),
                opt_view(user),
            ) == Some((v.0@, v.1 as int)) && i < v.1 <= s@.len(),
            None => spec_parse_fields(
                s@,
                i as int,
                opt_view(name),
                opt_view(base),
                opt_view(user),
            ) is None,
        },
    decreases s@.len() - i,
{
    let l = s.unicode_len();
    match parse_string(s, i) {
        None => None,
        Some((key, j)) => {
            let j2 = skip_ws(s, j);
            if j2 < l && s.get_char(j2) == ':' {
                let j3 = skip_ws(s, j2 + 1);
                match parse_string(s, j3) {
                    None => None,
                    Some((val, k)) => match assign_field(name, base, user, &key, val) {
                        None => None,
                        Some((n2, b2, u2)) => {
                            let k2 = skip_ws(s, k);
                            if k2 < l && s.get_char(k2) == ',' {
                                let k3 = skip_ws(s, k2 + 1);
                                parse_fields(s, k3, n2, b2, u2)
                            } else if k2 < l && s.get_char(k2) == '}' {
                                match (n2, b2, u2) {
                                    (Some(n), Some(b), Some(u)) => Some((
                                        WebsiteInfo { name: n, base_url: b, user_url: u },
                                        k2 + 1,
                                    )),
                                    _ => None,
                                }
                            } else {
                                None
                            }
                        },
                    },
                }
            } else {
                None
            }
        },
    }
}

fn parse_entry(s: &str, i: usize) -> (r: Option<(WebsiteInfo, usize)>)
    requires
        i <= s@.len(),
    ensures
        match r {
            Some(v) => spec_parse_entry(s@, i as int) == Some((v.0@, v.1 as int)) && i < v.1
                <= s@.len(),
            None => spec_parse_entry(s@, i as int) is None,
        },
{
    let l = s.unicode_len();
    if i < l && s.get_char(i) == '{' {
        let j = skip_ws(s, i + 1);
        parse_fields(s, j, None, None, None)
    } else {
        None
    }
}

fn parse_entries(s: &str, i: usize) -> (r: Option<(Vec<WebsiteInfo>, usize)>)
    requires
        i <= s@.len(),
    ensures
        match r {
            Some(v) => spec_parse_entries(s@, i as int) == Some((sites_view(v.0@), v.1 as int))
                && i < v.1 <= s@.len(),
            None => spec_parse_entries(s@, i as int) is None,
        },
    decreases s@.len() - i,
{
    let l = s.unicode_len();
    match parse_entry(s, i) {
        None => None,
        Some((e, j)) => {
            let j2 = skip_ws(s, j);
            if j2 < l && s.get_char(j2) == ',' {
                let j3 = skip_ws(s, j2 + 1);
                match parse_entries(s, j3) {
                    None => None,
                    Some((mut rest, k)) => {
                        let ghost rest0 = rest@;
                        rest.insert(0, e);
                        proof {
                            assert(sites_view(rest@) =~= seq![e@] + sites_view(rest0));
                        }
                        Some((rest, k))
                    },
                }
            } else if j2 < l && s.get_char(j2) == ']' {
                let mut sites: Vec<WebsiteInfo> = Vec::new();
                let ghost e_view = e@;
                sites.push(e);
                proof {
                    assert(sites_view(sites@) =~= seq![e_view]);
                }
                Some((sites, j2 + 1))
            } else {
                None
            }
        },
    }
}

fn parse_array(s: &str, i: usize) -> (r: Option<(Vec<WebsiteInfo>, usize)>)
    requires
        i <= s@.len(),
    ensures
        match r {
            Some(v) => spec_parse_array(s@, i as int) == Some((sites_view(v.0@), v.1 as int))
                && i < v.1 <= s@.len(),
            None => spec_parse_array(s@, i as int) is None,
        },
{
    let l = s.unicode_len();
    if i < l && s.get_char(i) == '[' {
        let j = skip_ws(s, i + 1);
        if j < l && s.get_char(j) == ']' {
            let sites: Vec<WebsiteInfo> = Vec::new();
            proof {
                assert(sites_view(sites@) =~= Seq::<WebsiteInfoView>::empty());
            }
            Some((sites, j + 1))
        } else {
            parse_entries(s, j)
        }
    } else {
        None
    }
}

impl Config {
    /// Load the site registry from the configuration text.
    ///
    /// Succeeds exactly when the text matches the configuration grammar
    /// (`spec_parse_config`) and every loaded entry carries a non-empty
    /// user-URL template; the load is atomic, so any schema violation —
    /// including a missing `websites` field — yields `ConfigError` and no
    /// registry at all.
    pub fn from_json(text: &str) -> (r: Result<Config, CrabtiveError>)
        ensures
            match r {
                Ok(c) => spec_parse_config(text@) == Some(c.sites()) && all_templates_nonempty(
                    c.sites(),
                ),
                Err(e) => e == CrabtiveError::ConfigError && (spec_parse_config(text@) is None
                    || !all_templates_nonempty(spec_parse_config(text@)->0)),
            },
    {
        let l = text.unicode_len();
        let i0 = skip_ws(text, 0);
        if !(i0 < l && text.get_char(i0) == '{') {
            return Err(CrabtiveError::ConfigError);
        }
        let key_start = skip_ws(text, i0 + 1);
        match parse_string(text, key_start) {
            None => Err(CrabtiveError::ConfigError),
            Some((key, j)) => {
                if !str_eq_chars(key.as_str(), "websites") {
                    return Err(CrabtiveError::ConfigError);
                }
                let j2 = skip_ws(text, j);
                if !(j2 < l && text.get_char(j2) == ':') {
                    return Err(CrabtiveError::ConfigError);
                }
                match parse_array(text, skip_ws(text, j2 + 1)) {
                    None => Err(CrabtiveError::ConfigError),
                    Some((websites, k)) => {
                        let k2 = skip_ws(text, k);
                        if !(k2 < l && text.get_char(k2) == '}') {
                            return Err(CrabtiveError::ConfigError);
                        }
                        if skip_ws(text, k2 + 1) != l {
                            return Err(CrabtiveError::ConfigError);
                        }
                        let mut idx: usize = 0;
                        while idx < websites.len()
                            invariant
                                idx <= websites@.len(),
                                spec_parse_config(text@) == Some(sites_view(websites@)),
                                forall|t: int|
                                    0 <= t < idx ==> sites_view(websites@)[t].user_url.len() > 0,
                            decreases websites@.len() - idx,
                        {
                            if websites[idx].user_url.as_str().is_empty() {
                                proof {
                                    assert(sites_view(websites@)[idx as int].user_url.len() == 0);
                                    assert(!all_templates_nonempty(sites_view(websites@)));
                                }
                                return Err(CrabtiveError::ConfigError);
                            }
                            idx = idx + 1;
                        }
                        Ok(Config { websites })
                    },
                }
            },
        }
    }
}

} // verus!
