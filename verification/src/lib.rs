//! Account-existence checker: given a username and a configured list of
//! websites, decide for each site whether an account with that name exists,
//! by probing a per-site URL and classifying the HTTP status that comes back.
//!
//! The library holds the whole decision logic: loading the site registry from
//! its JSON configuration text, resolving each site's URL template against the
//! username, classifying probe outcomes, and assembling the ordered result
//! list. The caller performs the network probes themselves and feeds the
//! outcomes back in; a transport failure on one site is isolated to that
//! site's verdict, so the remaining sites still get results.

mod checker;
mod error;
mod parse;
mod site;
mod status;
mod url;

pub use checker::{AccountChecker, CheckResult, FIREFOX_USER_AGENT};
pub use error::CrabtiveError;
pub use parse::{
    is_json_ws, spec_assign_field, spec_parse_array, spec_parse_config, spec_parse_entries,
    spec_parse_entry, spec_parse_fields, spec_parse_string, spec_scan_string_end, spec_skip_ws,
};
pub use site::{Config, WebsiteInfo, WebsiteInfoView, all_templates_nonempty, sites_view};
pub use status::{
    CheckStatus, ProbeOutcome, lemma_verdict_depends_on_own_outcome_alone, spec_classify,
    spec_classify_outcome,
};
pub use url::{
    lemma_find_marker_first, lemma_no_marker_appends, marker_at, parse_user_url,
    spec_find_marker, spec_probe_url,
};
