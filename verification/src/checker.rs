use vstd::prelude::*;
use crate::error::CrabtiveError;
use crate::site::{Config, WebsiteInfo, all_templates_nonempty};
use crate::status::{CheckStatus, ProbeOutcome, spec_classify_outcome};
use crate::url::{parse_user_url, spec_probe_url};

verus! {

/// The fixed browser-like `User-Agent` header value that every probe
/// request must carry: sites that block default or bot user agents must
/// see a normal desktop browser string.
pub const FIREFOX_USER_AGENT: &'static str =
    "Mozilla/5.0 (Macintosh; Intel Mac OS X 10.15; rv:101.0) Gecko/20100101 Firefox/101.0";

/// The verdict for one site of a check: a copy of the site's descriptor
/// and the classified outcome of its probe.
#[derive(Clone, Debug)]
pub struct CheckResult {
    pub info: WebsiteInfo,
    pub status: CheckStatus,
}

/// Orchestrates a check: holds the registry, builds one probe URL per
/// site, and turns the probes' outcomes into an ordered verdict list.
///
/// The probes themselves are network I/O and stay with the caller: it
/// fetches each URL of `probe_urls` (with the `FIREFOX_USER_AGENT` header)
/// and hands the outcomes, in registry order, to `check_accounts`. Probes
/// may run concurrently; only the order in which the outcomes are handed
/// back matters.
#[derive(Debug)]
pub struct AccountChecker {
    pub config: Config,
}

impl From<Config> for AccountChecker {
    fn from(value: Config) -> (r: AccountChecker) {
        AccountChecker { config: value }
    }
}

impl vstd::std_specs::convert::FromSpecImpl<Config> for AccountChecker {
    open spec fn obeys_from_spec() -> bool {
        true
    }

    open spec fn from_spec(t: Config) -> AccountChecker {
        AccountChecker { config: t }
    }
}

impl AccountChecker {
    /// The probe URL of every registered site for this username, in
    /// registry order: site `i`'s template resolved against the username.
    ///
    /// Fails — with `TemplateError`, aborting the whole check — exactly
    /// when some site's template is empty; a registry the loader produced
    /// never has one.
    pub fn probe_urls(&self, username: &str) -> (r: Result<Vec<String>, CrabtiveError>)
        ensures
            self.config.sites().len() == 0 ==> r is Ok,
            match r {
                Ok(urls) => {
                    &&& urls@.len() == self.config.sites().len()
                    &&& forall|i: int|
                        0 <= i < urls@.len() ==> urls@[i]@ == spec_probe_url(
                            self.config.sites()[i].user_url,
                            username@,
                        )
                    &&& all_templates_nonempty(self.config.sites())
                },
                Err(e) => e == CrabtiveError::TemplateError && !all_templates_nonempty(
                    self.config.sites(),
                ),
            },
    {
        let mut urls: Vec<String> = Vec::new();
        let mut idx: usize = 0;
        while idx < self.config.websites.len()
            invariant
                idx <= self.config.websites@.len(),
                urls@.len() == idx,
                forall|t: int|
                    0 <= t < idx ==> urls@[t]@ == spec_probe_url(
                        self.config.sites()[t].user_url,
                        username@,
                    ),
                forall|t: int| 0 <= t < idx ==> self.config.sites()[t].user_url.len() > 0,
            decreases self.config.websites@.len() - idx,
        {
            let w = &self.config.websites[idx];
            match parse_user_url(w.user_url.as_str(), username) {
                Ok(url) => {
                    urls.push(url);
                },
                Err(e) => {
                    proof {
                        assert(self.config.sites()[idx as int].user_url.len() == 0);
                        assert(!all_templates_nonempty(self.config.sites()));
                    }
                    return Err(e);
                },
            }
            idx = idx + 1;
        }
        Ok(urls)
    }

    /// Assemble the ordered verdict list of one check from the outcomes the
    /// caller's probes produced, one per registered site in registry order.
    ///
    /// Result `i` belongs to site `i` of the registry — registry order,
    /// never probe completion order — and its verdict classifies outcome
    /// `i` alone. A transport failure is isolated to its own site's
    /// verdict (`Unreachable`): every other site still gets its verdict,
    /// and an empty registry yields an empty list.
    pub fn check_accounts(&self, outcomes: &Vec<ProbeOutcome>) -> (r: Vec<CheckResult>)
        requires
            outcomes@.len() == self.config.sites().len(),
        ensures
            r@.len() == self.config.sites().len(),
            forall|i: int|
                0 <= i < r@.len() ==> r@[i].info@ == self.config.sites()[i] && r@[i].status
                    == spec_classify_outcome(outcomes@[i]),
    {
        let mut results: Vec<CheckResult> = Vec::new();
        let mut idx: usize = 0;
        while idx < self.config.websites.len()
            invariant
                idx <= self.config.websites@.len(),
                outcomes@.len() == self.config.websites@.len(),
                results@.len() == idx,
                forall|t: int|
                    0 <= t < idx ==> results@[t].info@ == self.config.sites()[t]
                        && results@[t].status == spec_classify_outcome(outcomes@[t]),
            decreases self.config.websites@.len() - idx,
        {
            let w = &self.config.websites[idx];
            let info = WebsiteInfo {
                name: w.name.clone(),
                base_url: w.base_url.clone(),
                user_url: w.user_url.clone(),
            };
            let status = CheckStatus::from_outcome(outcomes[idx]);
            results.push(CheckResult { info, status });
            proof {
                assert(results@[idx as int].info@ == self.config.sites()[idx as int]);
                assert(results@[idx as int].status == spec_classify_outcome(outcomes@[idx as int]));
            }
            idx = idx + 1;
        }
        results
    }
}

} // verus!
