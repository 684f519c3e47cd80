use vstd::prelude::*;

verus! {

/// One site descriptor from the configuration: a display name, the site's
/// base URL (informational only), and the user-URL template that the
/// username is substituted into.
#[derive(Clone, Debug)]
pub struct WebsiteInfo {
    pub name: String,
    pub base_url: String,
    pub user_url: String,
}

/// The mathematical value of a `WebsiteInfo`: its three fields as
/// character sequences.
pub struct WebsiteInfoView {
    pub name: Seq<char>,
    pub base_url: Seq<char>,
    pub user_url: Seq<char>,
}

impl View for WebsiteInfo {
    type V = WebsiteInfoView;

    open spec fn view(&self) -> WebsiteInfoView {
        WebsiteInfoView { name: self.name@, base_url: self.base_url@, user_url: self.user_url@ }
    }
}

/// The registry of sites to probe, in configuration-file order. That order
/// is meaningful: results are reported in it. The registry may be empty,
/// in which case a check performs zero probes and returns no results.
#[derive(Debug)]
pub struct Config {
    pub websites: Vec<WebsiteInfo>,
}

/// The sequence of site descriptor values a vector of descriptors holds.
pub open spec fn sites_view(v: Seq<WebsiteInfo>) -> Seq<WebsiteInfoView> {
    v.map_values(|w: WebsiteInfo| w@)
}

/// Every successfully loaded entry carries a non-empty user-URL template:
/// the registry invariant that configuration loading establishes.
pub open spec fn all_templates_nonempty(sites: Seq<WebsiteInfoView>) -> bool {
    forall|i: int| 0 <= i < sites.len() ==> sites[i].user_url.len() > 0
}

impl Config {
    /// The registry's value: the descriptor values in registry order.
    pub open spec fn sites(&self) -> Seq<WebsiteInfoView> {
        sites_view(self.websites@)
    }
}

impl Default for Config {
    /// An empty registry: zero sites configured.
    fn default() -> (r: Config)
        ensures
            r.websites@ == Seq::<WebsiteInfo>::empty(),
    {
        Config { websites: Vec::new() }
    }
}

} // verus!
