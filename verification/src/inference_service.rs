//! The configuration of the inference service.
use vstd::prelude::*;

verus! {

pub struct InferenceServiceConfiguration {
    /// `host:port` the service listens on.
    pub addr: String,
    pub cors_allowed_hosts: Vec<String>,
    /// How long (in milliseconds) to wait for the next result of an agent.
    pub inference_item_timeout_millis: u64,
}

pub struct InferenceService {
    pub configuration: InferenceServiceConfiguration,
    /// `host:port` of the web admin panel, when it runs.
    pub web_admin_panel_addr: Option<String>,
}

/// The origins allowed to call a service: the configured ones, then the web
/// admin panel's, when it runs.
pub open spec fn spec_cors_allowed_hosts(
    configured: Seq<Seq<char>>,
    web_admin_panel_addr: Option<Seq<char>>,
) -> Seq<Seq<char>> {
    match web_admin_panel_addr {
        Some(addr) => configured.push("http://"@ + addr),
        None => configured,
    }
}

/// The view of a list of strings.
pub open spec fn strings_view(v: Seq<String>) -> Seq<Seq<char>> {
    v.map_values(|h: String| h@)
}

/// The view of an optional string.
pub open spec fn opt_string_view(s: Option<String>) -> Option<Seq<char>> {
    match s {
        Some(a) => Some(a@),
        None => None,
    }
}

/// The origins allowed to call a service configured with `configured`,
/// beside a web admin panel at `web_admin_panel_addr` when it runs.
pub fn cors_allowed_hosts_with_panel(
    configured: &Vec<String>,
    web_admin_panel_addr: &Option<String>,
) -> (res: Vec<String>)
    ensures
        strings_view(res@) == spec_cors_allowed_hosts(
            strings_view(configured@),
            opt_string_view(*web_admin_panel_addr),
        ),
{
    let mut res: Vec<String> = Vec::new();
    let mut i: usize = 0;
    while i < configured.len()
        invariant
            i <= configured@.len(),
            res@.len() == i,
            forall|j: int| 0 <= j < i ==> #[trigger] res@[j]@ == configured@[j]@,
        decreases configured@.len() - i,
    {
        res.push(configured[i].clone());
        i = i + 1;
    }
    assert(strings_view(res@) =~= strings_view(configured@));
    match web_admin_panel_addr {
        Some(addr) => {
            let mut origin = String::new();
            origin.append("http://");
            origin.append(addr.as_str());
            let ghost before = res@;
            res.push(origin);
            assert(strings_view(res@) =~= strings_view(before).push("http://"@ + addr@));
        },
        None => {},
    }
    res
}

impl InferenceService {
    pub fn name(&self) -> (res: &'static str)
        ensures
            res@ == "balancer::inference_service"@,
    {
        "balancer::inference_service"
    }

    /// The origins allowed to call the service.
    pub fn cors_allowed_hosts(&self) -> (res: Vec<String>)
        ensures
            strings_view(res@) == spec_cors_allowed_hosts(
                strings_view(self.configuration.cors_allowed_hosts@),
                opt_string_view(self.web_admin_panel_addr),
            ),
    {
        cors_allowed_hosts_with_panel(&self.configuration.cors_allowed_hosts, &self.web_admin_panel_addr)
    }
}

} // verus!
