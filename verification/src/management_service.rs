//! The configuration of the management service, where agents connect and
//! operators read the balancer's state.
use vstd::prelude::*;

use crate::inference_service::cors_allowed_hosts_with_panel;
use crate::inference_service::opt_string_view;
use crate::inference_service::spec_cors_allowed_hosts;
use crate::inference_service::strings_view;

verus! {

pub struct ManagementServiceConfiguration {
    /// `host:port` the service listens on.
    pub addr: String,
    pub cors_allowed_hosts: Vec<String>,
    pub fleet_management_enable: bool,
    pub metrics_endpoint_enable: bool,
}

pub struct ManagementService {
    pub configuration: ManagementServiceConfiguration,
    /// Prefix of the metric names reported to StatsD.
    pub statsd_prefix: String,
    /// `host:port` of the web admin panel, when it runs.
    pub web_admin_panel_addr: Option<String>,
}

impl ManagementService {
    pub fn name(&self) -> (res: &'static str)
        ensures
            res@ == "balancer::management_service"@,
    {
        "balancer::management_service"
    }

    /// The origins allowed to call the service: the configured ones, then
    /// the web admin panel's, when it runs.
    pub fn cors_allowed_hosts(&self) -> (res: Vec<String>)
        ensures
            strings_view(res@) == spec_cors_allowed_hosts(
                strings_view(self.configuration.cors_allowed_hosts@),
                opt_string_view(self.web_admin_panel_addr),
            ),
    {
        cors_allowed_hosts_with_panel(&self.configuration.cors_allowed_hosts, &self.web_admin_panel_addr)
    }
}

} // verus!
