//! The productivity services of a tenant: its collaboration site, its
//! branding on the login host, and the legacy protocol endpoints.

use crate::config::CloudConfig;
use crate::models::{DnsResults, M365Results};
use crate::recon::probe::{evaluate, verdict, ProbeKind, ProbeOutcome};
use crate::text::{first_segment, segment_end_in, slice_string, to_chars};
use vstd::prelude::*;
use vstd::string::*;

verus! {

/// The address of the tenant's collaboration site.
pub open spec fn sharepoint_address(domain: Seq<char>, config: CloudConfig) -> Seq<char> {
    "https://"@ + first_segment(domain, '.') + config.sharepoint_host_suffix@
}

/// The address of the tenant's branding asset.
pub open spec fn branding_address(domain: Seq<char>, config: CloudConfig) -> Seq<char> {
    "https://"@ + config.login_microsoftonline_host@ + first_segment(domain, '.')
        + "/common/branding/favicon.ico"@
}

/// The address of the web services endpoint.
pub open spec fn ews_address(domain: Seq<char>, config: CloudConfig) -> Seq<char> {
    "https://"@ + domain + config.ews_endpoint_host@ + "/EWS/Exchange.asmx"@
}

/// The address of the device synchronisation endpoint.
pub open spec fn activesync_address(domain: Seq<char>, config: CloudConfig) -> Seq<char> {
    "https://"@ + domain + config.activesync_endpoint_host@ + "/Microsoft-Server-ActiveSync"@
}

/// What a probe that may not have finished leaves in a yes-or-no field:
/// nothing where it did not finish, else whether its verdict is a finding.
pub open spec fn finding(outcome: Option<&ProbeOutcome>, kind: ProbeKind) -> Option<bool> {
    match outcome {
        Some(o) => Some(verdict(*o, kind).counts_as_found()),
        None => None,
    }
}

/// Whether the DNS entry shows a conferencing service: one of its two
/// indicators is set. An absent entry shows none.
pub open spec fn teams_in_dns(dns_results: Option<&DnsResults>) -> bool {
    match dns_results {
        Some(dns) => dns.lyncdiscover_present == Some(true) || dns.sip_cname_or_a_present == Some(
            true,
        ),
        None => false,
    }
}

/// The outcomes of the four probes of the group. A probe that did not
/// finish has none.
#[derive(Debug, Clone)]
pub struct M365Probes {
    pub sharepoint: Option<ProbeOutcome>,
    pub branding: Option<ProbeOutcome>,
    pub ews: Option<ProbeOutcome>,
    pub activesync: Option<ProbeOutcome>,
}

/// What a probe that may not have finished leaves in a yes-or-no field.
pub open spec fn finding_of(outcome: Option<ProbeOutcome>, kind: ProbeKind) -> Option<bool> {
    match outcome {
        Some(o) => Some(verdict(o, kind).counts_as_found()),
        None => None,
    }
}

/// Whether a DNS entry, where there is one, shows a conferencing service.
pub open spec fn teams_shown(dns_results: Option<DnsResults>) -> bool {
    match dns_results {
        Some(dns) => dns.lyncdiscover_present == Some(true) || dns.sip_cname_or_a_present == Some(
            true,
        ),
        None => false,
    }
}

/// The entry for the productivity services that the four probes and the
/// DNS entry of the report give.
pub open spec fn m365_entry(probes: M365Probes, dns_results: Option<DnsResults>) -> M365Results {
    M365Results {
        sharepoint_detected: finding_of(probes.sharepoint, ProbeKind::Collaboration),
        teams_detected: Some(teams_shown(dns_results)),
        tenant_branding_accessible: finding_of(probes.branding, ProbeKind::Branding),
        legacy_auth_ews_enabled: finding_of(probes.ews, ProbeKind::LegacyAuth),
        legacy_auth_activesync_enabled: finding_of(probes.activesync, ProbeKind::LegacyAuth),
    }
}

impl M365Probes {
    /// Reads the probes, together with the DNS entry of the report, into
    /// the entry for the productivity services.
    pub fn read(&self, dns_results: &Option<DnsResults>) -> (r: M365Results)
        ensures
            r == m365_entry(*self, *dns_results),
    {
        run_m365_checks(
            self.sharepoint.as_ref(),
            self.branding.as_ref(),
            self.ews.as_ref(),
            self.activesync.as_ref(),
            dns_results.as_ref(),
        )
    }
}

/// The tenant name that a domain suggests: its first label.
pub fn get_tenant_name(domain: &str) -> (r: String)
    ensures
        r@ == first_segment(domain@, '.'),
{
    let chars = to_chars(domain);
    assert(chars@.skip(0) =~= chars@);
    let end = segment_end_in(&chars, 0, '.');
    assert(domain@.take(end as int) =~= domain@.subrange(0, end as int));
    slice_string(domain, 0, end)
}

/// The address to probe for the tenant's collaboration site.
pub fn sharepoint_url(domain: &str, config: &CloudConfig) -> (r: String)
    ensures
        r@ == sharepoint_address(domain@, *config),
{
    let tenant_name = get_tenant_name(domain);
    let mut url = String::from_str("https://");
    url.append(tenant_name.as_str());
    url.append(config.sharepoint_host_suffix.as_str());
    url
}

/// The address to probe for the tenant's branding asset.
pub fn tenant_branding_url(domain: &str, config: &CloudConfig) -> (r: String)
    ensures
        r@ == branding_address(domain@, *config),
{
    let tenant_name = get_tenant_name(domain);
    let mut url = String::from_str("https://");
    url.append(config.login_microsoftonline_host.as_str());
    url.append(tenant_name.as_str());
    url.append("/common/branding/favicon.ico");
    url
}

/// The address to probe for the web services endpoint.
pub fn legacy_auth_ews_url(domain: &str, config: &CloudConfig) -> (r: String)
    ensures
        r@ == ews_address(domain@, *config),
{
    let mut url = String::from_str("https://");
    url.append(domain);
    url.append(config.ews_endpoint_host.as_str());
    url.append("/EWS/Exchange.asmx");
    url
}

/// The address to probe for the device synchronisation endpoint.
pub fn legacy_auth_activesync_url(domain: &str, config: &CloudConfig) -> (r: String)
    ensures
        r@ == activesync_address(domain@, *config),
{
    let mut url = String::from_str("https://");
    url.append(domain);
    url.append(config.activesync_endpoint_host.as_str());
    url.append("/Microsoft-Server-ActiveSync");
    url
}

/// Whether the collaboration site answered as one that exists.
pub fn check_sharepoint(outcome: &ProbeOutcome) -> (r: bool)
    ensures
        r == verdict(*outcome, ProbeKind::Collaboration).counts_as_found(),
{
    evaluate(outcome, ProbeKind::Collaboration).detected()
}

/// Whether the tenant's branding asset can be fetched.
pub fn check_tenant_branding(outcome: &ProbeOutcome) -> (r: bool)
    ensures
        r == verdict(*outcome, ProbeKind::Branding).counts_as_found(),
{
    evaluate(outcome, ProbeKind::Branding).detected()
}

/// Whether the web services endpoint is there. A refusal for want of
/// credentials shows that it is.
pub fn check_legacy_auth_ews(outcome: &ProbeOutcome) -> (r: bool)
    ensures
        r == verdict(*outcome, ProbeKind::LegacyAuth).counts_as_found(),
{
    evaluate(outcome, ProbeKind::LegacyAuth).detected()
}

/// Whether the device synchronisation endpoint is there. A refusal for
/// want of credentials shows that it is.
pub fn check_legacy_auth_activesync(outcome: &ProbeOutcome) -> (r: bool)
    ensures
        r == verdict(*outcome, ProbeKind::LegacyAuth).counts_as_found(),
{
    evaluate(outcome, ProbeKind::LegacyAuth).detected()
}

/// Checks for a conferencing service in the DNS entry. No request is made.
pub fn check_teams_dns(dns_results: Option<&DnsResults>) -> (r: bool)
    ensures
        r == teams_in_dns(dns_results),
{
    match dns_results {
        Some(dns) => {
            let lync = match dns.lyncdiscover_present {
                Some(present) => present,
                None => false,
            };
            let sip = match dns.sip_cname_or_a_present {
                Some(present) => present,
                None => false,
            };
            lync || sip
        },
        None => false,
    }
}

/// Reads the four probes of the group, and the DNS entry of the report,
/// into the entry for the productivity services. Each field is read from
/// its own probe alone: a probe that did not finish leaves its own field
/// absent and the others as their probes give them.
pub fn run_m365_checks(
    sharepoint: Option<&ProbeOutcome>,
    branding: Option<&ProbeOutcome>,
    ews: Option<&ProbeOutcome>,
    activesync: Option<&ProbeOutcome>,
    dns_results: Option<&DnsResults>,
) -> (r: M365Results)
    ensures
        r.sharepoint_detected == finding(sharepoint, ProbeKind::Collaboration),
        r.teams_detected == Some(teams_in_dns(dns_results)),
        r.tenant_branding_accessible == finding(branding, ProbeKind::Branding),
        r.legacy_auth_ews_enabled == finding(ews, ProbeKind::LegacyAuth),
        r.legacy_auth_activesync_enabled == finding(activesync, ProbeKind::LegacyAuth),
{
    M365Results {
        sharepoint_detected: match sharepoint {
            Some(outcome) => Some(check_sharepoint(outcome)),
            None => None,
        },
        teams_detected: Some(check_teams_dns(dns_results)),
        tenant_branding_accessible: match branding {
            Some(outcome) => Some(check_tenant_branding(outcome)),
            None => None,
        },
        legacy_auth_ews_enabled: match ews {
            Some(outcome) => Some(check_legacy_auth_ews(outcome)),
            None => None,
        },
        legacy_auth_activesync_enabled: match activesync {
            Some(outcome) => Some(check_legacy_auth_activesync(outcome)),
            None => None,
        },
    }
}

} // verus!
