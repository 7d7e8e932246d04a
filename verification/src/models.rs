//! The report and the records it is made of.
//!
//! A category of the report that is absent was never filled: its probe
//! group did not run to its end. A field inside a present category that is
//! absent or `false` was probed and found so.

use crate::text::{same_optional_string, same_optional_strings, same_strings};
use vstd::prelude::*;
use vstd::std_specs::cmp::PartialEqSpecImpl;

verus! {

/// What is known of the tenant behind a domain.
#[derive(Debug, Clone)]
pub struct TenantInfo {
    pub domain: String,
    pub tenant_id: Option<String>,
    pub tenant_name: Option<String>,
    pub cloud_instance_name: Option<String>,
    pub likely_m365_usage: Option<bool>,
}

impl Default for TenantInfo {
    fn default() -> (r: Self)
        ensures
            r.domain@.len() == 0,
            r.tenant_id is None,
            r.tenant_name is None,
            r.cloud_instance_name is None,
            r.likely_m365_usage is None,
    {
        TenantInfo {
            domain: String::new(),
            tenant_id: None,
            tenant_name: None,
            cloud_instance_name: None,
            likely_m365_usage: None,
        }
    }
}

/// What the realm lookup says of a domain.
#[derive(Debug, Clone, PartialEq)]
pub struct FederationInfo {
    pub is_federated: bool,
    /// `Managed`, `Federated` or `Unknown`.
    pub name_space_type: Option<String>,
    pub federation_brand_name: Option<String>,
    pub auth_url: Option<String>,
    pub cloud_instance_name: Option<String>,
}

impl Default for FederationInfo {
    fn default() -> (r: Self)
        ensures
            !r.is_federated,
            r.name_space_type is None,
            r.federation_brand_name is None,
            r.auth_url is None,
            r.cloud_instance_name is None,
    {
        FederationInfo {
            is_federated: false,
            name_space_type: None,
            federation_brand_name: None,
            auth_url: None,
            cloud_instance_name: None,
        }
    }
}

/// The endpoints that the identity provider publishes.
#[derive(Debug, Clone, PartialEq)]
pub struct AzureAdConfig {
    pub issuer: Option<String>,
    pub authorization_endpoint: Option<String>,
    pub token_endpoint: Option<String>,
    pub jwks_uri: Option<String>,
    pub tenant_region_scope: Option<String>,
}

impl Default for AzureAdConfig {
    fn default() -> (r: Self)
        ensures
            r.issuer is None,
            r.authorization_endpoint is None,
            r.token_endpoint is None,
            r.jwks_uri is None,
            r.tenant_region_scope is None,
    {
        AzureAdConfig {
            issuer: None,
            authorization_endpoint: None,
            token_endpoint: None,
            jwks_uri: None,
            tenant_region_scope: None,
        }
    }
}

/// Whether the directory is synchronised with one on premises.
#[derive(Debug, Clone, Copy, PartialEq, Eq, Structural)]
pub enum AadConnectStatus {
    /// The seamless sign-on endpoint answered.
    Hybrid,
    /// The endpoint refused, or cannot be reached.
    CloudOnly,
    /// The check could not be made, or its outcome says nothing.
    Unknown,
}

/// The DNS indicators of a domain. Each record type has a value and a flag
/// that says whether it was found.
#[derive(Debug, Clone)]
pub struct DnsResults {
    pub mx_records: Option<Vec<String>>,
    pub mx_records_found: Option<bool>,
    pub spf_record: Option<String>,
    pub spf_record_found: Option<bool>,
    pub dmarc_record: Option<String>,
    pub dmarc_record_found: Option<bool>,
    /// `none`, `quarantine` or `reject`, as the DMARC record gives it.
    pub dmarc_policy: Option<String>,
    pub ms_txt_record: Option<String>,
    pub ms_txt_found: Option<bool>,
    pub ms_adfs_auth_txt_record: Option<String>,
    pub ms_adfs_auth_txt_found: Option<bool>,
    pub enterpriseregistration_txt_record: Option<String>,
    pub enterpriseregistration_txt_found: Option<bool>,
    pub enterpriseenrollment_txt_record: Option<String>,
    pub enterpriseenrollment_txt_found: Option<bool>,
    pub autodiscover_cname_or_a: Option<String>,
    pub lyncdiscover_present: Option<bool>,
    pub sip_cname_or_a_present: Option<bool>,
    pub sipfederationtls_tcp_present: Option<bool>,
    pub sip_tls_present: Option<bool>,
}

impl DnsResults {
    /// A value is held exactly where its flag says that it was found.
    pub open spec fn is_consistent(&self) -> bool {
        &&& (self.mx_records_found == Some(true) <==> self.mx_records is Some)
        &&& (self.spf_record_found == Some(true) <==> self.spf_record is Some)
        &&& (self.dmarc_record_found == Some(true) <==> self.dmarc_record is Some)
        &&& (self.ms_txt_found == Some(true) <==> self.ms_txt_record is Some)
        &&& (self.ms_adfs_auth_txt_found == Some(true) <==> self.ms_adfs_auth_txt_record is Some)
        &&& (self.enterpriseregistration_txt_found == Some(true)
            <==> self.enterpriseregistration_txt_record is Some)
        &&& (self.enterpriseenrollment_txt_found == Some(true)
            <==> self.enterpriseenrollment_txt_record is Some)
    }
}

impl Default for DnsResults {
    fn default() -> (r: Self)
        ensures
            r.is_consistent(),
            r.mx_records is None,
            r.mx_records_found is None,
            r.spf_record is None,
            r.spf_record_found is None,
            r.dmarc_record is None,
            r.dmarc_record_found is None,
            r.dmarc_policy is None,
            r.ms_txt_record is None,
            r.ms_txt_found is None,
            r.ms_adfs_auth_txt_record is None,
            r.ms_adfs_auth_txt_found is None,
            r.enterpriseregistration_txt_record is None,
            r.enterpriseregistration_txt_found is None,
            r.enterpriseenrollment_txt_record is None,
            r.enterpriseenrollment_txt_found is None,
            r.autodiscover_cname_or_a is None,
            r.lyncdiscover_present is None,
            r.sip_cname_or_a_present is None,
            r.sipfederationtls_tcp_present is None,
            r.sip_tls_present is None,
    {
        DnsResults {
            mx_records: None,
            mx_records_found: None,
            spf_record: None,
            spf_record_found: None,
            dmarc_record: None,
            dmarc_record_found: None,
            dmarc_policy: None,
            ms_txt_record: None,
            ms_txt_found: None,
            ms_adfs_auth_txt_record: None,
            ms_adfs_auth_txt_found: None,
            enterpriseregistration_txt_record: None,
            enterpriseregistration_txt_found: None,
            enterpriseenrollment_txt_record: None,
            enterpriseenrollment_txt_found: None,
            autodiscover_cname_or_a: None,
            lyncdiscover_present: None,
            sip_cname_or_a_present: None,
            sipfederationtls_tcp_present: None,
            sip_tls_present: None,
        }
    }
}

impl PartialEq for DnsResults {
    fn eq(&self, other: &Self) -> (r: bool) {
        same_optional_strings(&self.mx_records, &other.mx_records) && self.mx_records_found
            == other.mx_records_found && same_optional_string(&self.spf_record, &other.spf_record)
            && self.spf_record_found == other.spf_record_found && same_optional_string(
            &self.dmarc_record,
            &other.dmarc_record,
        ) && self.dmarc_record_found == other.dmarc_record_found && same_optional_string(
            &self.dmarc_policy,
            &other.dmarc_policy,
        ) && same_optional_string(&self.ms_txt_record, &other.ms_txt_record) && self.ms_txt_found
            == other.ms_txt_found && same_optional_string(
            &self.ms_adfs_auth_txt_record,
            &other.ms_adfs_auth_txt_record,
        ) && self.ms_adfs_auth_txt_found == other.ms_adfs_auth_txt_found && same_optional_string(
            &self.enterpriseregistration_txt_record,
            &other.enterpriseregistration_txt_record,
        ) && self.enterpriseregistration_txt_found == other.enterpriseregistration_txt_found
            && same_optional_string(
            &self.enterpriseenrollment_txt_record,
            &other.enterpriseenrollment_txt_record,
        ) && self.enterpriseenrollment_txt_found == other.enterpriseenrollment_txt_found
            && same_optional_string(&self.autodiscover_cname_or_a, &other.autodiscover_cname_or_a)
            && self.lyncdiscover_present == other.lyncdiscover_present
            && self.sip_cname_or_a_present == other.sip_cname_or_a_present
            && self.sipfederationtls_tcp_present == other.sipfederationtls_tcp_present
            && self.sip_tls_present == other.sip_tls_present
    }
}

impl PartialEqSpecImpl for DnsResults {
    open spec fn obeys_eq_spec() -> bool {
        true
    }

    open spec fn eq_spec(&self, other: &Self) -> bool {
        &&& self.mx_records.deep_view() == other.mx_records.deep_view()
        &&& self.mx_records_found == other.mx_records_found
        &&& self.spf_record.deep_view() == other.spf_record.deep_view()
        &&& self.spf_record_found == other.spf_record_found
        &&& self.dmarc_record.deep_view() == other.dmarc_record.deep_view()
        &&& self.dmarc_record_found == other.dmarc_record_found
        &&& self.dmarc_policy.deep_view() == other.dmarc_policy.deep_view()
        &&& self.ms_txt_record.deep_view() == other.ms_txt_record.deep_view()
        &&& self.ms_txt_found == other.ms_txt_found
        &&& self.ms_adfs_auth_txt_record.deep_view() == other.ms_adfs_auth_txt_record.deep_view()
        &&& self.ms_adfs_auth_txt_found == other.ms_adfs_auth_txt_found
        &&& self.enterpriseregistration_txt_record.deep_view()
            == other.enterpriseregistration_txt_record.deep_view()
        &&& self.enterpriseregistration_txt_found == other.enterpriseregistration_txt_found
        &&& self.enterpriseenrollment_txt_record.deep_view()
            == other.enterpriseenrollment_txt_record.deep_view()
        &&& self.enterpriseenrollment_txt_found == other.enterpriseenrollment_txt_found
        &&& self.autodiscover_cname_or_a.deep_view() == other.autodiscover_cname_or_a.deep_view()
        &&& self.lyncdiscover_present == other.lyncdiscover_present
        &&& self.sip_cname_or_a_present == other.sip_cname_or_a_present
        &&& self.sipfederationtls_tcp_present == other.sipfederationtls_tcp_present
        &&& self.sip_tls_present == other.sip_tls_present
    }
}

/// The productivity services found behind a domain.
#[derive(Debug, Clone)]
pub struct M365Results {
    pub sharepoint_detected: Option<bool>,
    /// Derived from the DNS indicators alone.
    pub teams_detected: Option<bool>,
    pub tenant_branding_accessible: Option<bool>,
    pub legacy_auth_ews_enabled: Option<bool>,
    pub legacy_auth_activesync_enabled: Option<bool>,
}

impl Default for M365Results {
    fn default() -> (r: Self)
        ensures
            r.sharepoint_detected is None,
            r.teams_detected is None,
            r.tenant_branding_accessible is None,
            r.legacy_auth_ews_enabled is None,
            r.legacy_auth_activesync_enabled is None,
    {
        M365Results {
            sharepoint_detected: None,
            teams_detected: None,
            tenant_branding_accessible: None,
            legacy_auth_ews_enabled: None,
            legacy_auth_activesync_enabled: None,
        }
    }
}

impl PartialEq for M365Results {
    fn eq(&self, other: &Self) -> (r: bool) {
        self.sharepoint_detected == other.sharepoint_detected && self.teams_detected
            == other.teams_detected && self.tenant_branding_accessible
            == other.tenant_branding_accessible && self.legacy_auth_ews_enabled
            == other.legacy_auth_ews_enabled && self.legacy_auth_activesync_enabled
            == other.legacy_auth_activesync_enabled
    }
}

impl PartialEqSpecImpl for M365Results {
    open spec fn obeys_eq_spec() -> bool {
        true
    }

    open spec fn eq_spec(&self, other: &Self) -> bool {
        &&& self.sharepoint_detected == other.sharepoint_detected
        &&& self.teams_detected == other.teams_detected
        &&& self.tenant_branding_accessible == other.tenant_branding_accessible
        &&& self.legacy_auth_ews_enabled == other.legacy_auth_ews_enabled
        &&& self.legacy_auth_activesync_enabled == other.legacy_auth_activesync_enabled
    }
}

/// The hosting services that answer under names derived from a domain.
#[derive(Debug, Clone)]
pub struct AzureServiceResults {
    pub probable_app_services: Vec<String>,
    pub probable_storage_accounts: Vec<String>,
    pub probable_cdn_endpoints: Vec<String>,
}

impl Default for AzureServiceResults {
    fn default() -> (r: Self)
        ensures
            r.probable_app_services@.len() == 0,
            r.probable_storage_accounts@.len() == 0,
            r.probable_cdn_endpoints@.len() == 0,
    {
        AzureServiceResults {
            probable_app_services: Vec::new(),
            probable_storage_accounts: Vec::new(),
            probable_cdn_endpoints: Vec::new(),
        }
    }
}

impl PartialEq for AzureServiceResults {
    fn eq(&self, other: &Self) -> (r: bool) {
        same_strings(&self.probable_app_services, &other.probable_app_services) && same_strings(
            &self.probable_storage_accounts,
            &other.probable_storage_accounts,
        ) && same_strings(&self.probable_cdn_endpoints, &other.probable_cdn_endpoints)
    }
}

impl PartialEqSpecImpl for AzureServiceResults {
    open spec fn obeys_eq_spec() -> bool {
        true
    }

    open spec fn eq_spec(&self, other: &Self) -> bool {
        &&& self.probable_app_services.deep_view() == other.probable_app_services.deep_view()
        &&& self.probable_storage_accounts.deep_view()
            == other.probable_storage_accounts.deep_view()
        &&& self.probable_cdn_endpoints.deep_view() == other.probable_cdn_endpoints.deep_view()
    }
}

/// The directory applications found for a domain.
#[derive(Debug, Clone)]
pub struct AadAppResults {
    pub aad_apps_detected: Option<Vec<String>>,
}

impl Default for AadAppResults {
    fn default() -> (r: Self)
        ensures
            r.aad_apps_detected is None,
    {
        AadAppResults { aad_apps_detected: None }
    }
}

impl PartialEq for AadAppResults {
    fn eq(&self, other: &Self) -> (r: bool) {
        same_optional_strings(&self.aad_apps_detected, &other.aad_apps_detected)
    }
}

impl PartialEqSpecImpl for AadAppResults {
    open spec fn obeys_eq_spec() -> bool {
        true
    }

    open spec fn eq_spec(&self, other: &Self) -> bool {
        self.aad_apps_detected.deep_view() == other.aad_apps_detected.deep_view()
    }
}

/// The security posture found for a domain.
#[derive(Debug, Clone)]
pub struct SecurityServiceResults {
    pub mfa_enforced: Option<bool>,
    pub conditional_access_policies: Option<Vec<String>>,
}

impl Default for SecurityServiceResults {
    fn default() -> (r: Self)
        ensures
            r.mfa_enforced is None,
            r.conditional_access_policies is None,
    {
        SecurityServiceResults { mfa_enforced: None, conditional_access_policies: None }
    }
}

impl PartialEq for SecurityServiceResults {
    fn eq(&self, other: &Self) -> (r: bool) {
        self.mfa_enforced == other.mfa_enforced && same_optional_strings(
            &self.conditional_access_policies,
            &other.conditional_access_policies,
        )
    }
}

impl PartialEqSpecImpl for SecurityServiceResults {
    open spec fn obeys_eq_spec() -> bool {
        true
    }

    open spec fn eq_spec(&self, other: &Self) -> bool {
        &&& self.mfa_enforced == other.mfa_enforced
        &&& self.conditional_access_policies.deep_view()
            == other.conditional_access_policies.deep_view()
    }
}

/// The report of one scan: the domain, and one entry for each category.
#[derive(Debug, Clone)]
pub struct ReconResults {
    pub domain: String,
    pub dns_results: Option<DnsResults>,
    pub tenant_info: Option<TenantInfo>,
    pub federation_info: Option<FederationInfo>,
    pub azure_ad_config: Option<AzureAdConfig>,
    pub aad_connect_status: Option<AadConnectStatus>,
    pub m365_results: Option<M365Results>,
    pub azure_service_results: Option<AzureServiceResults>,
    pub aad_app_results: Option<AadAppResults>,
    pub security_service_results: Option<SecurityServiceResults>,
}

impl ReconResults {
    /// The report for `domain` in which no category is filled.
    pub open spec fn empty(domain: String) -> ReconResults {
        ReconResults {
            domain,
            dns_results: None,
            tenant_info: None,
            federation_info: None,
            azure_ad_config: None,
            aad_connect_status: None,
            m365_results: None,
            azure_service_results: None,
            aad_app_results: None,
            security_service_results: None,
        }
    }

    /// A report for `domain` with every category still absent.
    pub fn new(domain: String) -> (r: Self)
        ensures
            r == ReconResults::empty(domain),
    {
        ReconResults {
            domain,
            dns_results: None,
            tenant_info: None,
            federation_info: None,
            azure_ad_config: None,
            aad_connect_status: None,
            m365_results: None,
            azure_service_results: None,
            aad_app_results: None,
            security_service_results: None,
        }
    }
}

impl Default for ReconResults {
    fn default() -> (r: Self)
        ensures
            r.domain@.len() == 0,
            r == ReconResults::empty(r.domain),
    {
        ReconResults::new(String::new())
    }
}

} // verus!
