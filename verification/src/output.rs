//! The report as text for a reader.
//!
//! The text is built in memory; writing it out is left to the caller.

use crate::models::{
    AadConnectStatus, AzureAdConfig, AzureServiceResults, DnsResults, FederationInfo, M365Results,
    ReconResults, TenantInfo,
};
use vstd::prelude::*;
use vstd::string::*;

verus! {

/// How a yes-or-no finding is shown.
pub open spec fn bool_text(value: Option<bool>) -> Seq<char> {
    match value {
        Some(true) => "Yes"@,
        Some(false) => "No"@,
        None => "Unknown"@,
    }
}

/// How an optional text is shown.
pub open spec fn string_text(value: Option<Seq<char>>) -> Seq<char> {
    match value {
        Some(text) => text,
        None => "Not Available"@,
    }
}

/// One line of a section: the label and what is shown for it.
pub open spec fn field_line(label: Seq<char>, shown: Seq<char>) -> Seq<char> {
    "  "@ + label + ": "@ + shown + "\n"@
}

/// The lines of a list, one for each item.
pub open spec fn item_lines(values: Seq<Seq<char>>) -> Seq<char>
    decreases values.len(),
{
    if values.len() == 0 {
        Seq::empty()
    } else {
        item_lines(values.drop_last()) + "    - "@ + values.last() + "\n"@
    }
}

/// A list under its label, or the note that it is empty.
pub open spec fn list_field(label: Seq<char>, values: Seq<Seq<char>>) -> Seq<char> {
    if values.len() == 0 {
        "  "@ + label + ": None Found\n"@
    } else {
        "  "@ + label + ":\n"@ + item_lines(values)
    }
}

/// The section on DNS records.
pub open spec fn dns_section(dns: DnsResults) -> Seq<char> {
    "\n[+] DNS Records:\n"@ + field_line("MX Records Found"@, bool_text(dns.mx_records_found))
        + field_line("SPF Record Found"@, bool_text(dns.spf_record_found)) + field_line(
        "DMARC Record Found"@,
        bool_text(dns.dmarc_record_found),
    ) + field_line(
        "Autodiscover Present"@,
        bool_text(Some(dns.autodiscover_cname_or_a is Some)),
    ) + field_line("LyncDiscover Present"@, bool_text(dns.lyncdiscover_present)) + field_line(
        "SIP CName/A Present"@,
        bool_text(dns.sip_cname_or_a_present),
    )
}

/// The section on the tenant.
pub open spec fn tenant_section(tenant: TenantInfo) -> Seq<char> {
    "\n[+] Tenant Information:\n"@ + field_line(
        "Tenant ID"@,
        string_text(tenant.tenant_id.deep_view()),
    ) + field_line("Tenant Name"@, string_text(tenant.tenant_name.deep_view())) + field_line(
        "Cloud Instance Name"@,
        string_text(tenant.cloud_instance_name.deep_view()),
    ) + field_line("Likely M365 Usage"@, bool_text(tenant.likely_m365_usage))
}

/// The section on federation.
pub open spec fn federation_section(federation: FederationInfo) -> Seq<char> {
    "\n[+] Federation Information:\n"@ + field_line(
        "Is Federated"@,
        bool_text(Some(federation.is_federated)),
    ) + field_line(
        "Federation Brand Name"@,
        string_text(federation.federation_brand_name.deep_view()),
    ) + field_line("Namespace Type"@, string_text(federation.name_space_type.deep_view()))
        + field_line("Authentication URL"@, string_text(federation.auth_url.deep_view()))
        + field_line(
        "Cloud Instance Name"@,
        string_text(federation.cloud_instance_name.deep_view()),
    )
}

/// The section on the identity provider's published endpoints.
pub open spec fn openid_section(config: AzureAdConfig) -> Seq<char> {
    "\n[+] Azure AD OpenID Config:\n"@ + field_line("Issuer"@, string_text(config.issuer.deep_view()))
        + field_line(
        "Authorization Endpoint"@,
        string_text(config.authorization_endpoint.deep_view()),
    ) + field_line("Token Endpoint"@, string_text(config.token_endpoint.deep_view())) + field_line(
        "JWKS URI"@,
        string_text(config.jwks_uri.deep_view()),
    ) + field_line("Tenant Region Scope"@, string_text(config.tenant_region_scope.deep_view()))
}

/// How the synchronisation status is shown.
pub open spec fn status_text(status: AadConnectStatus) -> Seq<char> {
    match status {
        AadConnectStatus::Hybrid => "  Status: Hybrid\n"@,
        AadConnectStatus::CloudOnly => "  Status: Cloud Only\n"@,
        AadConnectStatus::Unknown => "  Status: Unknown\n"@,
    }
}

/// The section on directory synchronisation.
pub open spec fn connect_section(status: AadConnectStatus) -> Seq<char> {
    "\n[+] Azure AD Connect Status:\n"@ + status_text(status)
}

/// The section on productivity services.
pub open spec fn m365_section(m365: M365Results) -> Seq<char> {
    "\n[+] M365 Services:\n"@ + field_line(
        "SharePoint Detected"@,
        bool_text(m365.sharepoint_detected),
    ) + field_line("Teams Detected (via DNS)"@, bool_text(m365.teams_detected)) + field_line(
        "Tenant Branding Accessible"@,
        bool_text(m365.tenant_branding_accessible),
    ) + field_line("Legacy Auth (EWS)"@, bool_text(m365.legacy_auth_ews_enabled)) + field_line(
        "Legacy Auth (ActiveSync)"@,
        bool_text(m365.legacy_auth_activesync_enabled),
    )
}

/// The section on hosting services.
pub open spec fn azure_section(azure: AzureServiceResults) -> Seq<char> {
    "\n[+] Azure Services:\n"@ + list_field(
        "Probable App Services"@,
        azure.probable_app_services.deep_view(),
    ) + list_field("Probable Storage Accounts"@, azure.probable_storage_accounts.deep_view())
        + list_field("Probable CDN Endpoints"@, azure.probable_cdn_endpoints.deep_view())
}

/// A section where its category is present, nothing where it is absent.
pub open spec fn shown_if(present: bool, section: Seq<char>) -> Seq<char> {
    if present {
        section
    } else {
        Seq::empty()
    }
}

/// The heading of the report.
pub open spec fn heading(domain: Seq<char>) -> Seq<char> {
    "--- Reconnaissance Results for: "@ + domain + " ---\n"@
}

/// The whole report: a heading with the domain, the sections of the
/// categories that are present, in a fixed order, and a closing line.
pub open spec fn report_text(results: ReconResults) -> Seq<char> {
    heading(results.domain@) + shown_if(
        results.dns_results is Some,
        dns_section(results.dns_results->0),
    ) + shown_if(results.tenant_info is Some, tenant_section(results.tenant_info->0)) + shown_if(
        results.federation_info is Some,
        federation_section(results.federation_info->0),
    ) + shown_if(results.azure_ad_config is Some, openid_section(results.azure_ad_config->0))
        + shown_if(
        results.aad_connect_status is Some,
        connect_section(results.aad_connect_status->0),
    ) + shown_if(results.m365_results is Some, m365_section(results.m365_results->0)) + shown_if(
        results.azure_service_results is Some,
        azure_section(results.azure_service_results->0),
    ) + "\n--- End of Report ---\n"@
}

fn put_line(writer: &mut String, label: &str, shown: &str)
    ensures
        final(writer)@ == old(writer)@ + field_line(label@, shown@),
{
    writer.append("  ");
    writer.append(label);
    writer.append(": ");
    writer.append(shown);
    writer.append("\n");
    assert(writer@ =~= old(writer)@ + field_line(label@, shown@));
}

/// Appends the line of a yes-or-no finding.
pub fn print_bool_field(writer: &mut String, label: &str, value: Option<bool>)
    ensures
        final(writer)@ == old(writer)@ + field_line(label@, bool_text(value)),
{
    let display_value = match value {
        Some(true) => "Yes",
        Some(false) => "No",
        None => "Unknown",
    };
    put_line(writer, label, display_value);
}

/// Appends the line of an optional text.
pub fn print_string_field(writer: &mut String, label: &str, value: Option<&str>)
    ensures
        final(writer)@ == old(writer)@ + field_line(label@, string_text(value.deep_view())),
{
    let display_value = match value {
        Some(text) => text,
        None => "Not Available",
    };
    put_line(writer, label, display_value);
}

/// Appends a list under its label, or the note that it is empty.
pub fn print_vec_field(writer: &mut String, label: &str, values: &Vec<String>)
    ensures
        final(writer)@ == old(writer)@ + list_field(label@, values.deep_view()),
{
    if values.len() == 0 {
        writer.append("  ");
        writer.append(label);
        writer.append(": None Found\n");
        assert(writer@ =~= old(writer)@ + list_field(label@, values.deep_view()));
    } else {
        writer.append("  ");
        writer.append(label);
        writer.append(":\n");
        let ghost head = "  "@ + label@ + ":\n"@;
        assert(writer@ =~= old(writer)@ + head);
        let mut i: usize = 0;
        while i < values.len()
            invariant
                i <= values.len(),
                writer@ == old(writer)@ + head + item_lines(values.deep_view().take(i as int)),
            decreases values.len() - i,
        {
            let ghost before = writer@;
            writer.append("    - ");
            writer.append(values[i].as_str());
            writer.append("\n");
            proof {
                let all = values.deep_view();
                let next = all.take(i + 1);
                assert(next.drop_last() =~= all.take(i as int));
                assert(next.last() == values@[i as int]@);
                assert(writer@ =~= before + ("    - "@ + values@[i as int]@ + "\n"@));
                assert(item_lines(next) =~= item_lines(all.take(i as int)) + ("    - "@
                    + values@[i as int]@ + "\n"@));
                assert(writer@ =~= old(writer)@ + head + item_lines(next));
            }
            i = i + 1;
        }
        assert(values.deep_view().take(i as int) =~= values.deep_view());
        assert(writer@ =~= old(writer)@ + list_field(label@, values.deep_view()));
    }
}

fn optional_text(value: &Option<String>) -> (r: Option<&str>)
    ensures
        r.deep_view() == value.deep_view(),
{
    match value {
        Some(text) => Some(text.as_str()),
        None => None,
    }
}

fn print_dns(writer: &mut String, dns: &DnsResults)
    ensures
        final(writer)@ == old(writer)@ + dns_section(*dns),
{
    writer.append("\n[+] DNS Records:\n");
    print_bool_field(writer, "MX Records Found", dns.mx_records_found);
    print_bool_field(writer, "SPF Record Found", dns.spf_record_found);
    print_bool_field(writer, "DMARC Record Found", dns.dmarc_record_found);
    print_bool_field(writer, "Autodiscover Present", Some(dns.autodiscover_cname_or_a.is_some()));
    print_bool_field(writer, "LyncDiscover Present", dns.lyncdiscover_present);
    print_bool_field(writer, "SIP CName/A Present", dns.sip_cname_or_a_present);
    assert(writer@ =~= old(writer)@ + dns_section(*dns));
}

fn print_tenant(writer: &mut String, tenant: &TenantInfo)
    ensures
        final(writer)@ == old(writer)@ + tenant_section(*tenant),
{
    writer.append("\n[+] Tenant Information:\n");
    print_string_field(writer, "Tenant ID", optional_text(&tenant.tenant_id));
    print_string_field(writer, "Tenant Name", optional_text(&tenant.tenant_name));
    print_string_field(writer, "Cloud Instance Name", optional_text(&tenant.cloud_instance_name));
    print_bool_field(writer, "Likely M365 Usage", tenant.likely_m365_usage);
    assert(writer@ =~= old(writer)@ + tenant_section(*tenant));
}

fn print_federation(writer: &mut String, federation: &FederationInfo)
    ensures
        final(writer)@ == old(writer)@ + federation_section(*federation),
{
    writer.append("\n[+] Federation Information:\n");
    print_bool_field(writer, "Is Federated", Some(federation.is_federated));
    print_string_field(
        writer,
        "Federation Brand Name",
        optional_text(&federation.federation_brand_name),
    );
    print_string_field(writer, "Namespace Type", optional_text(&federation.name_space_type));
    print_string_field(writer, "Authentication URL", optional_text(&federation.auth_url));
    print_string_field(
        writer,
        "Cloud Instance Name",
        optional_text(&federation.cloud_instance_name),
    );
    assert(writer@ =~= old(writer)@ + federation_section(*federation));
}

fn print_openid(writer: &mut String, config: &AzureAdConfig)
    ensures
        final(writer)@ == old(writer)@ + openid_section(*config),
{
    writer.append("\n[+] Azure AD OpenID Config:\n");
    print_string_field(writer, "Issuer", optional_text(&config.issuer));
    print_string_field(
        writer,
        "Authorization Endpoint",
        optional_text(&config.authorization_endpoint),
    );
    print_string_field(writer, "Token Endpoint", optional_text(&config.token_endpoint));
    print_string_field(writer, "JWKS URI", optional_text(&config.jwks_uri));
    print_string_field(writer, "Tenant Region Scope", optional_text(&config.tenant_region_scope));
    assert(writer@ =~= old(writer)@ + openid_section(*config));
}

fn print_connect(writer: &mut String, status: &AadConnectStatus)
    ensures
        final(writer)@ == old(writer)@ + connect_section(*status),
{
    writer.append("\n[+] Azure AD Connect Status:\n");
    match status {
        AadConnectStatus::Hybrid => writer.append("  Status: Hybrid\n"),
        AadConnectStatus::CloudOnly => writer.append("  Status: Cloud Only\n"),
        AadConnectStatus::Unknown => writer.append("  Status: Unknown\n"),
    }
    assert(writer@ =~= old(writer)@ + connect_section(*status));
}

fn print_m365(writer: &mut String, m365: &M365Results)
    ensures
        final(writer)@ == old(writer)@ + m365_section(*m365),
{
    writer.append("\n[+] M365 Services:\n");
    print_bool_field(writer, "SharePoint Detected", m365.sharepoint_detected);
    print_bool_field(writer, "Teams Detected (via DNS)", m365.teams_detected);
    print_bool_field(writer, "Tenant Branding Accessible", m365.tenant_branding_accessible);
    print_bool_field(writer, "Legacy Auth (EWS)", m365.legacy_auth_ews_enabled);
    print_bool_field(writer, "Legacy Auth (ActiveSync)", m365.legacy_auth_activesync_enabled);
    assert(writer@ =~= old(writer)@ + m365_section(*m365));
}

fn print_azure(writer: &mut String, azure: &AzureServiceResults)
    ensures
        final(writer)@ == old(writer)@ + azure_section(*azure),
{
    writer.append("\n[+] Azure Services:\n");
    print_vec_field(writer, "Probable App Services", &azure.probable_app_services);
    print_vec_field(writer, "Probable Storage Accounts", &azure.probable_storage_accounts);
    print_vec_field(writer, "Probable CDN Endpoints", &azure.probable_cdn_endpoints);
    assert(writer@ =~= old(writer)@ + azure_section(*azure));
}

proof fn lemma_section_appended(start: Seq<char>, before: Seq<char>, section: Seq<char>)
    ensures
        (start + before) + section == start + (before + shown_if(true, section)),
        start + before == start + (before + shown_if(false, section)),
{
    assert((start + before) + section =~= start + (before + section));
    assert(before + Seq::<char>::empty() =~= before);
}

/// Appends the report to `writer` as text for a reader: the heading, one
/// section for each category that is present, and the closing line.
pub fn print_results(writer: &mut String, results: &ReconResults)
    ensures
        final(writer)@ == old(writer)@ + report_text(*results),
{
    let ghost start = writer@;
    writer.append("--- Reconnaissance Results for: ");
    writer.append(results.domain.as_str());
    writer.append(" ---\n");
    let ghost t0 = heading(results.domain@);
    assert(writer@ == start + t0) by {
        assert(start + "--- Reconnaissance Results for: "@ + results.domain@ + " ---\n"@ =~= start
            + t0);
    }
    let ghost s1 = dns_section(results.dns_results->0);
    if let Some(dns) = &results.dns_results {
        print_dns(writer, dns);
    }
    let ghost t1 = t0 + shown_if(results.dns_results is Some, s1);
    proof {
        lemma_section_appended(start, t0, s1);
    }
    assert(writer@ == start + t1);
    let ghost s2 = tenant_section(results.tenant_info->0);
    if let Some(tenant) = &results.tenant_info {
        print_tenant(writer, tenant);
    }
    let ghost t2 = t1 + shown_if(results.tenant_info is Some, s2);
    proof {
        lemma_section_appended(start, t1, s2);
    }
    assert(writer@ == start + t2);
    let ghost s3 = federation_section(results.federation_info->0);
    if let Some(federation) = &results.federation_info {
        print_federation(writer, federation);
    }
    let ghost t3 = t2 + shown_if(results.federation_info is Some, s3);
    proof {
        lemma_section_appended(start, t2, s3);
    }
    assert(writer@ == start + t3);
    let ghost s4 = openid_section(results.azure_ad_config->0);
    if let Some(config) = &results.azure_ad_config {
        print_openid(writer, config);
    }
    let ghost t4 = t3 + shown_if(results.azure_ad_config is Some, s4);
    proof {
        lemma_section_appended(start, t3, s4);
    }
    assert(writer@ == start + t4);
    let ghost s5 = connect_section(results.aad_connect_status->0);
    if let Some(status) = &results.aad_connect_status {
        print_connect(writer, status);
    }
    let ghost t5 = t4 + shown_if(results.aad_connect_status is Some, s5);
    proof {
        lemma_section_appended(start, t4, s5);
    }
    assert(writer@ == start + t5);
    let ghost s6 = m365_section(results.m365_results->0);
    if let Some(m365) = &results.m365_results {
        print_m365(writer, m365);
    }
    let ghost t6 = t5 + shown_if(results.m365_results is Some, s6);
    proof {
        lemma_section_appended(start, t5, s6);
    }
    assert(writer@ == start + t6);
    let ghost s7 = azure_section(results.azure_service_results->0);
    if let Some(azure) = &results.azure_service_results {
        print_azure(writer, azure);
    }
    let ghost t7 = t6 + shown_if(results.azure_service_results is Some, s7);
    proof {
        lemma_section_appended(start, t6, s7);
    }
    assert(writer@ == start + t7);
    writer.append("\n--- End of Report ---\n");
    proof {
        lemma_section_appended(start, t7, "\n--- End of Report ---\n"@);
    }
}

} // verus!
