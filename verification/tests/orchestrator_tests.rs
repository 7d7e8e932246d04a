use msft_recon_rs::error::ReconError;
use msft_recon_rs::models::{
    AadConnectStatus, AzureAdConfig, AzureServiceResults, DnsResults, FederationInfo,
    M365Results, ReconResults,
};
use msft_recon_rs::recon::aad::{check_aad_connect_status, get_azure_ad_config, OpenIdConfigResponse};
use msft_recon_rs::recon::dns::run_dns_checks;
use msft_recon_rs::recon::m365::M365Probes;
use msft_recon_rs::recon::probe::{FailureKind, ProbeOutcome};
use msft_recon_rs::recon::tenant::get_federation_info;
use msft_recon_rs::recon::{run_all_checks, Action, GroupOutcome, Orchestrator, Phase, TaskOutcome};
use msft_recon_rs::config::CloudConfig;

fn commercial() -> CloudConfig {
    CloudConfig {
        login_endpoint: "https://login.microsoftonline.com".to_string(),
        login_microsoftonline_host: "login.microsoftonline.com".to_string(),
        user_realm_endpoint: "https://login.microsoftonline.com/getuserrealm.srf".to_string(),
        openid_config_endpoint: "/common/v2.0/.well-known/openid-configuration".to_string(),
        azure_ad_connect_check_url: "https://autologon.microsoftazuread-sso.com/".to_string(),
        sharepoint_host_suffix: ".sharepoint.com".to_string(),
        cdn_host_suffix: ".azureedge.net".to_string(),
        ews_endpoint_host: "outlook.office365.com".to_string(),
        activesync_endpoint_host: "outlook.office365.com".to_string(),
        app_service_host_suffix: ".azurewebsites.net".to_string(),
        storage_account_host_suffix: ".blob.core.windows.net".to_string(),
    }
}

fn dns_entry() -> DnsResults {
    let mut dns = DnsResults::default();
    dns.mx_records_found = Some(false);
    dns.lyncdiscover_present = Some(true);
    dns
}

fn federation() -> FederationInfo {
    FederationInfo {
        is_federated: true,
        name_space_type: Some("Managed".to_string()),
        federation_brand_name: None,
        auth_url: None,
        cloud_instance_name: None,
    }
}

fn openid() -> AzureAdConfig {
    AzureAdConfig {
        issuer: Some("https://sts.windows.net/tid/".to_string()),
        authorization_endpoint: None,
        token_endpoint: None,
        jwks_uri: None,
        tenant_region_scope: Some("NA".to_string()),
    }
}

fn status(code: u16) -> Option<ProbeOutcome> {
    Some(ProbeOutcome::Http { status: code, body: None })
}

fn probes() -> M365Probes {
    M365Probes {
        sharepoint: status(200),
        branding: status(404),
        ews: status(401),
        activesync: Some(ProbeOutcome::Failed {
            kind: FailureKind::ConnectFailed,
            detail: "refused".to_string(),
        }),
    }
}

fn m365() -> M365Results {
    M365Results {
        sharepoint_detected: Some(true),
        teams_detected: Some(true),
        tenant_branding_accessible: Some(false),
        legacy_auth_ews_enabled: Some(true),
        legacy_auth_activesync_enabled: Some(false),
    }
}

fn azure() -> AzureServiceResults {
    AzureServiceResults {
        probable_app_services: vec!["https://contoso.azurewebsites.net".to_string()],
        probable_storage_accounts: vec![],
        probable_cdn_endpoints: vec![],
    }
}

fn failure<T>() -> TaskOutcome<T> {
    TaskOutcome::Failed(ReconError::Other("probe failed".to_string()))
}

fn panicked<T>() -> TaskOutcome<T> {
    TaskOutcome::JoinFailed("task panicked".to_string())
}

fn no_entries(report: &ReconResults) -> bool {
    report.dns_results.is_none()
        && report.tenant_info.is_none()
        && report.federation_info.is_none()
        && report.azure_ad_config.is_none()
        && report.aad_connect_status.is_none()
        && report.m365_results.is_none()
        && report.azure_service_results.is_none()
        && report.aad_app_results.is_none()
        && report.security_service_results.is_none()
}

#[test]
fn scan_starts_with_the_dns_phase() {
    let (scan, action) = Orchestrator::start("contoso.com".to_string());
    assert_eq!(action, Action::RunDns);
    assert_eq!(scan.phase, Phase::Dns);
    assert_eq!(scan.results.domain, "contoso.com");
    assert!(no_entries(&scan.results));
}

#[test]
fn probes_start_only_after_dns() {
    let (mut scan, _) = Orchestrator::start("contoso.com".to_string());
    assert_eq!(scan.record(GroupOutcome::M365(TaskOutcome::Completed(probes()))), Action::Wait);
    assert_eq!(scan.phase, Phase::Dns);
    assert!(no_entries(&scan.results));
    assert_eq!(
        scan.record(GroupOutcome::Dns(TaskOutcome::Completed(dns_entry()))),
        Action::RunProbes
    );
    assert_eq!(scan.phase, Phase::Probes);
    assert_eq!(scan.results.dns_results, Some(dns_entry()));
}

#[test]
fn scan_merges_when_every_category_has_ended() {
    let (mut scan, _) = Orchestrator::start("contoso.com".to_string());
    scan.record(GroupOutcome::Dns(TaskOutcome::Completed(dns_entry())));
    assert_eq!(
        scan.record(GroupOutcome::AzureServices(TaskOutcome::Completed(azure()))),
        Action::Wait
    );
    assert_eq!(scan.record(GroupOutcome::M365(TaskOutcome::Completed(probes()))), Action::Wait);
    assert_eq!(
        scan.record(GroupOutcome::AadConnect(TaskOutcome::Completed(AadConnectStatus::Hybrid))),
        Action::Wait
    );
    assert_eq!(
        scan.record(GroupOutcome::Federation(TaskOutcome::Completed(federation()))),
        Action::Wait
    );
    assert_eq!(scan.phase, Phase::Probes);
    assert_eq!(
        scan.record(GroupOutcome::AzureAdConfig(TaskOutcome::Completed(openid()))),
        Action::Report
    );
    assert_eq!(scan.phase, Phase::Merged);
    let report = scan.into_results();
    assert_eq!(report.domain, "contoso.com");
    assert_eq!(report.dns_results, Some(dns_entry()));
    assert_eq!(report.federation_info, Some(federation()));
    assert_eq!(report.azure_ad_config, Some(openid()));
    assert_eq!(report.aad_connect_status, Some(AadConnectStatus::Hybrid));
    assert_eq!(report.m365_results, Some(m365()));
    assert_eq!(report.azure_service_results, Some(azure()));
    assert!(report.tenant_info.is_none());
}

#[test]
fn outcomes_that_are_not_awaited_are_ignored() {
    let (mut scan, _) = Orchestrator::start("contoso.com".to_string());
    scan.record(GroupOutcome::Dns(TaskOutcome::Completed(dns_entry())));
    scan.record(GroupOutcome::Federation(TaskOutcome::Completed(federation())));
    assert_eq!(scan.record(GroupOutcome::Federation(failure())), Action::Wait);
    assert_eq!(scan.results.federation_info, Some(federation()));
    assert_eq!(scan.record(GroupOutcome::Dns(panicked())), Action::Wait);
    assert_eq!(scan.results.dns_results, Some(dns_entry()));
    scan.record(GroupOutcome::AzureAdConfig(failure()));
    scan.record(GroupOutcome::AadConnect(failure()));
    scan.record(GroupOutcome::M365(failure()));
    assert_eq!(scan.record(GroupOutcome::AzureServices(failure())), Action::Report);
    assert_eq!(scan.record(GroupOutcome::M365(TaskOutcome::Completed(probes()))), Action::Wait);
    assert_eq!(scan.phase, Phase::Merged);
    assert!(scan.results.m365_results.is_none());
}

#[test]
fn a_failed_category_leaves_its_siblings_present() {
    let report = run_all_checks(
        "contoso.com".to_string(),
        TaskOutcome::Completed(dns_entry()),
        failure(),
        TaskOutcome::Completed(openid()),
        TaskOutcome::Completed(AadConnectStatus::CloudOnly),
        panicked(),
        TaskOutcome::Completed(azure()),
    )
    .expect("a report is always produced");
    assert_eq!(report.dns_results, Some(dns_entry()));
    assert!(report.federation_info.is_none());
    assert_eq!(report.azure_ad_config, Some(openid()));
    assert_eq!(report.aad_connect_status, Some(AadConnectStatus::CloudOnly));
    assert!(report.m365_results.is_none());
    assert_eq!(report.azure_service_results, Some(azure()));
}

#[test]
fn the_domain_is_kept_when_every_category_fails() {
    let report = run_all_checks(
        "contoso.com".to_string(),
        failure(),
        panicked(),
        failure(),
        panicked(),
        failure(),
        panicked(),
    )
    .expect("a report is always produced");
    assert_eq!(report.domain, "contoso.com");
    assert!(no_entries(&report));
}

#[test]
fn the_same_outcomes_give_the_same_report() {
    let run = || {
        run_all_checks(
            "contoso.com".to_string(),
            TaskOutcome::Completed(dns_entry()),
            TaskOutcome::Completed(federation()),
            failure(),
            TaskOutcome::Completed(AadConnectStatus::Unknown),
            TaskOutcome::Completed(probes()),
            TaskOutcome::Completed(azure()),
        )
        .expect("a report is always produced")
    };
    let (first, second) = (run(), run());
    assert_eq!(format!("{:?}", first), format!("{:?}", second));
}

#[test]
fn order_of_sibling_outcomes_does_not_matter() {
    let (mut a, _) = Orchestrator::start("contoso.com".to_string());
    let (mut b, _) = Orchestrator::start("contoso.com".to_string());
    a.record(GroupOutcome::Dns(TaskOutcome::Completed(dns_entry())));
    b.record(GroupOutcome::Dns(TaskOutcome::Completed(dns_entry())));
    a.record(GroupOutcome::M365(TaskOutcome::Completed(probes())));
    a.record(GroupOutcome::Federation(failure()));
    b.record(GroupOutcome::Federation(failure()));
    b.record(GroupOutcome::M365(TaskOutcome::Completed(probes())));
    assert_eq!(format!("{:?}", a), format!("{:?}", b));
}

#[test]
fn all_endpoints_not_found_still_gives_dns_and_m365_entries() {
    let missing = ProbeOutcome::Http { status: 404, body: None };
    let no_records = ProbeOutcome::Dns { answers: vec![] };
    let dns = run_dns_checks(&no_records, &no_records, None, false, false);
    let m365 = M365Probes {
        sharepoint: status(404),
        branding: status(404),
        ews: status(404),
        activesync: status(404),
    };
    let report = run_all_checks(
        "contoso.com".to_string(),
        TaskOutcome::Completed(dns),
        match get_federation_info(&missing) {
            Ok(info) => TaskOutcome::Completed(info),
            Err(e) => TaskOutcome::Failed(e),
        },
        failure(),
        TaskOutcome::Completed(check_aad_connect_status(&commercial(), Some(&missing))),
        TaskOutcome::Completed(m365),
        TaskOutcome::Completed(AzureServiceResults::default()),
    )
    .expect("a report is always produced");
    let dns = report.dns_results.expect("dns entry");
    assert_eq!(dns.mx_records, None);
    assert_eq!(dns.mx_records_found, Some(false));
    assert_eq!(dns.spf_record_found, Some(false));
    assert_eq!(report.m365_results.expect("m365 entry").sharepoint_detected, Some(false));
    assert!(report.federation_info.is_none());
    assert_eq!(report.aad_connect_status, Some(AadConnectStatus::CloudOnly));
}

#[test]
fn realm_lookup_failure_leaves_the_other_identity_probes() {
    let realm = ProbeOutcome::Http { status: 500, body: Some("error".to_string()) };
    let ok = ProbeOutcome::Http { status: 200, body: None };
    let document = OpenIdConfigResponse {
        issuer: Some("https://sts.windows.net/tid/".to_string()),
        authorization_endpoint: None,
        token_endpoint: None,
        jwks_uri: None,
        tenant_region_scope: Some("NA".to_string()),
    };
    let federation = match get_federation_info(&realm) {
        Ok(info) => TaskOutcome::Completed(info),
        Err(e) => TaskOutcome::Failed(e),
    };
    let aad_config = match get_azure_ad_config(&ok, Ok(document)) {
        Ok(config) => TaskOutcome::Completed(config),
        Err(e) => TaskOutcome::Failed(e),
    };
    let report = run_all_checks(
        "contoso.com".to_string(),
        TaskOutcome::Completed(dns_entry()),
        federation,
        aad_config,
        TaskOutcome::Completed(check_aad_connect_status(&commercial(), Some(&ok))),
        TaskOutcome::Completed(probes()),
        TaskOutcome::Completed(azure()),
    )
    .expect("a report is always produced");
    assert!(report.federation_info.is_none());
    assert_eq!(report.azure_ad_config, Some(openid()));
    assert_eq!(report.aad_connect_status, Some(AadConnectStatus::Hybrid));
}

#[test]
fn task_outcome_entry_is_its_result_only() {
    assert_eq!(TaskOutcome::Completed(7u8).into_entry(), Some(7u8));
    assert_eq!(failure::<u8>().into_entry(), None);
    assert_eq!(panicked::<u8>().into_entry(), None);
    let timed_out = ProbeOutcome::Failed { kind: FailureKind::TimedOut, detail: String::new() };
    assert!(matches!(timed_out, ProbeOutcome::Failed { .. }));
}

#[test]
fn the_service_phase_reads_the_recorded_dns_entry() {
    for (lync, sip, teams) in [
        (Some(true), Some(false), true),
        (Some(false), Some(true), true),
        (Some(false), Some(false), false),
        (None, None, false),
    ] {
        let mut dns = DnsResults::default();
        dns.lyncdiscover_present = lync;
        dns.sip_cname_or_a_present = sip;
        let report = run_all_checks(
            "contoso.com".to_string(),
            TaskOutcome::Completed(dns),
            failure(),
            failure(),
            failure(),
            TaskOutcome::Completed(probes()),
            failure(),
        )
        .expect("a report is always produced");
        assert_eq!(report.m365_results.expect("m365 entry").teams_detected, Some(teams));
    }
}

#[test]
fn a_failed_dns_phase_shows_no_conferencing_service() {
    let report = run_all_checks(
        "contoso.com".to_string(),
        panicked(),
        failure(),
        failure(),
        failure(),
        TaskOutcome::Completed(probes()),
        failure(),
    )
    .expect("a report is always produced");
    assert!(report.dns_results.is_none());
    assert_eq!(
        report.m365_results,
        Some(M365Results {
            sharepoint_detected: Some(true),
            teams_detected: Some(false),
            tenant_branding_accessible: Some(false),
            legacy_auth_ews_enabled: Some(true),
            legacy_auth_activesync_enabled: Some(false),
        })
    );
}

#[test]
fn probes_read_with_a_dns_entry_give_the_entry() {
    let entry = probes().read(&Some(dns_entry()));
    assert_eq!(entry, m365());
    let entry = probes().read(&None);
    assert_eq!(entry.teams_detected, Some(false));
}
