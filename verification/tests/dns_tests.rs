use msft_recon_rs::models::DnsResults;
use msft_recon_rs::recon::dns::{
    autodiscover_name, check_autodiscover, check_record_presence, extract_dmarc_policy,
    find_record, get_mx_records, get_txt_records, lyncdiscover_name, run_dns_checks, sip_name,
    LookupStep,
};
use msft_recon_rs::recon::probe::{FailureKind, ProbeOutcome};

fn answers(items: &[&str]) -> ProbeOutcome {
    ProbeOutcome::Dns { answers: items.iter().map(|s| s.to_string()).collect() }
}

fn lookup_failed() -> ProbeOutcome {
    ProbeOutcome::Failed { kind: FailureKind::Other, detail: "no records found".to_string() }
}

fn pairs_are_consistent(dns: &DnsResults) -> bool {
    (dns.mx_records_found == Some(true)) == dns.mx_records.is_some()
        && (dns.spf_record_found == Some(true)) == dns.spf_record.is_some()
        && (dns.dmarc_record_found == Some(true)) == dns.dmarc_record.is_some()
        && (dns.ms_txt_found == Some(true)) == dns.ms_txt_record.is_some()
        && (dns.ms_adfs_auth_txt_found == Some(true)) == dns.ms_adfs_auth_txt_record.is_some()
        && (dns.enterpriseregistration_txt_found == Some(true))
            == dns.enterpriseregistration_txt_record.is_some()
        && (dns.enterpriseenrollment_txt_found == Some(true))
            == dns.enterpriseenrollment_txt_record.is_some()
}

#[test]
fn dmarc_policy_is_extracted() {
    assert_eq!(
        extract_dmarc_policy(Some("v=DMARC1; p=reject; rua=mailto:x")),
        Some("reject".to_string())
    );
}

#[test]
fn dmarc_policy_absent_without_policy_segment() {
    assert_eq!(extract_dmarc_policy(Some("v=DMARC1; rua=mailto:x")), None);
    assert_eq!(extract_dmarc_policy(Some("")), None);
    assert_eq!(extract_dmarc_policy(Some("sp=none; adkim=s")), None);
    assert_eq!(extract_dmarc_policy(None), None);
}

#[test]
fn dmarc_policy_edge_cases() {
    assert_eq!(extract_dmarc_policy(Some("p=none")), Some("none".to_string()));
    assert_eq!(extract_dmarc_policy(Some("v=DMARC1;P=Quarantine")), Some("Quarantine".to_string()));
    assert_eq!(extract_dmarc_policy(Some("v=DMARC1;\t p=reject \n;")), Some("reject".to_string()));
    assert_eq!(extract_dmarc_policy(Some("p=;p=reject")), Some("".to_string()));
    assert_eq!(extract_dmarc_policy(Some("a;b;p=x;p=y")), Some("x".to_string()));
    assert_eq!(extract_dmarc_policy(Some("p =reject")), None);
    assert_eq!(extract_dmarc_policy(Some(";;p=a b ;")), Some("a b".to_string()));
    assert_eq!(extract_dmarc_policy(Some("\u{2003}p=é\u{00A0}")), Some("é".to_string()));
}

#[test]
fn first_matching_record_is_found_ignoring_case() {
    let records = vec![
        "google-site-verification=abc".to_string(),
        "V=SPF1 include:spf.protection.outlook.com -all".to_string(),
        "v=spf1 second".to_string(),
    ];
    assert_eq!(
        find_record(&records, "v=spf1"),
        Some("V=SPF1 include:spf.protection.outlook.com -all".to_string())
    );
    assert_eq!(find_record(&records, "v=dmarc1"), None);
    assert_eq!(find_record(&vec![], "v=spf1"), None);
    assert_eq!(find_record(&vec![" v=spf1".to_string(), "v=spf".to_string()], "v=spf1"), None);
}

#[test]
fn lookup_names_are_built_from_the_domain() {
    assert_eq!(autodiscover_name("contoso.com"), "autodiscover.contoso.com");
    assert_eq!(lyncdiscover_name("contoso.com"), "lyncdiscover.contoso.com");
    assert_eq!(sip_name("contoso.com"), "sip.contoso.com");
}

#[test]
fn records_of_a_failed_lookup_are_none() {
    assert_eq!(get_mx_records(&lookup_failed()), Vec::<String>::new());
    assert_eq!(get_txt_records(&lookup_failed()), Vec::<String>::new());
    assert_eq!(
        get_mx_records(&answers(&["mx1.contoso.com.", "mx2.contoso.com."])),
        vec!["mx1.contoso.com.".to_string(), "mx2.contoso.com.".to_string()]
    );
    assert_eq!(get_txt_records(&answers(&["a", "b"])), vec!["a".to_string(), "b".to_string()]);
}

#[test]
fn autodiscover_prefers_the_alias() {
    let alias = answers(&["autodiscover.outlook.com."]);
    let address = answers(&["40.1.2.3"]);
    assert_eq!(
        check_autodiscover(&alias, None),
        LookupStep::Done(Some("autodiscover.outlook.com.".to_string()))
    );
    assert_eq!(
        check_autodiscover(&alias, Some(&address)),
        LookupStep::Done(Some("autodiscover.outlook.com.".to_string()))
    );
}

#[test]
fn autodiscover_falls_back_to_the_address() {
    let address = answers(&["40.1.2.3", "40.1.2.4"]);
    assert_eq!(check_autodiscover(&lookup_failed(), None), LookupStep::Continue);
    assert_eq!(check_autodiscover(&answers(&[]), None), LookupStep::Continue);
    assert_eq!(
        check_autodiscover(&lookup_failed(), Some(&address)),
        LookupStep::Done(Some("40.1.2.3".to_string()))
    );
    assert_eq!(check_autodiscover(&answers(&[]), Some(&lookup_failed())), LookupStep::Done(None));
    assert_eq!(check_autodiscover(&answers(&[]), Some(&answers(&[]))), LookupStep::Done(None));
}

#[test]
fn record_presence_tries_address_then_alias() {
    let hit = answers(&["10.0.0.1"]);
    assert_eq!(check_record_presence(&hit, None), LookupStep::Done(true));
    assert_eq!(check_record_presence(&hit, Some(&lookup_failed())), LookupStep::Done(true));
    assert_eq!(check_record_presence(&lookup_failed(), None), LookupStep::Continue);
    assert_eq!(check_record_presence(&answers(&[]), None), LookupStep::Continue);
    assert_eq!(check_record_presence(&lookup_failed(), Some(&hit)), LookupStep::Done(true));
    assert_eq!(
        check_record_presence(&lookup_failed(), Some(&lookup_failed())),
        LookupStep::Done(false)
    );
    assert_eq!(check_record_presence(&answers(&[]), Some(&answers(&[]))), LookupStep::Done(false));
}

#[test]
fn dns_entry_is_built_from_the_lookups() {
    let mx = answers(&["contoso-com.mail.protection.outlook.com."]);
    let txt = answers(&[
        "MS=ms12345678",
        "v=spf1 include:spf.protection.outlook.com -all",
        "v=DMARC1; p=quarantine; pct=100",
    ]);
    let dns = run_dns_checks(&mx, &txt, Some("autodiscover.outlook.com.".to_string()), true, false);
    assert_eq!(
        dns.mx_records,
        Some(vec!["contoso-com.mail.protection.outlook.com.".to_string()])
    );
    assert_eq!(dns.mx_records_found, Some(true));
    assert_eq!(
        dns.spf_record,
        Some("v=spf1 include:spf.protection.outlook.com -all".to_string())
    );
    assert_eq!(dns.spf_record_found, Some(true));
    assert_eq!(dns.dmarc_record, Some("v=DMARC1; p=quarantine; pct=100".to_string()));
    assert_eq!(dns.dmarc_record_found, Some(true));
    assert_eq!(dns.dmarc_policy, Some("quarantine".to_string()));
    assert_eq!(dns.autodiscover_cname_or_a, Some("autodiscover.outlook.com.".to_string()));
    assert_eq!(dns.lyncdiscover_present, Some(true));
    assert_eq!(dns.sip_cname_or_a_present, Some(false));
    assert_eq!(dns.ms_txt_record, None);
    assert_eq!(dns.ms_txt_found, None);
    assert_eq!(dns.sipfederationtls_tcp_present, None);
    assert_eq!(dns.sip_tls_present, None);
    assert!(pairs_are_consistent(&dns));
}

#[test]
fn failed_lookups_give_a_negative_entry() {
    let dns = run_dns_checks(&lookup_failed(), &lookup_failed(), None, false, false);
    assert_eq!(dns.mx_records, None);
    assert_eq!(dns.mx_records_found, Some(false));
    assert_eq!(dns.spf_record, None);
    assert_eq!(dns.spf_record_found, Some(false));
    assert_eq!(dns.dmarc_record, None);
    assert_eq!(dns.dmarc_record_found, Some(false));
    assert_eq!(dns.dmarc_policy, None);
    assert_eq!(dns.autodiscover_cname_or_a, None);
    assert_eq!(dns.lyncdiscover_present, Some(false));
    assert_eq!(dns.sip_cname_or_a_present, Some(false));
    assert!(pairs_are_consistent(&dns));
}

#[test]
fn one_failed_lookup_leaves_the_others_readable() {
    let txt = answers(&["v=spf1 -all"]);
    let dns = run_dns_checks(&lookup_failed(), &txt, None, false, true);
    assert_eq!(dns.mx_records, None);
    assert_eq!(dns.mx_records_found, Some(false));
    assert_eq!(dns.spf_record, Some("v=spf1 -all".to_string()));
    assert_eq!(dns.spf_record_found, Some(true));
    assert_eq!(dns.sip_cname_or_a_present, Some(true));
    assert!(pairs_are_consistent(&dns));

    let mx = answers(&["mx.contoso.com."]);
    let dns = run_dns_checks(&mx, &lookup_failed(), None, false, false);
    assert_eq!(dns.mx_records, Some(vec!["mx.contoso.com.".to_string()]));
    assert_eq!(dns.spf_record_found, Some(false));
    assert!(pairs_are_consistent(&dns));
}

#[test]
fn empty_answer_sets_are_negative_and_consistent() {
    let dns = run_dns_checks(&answers(&[]), &answers(&[]), None, false, false);
    assert_eq!(dns.mx_records, None);
    assert_eq!(dns.mx_records_found, Some(false));
    assert!(pairs_are_consistent(&dns));
    assert!(pairs_are_consistent(&DnsResults::default()));
}

#[test]
fn dmarc_record_without_policy_is_found_without_one() {
    let txt = answers(&["v=DMARC1; rua=mailto:x"]);
    let dns = run_dns_checks(&lookup_failed(), &txt, None, false, false);
    assert_eq!(dns.dmarc_record, Some("v=DMARC1; rua=mailto:x".to_string()));
    assert_eq!(dns.dmarc_record_found, Some(true));
    assert_eq!(dns.dmarc_policy, None);
}
