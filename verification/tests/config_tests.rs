use msft_recon_rs::cli::CloudTarget;
use msft_recon_rs::config::{get_timeout_duration, load_config, read_config, select_cloud_config};
use msft_recon_rs::error::ReconError;
use std::time::Duration;

const DEFAULT_TOML: &str = r#"
default_user_agent = "MSFTRecon-RS/0.1"
request_timeout_seconds = 30

[clouds.commercial]
login_endpoint = "https://login.microsoftonline.com"
login_microsoftonline_host = "login.microsoftonline.com"
user_realm_endpoint = "https://login.microsoftonline.com/getuserrealm.srf"
openid_config_endpoint = "/common/v2.0/.well-known/openid-configuration"
azure_ad_connect_check_url = "https://autologon.microsoftazuread-sso.com/"
sharepoint_host_suffix = ".sharepoint.com"
cdn_host_suffix = ".azureedge.net"
ews_endpoint_host = "outlook.office365.com"
activesync_endpoint_host = "outlook.office365.com"
app_service_host_suffix = ".azurewebsites.net"
storage_account_host_suffix = ".blob.core.windows.net"

[clouds.gov]
login_endpoint = "https://login.microsoftonline.us"
login_microsoftonline_host = "login.microsoftonline.us"
user_realm_endpoint = "https://login.microsoftonline.us/getuserrealm.srf"
openid_config_endpoint = "/common/v2.0/.well-known/openid-configuration"
azure_ad_connect_check_url = "https://autologon.microsoftazuread-sso.us/"
sharepoint_host_suffix = ".sharepoint.us"
cdn_host_suffix = ".azureedge.us"
ews_endpoint_host = "outlook.office365.us"
activesync_endpoint_host = "outlook.office365.us"
app_service_host_suffix = ".azurewebsites.us"
storage_account_host_suffix = ".blob.core.usgovcloudapi.net"

[clouds.cn]
login_endpoint = "https://login.partner.microsoftonline.cn"
login_microsoftonline_host = "login.partner.microsoftonline.cn"
user_realm_endpoint = "https://login.partner.microsoftonline.cn/getuserrealm.srf"
openid_config_endpoint = "/common/v2.0/.well-known/openid-configuration"
azure_ad_connect_check_url = ""
sharepoint_host_suffix = ".sharepoint.cn"
cdn_host_suffix = ".azureedge.cn"
ews_endpoint_host = "partner.outlook.cn"
activesync_endpoint_host = "partner.outlook.cn"
app_service_host_suffix = ".chinacloudsites.cn"
storage_account_host_suffix = ".blob.core.chinacloudapi.cn"
"#;

#[test]
fn test_load_config_commercial() {
    let config = load_config(DEFAULT_TOML).expect("Failed to load config");
    assert_eq!(config.clouds.commercial.login_endpoint, "https://login.microsoftonline.com");
    assert_eq!(config.clouds.commercial.sharepoint_host_suffix, ".sharepoint.com");
    assert_eq!(config.clouds.commercial.cdn_host_suffix, ".azureedge.net");
}

#[test]
fn test_load_config_gov() {
    let config = load_config(DEFAULT_TOML).expect("Failed to load config");
    assert_eq!(config.clouds.gov.login_endpoint, "https://login.microsoftonline.us");
    assert_eq!(config.clouds.gov.sharepoint_host_suffix, ".sharepoint.us");
    assert_eq!(config.clouds.gov.cdn_host_suffix, ".azureedge.us");
}

#[test]
fn test_load_config_china() {
    let config = load_config(DEFAULT_TOML).expect("Failed to load config");
    assert_eq!(config.clouds.cn.login_endpoint, "https://login.partner.microsoftonline.cn");
    assert_eq!(config.clouds.cn.sharepoint_host_suffix, ".sharepoint.cn");
    assert_eq!(config.clouds.cn.cdn_host_suffix, ".azureedge.cn");
}

#[test]
fn load_config_reads_every_field() {
    let config = load_config(DEFAULT_TOML).expect("Failed to load config");
    assert_eq!(config.default_user_agent, "MSFTRecon-RS/0.1");
    assert_eq!(config.request_timeout_seconds, Some(30));
    let gov = &config.clouds.gov;
    assert_eq!(gov.login_microsoftonline_host, "login.microsoftonline.us");
    assert_eq!(gov.user_realm_endpoint, "https://login.microsoftonline.us/getuserrealm.srf");
    assert_eq!(gov.openid_config_endpoint, "/common/v2.0/.well-known/openid-configuration");
    assert_eq!(gov.azure_ad_connect_check_url, "https://autologon.microsoftazuread-sso.us/");
    assert_eq!(gov.ews_endpoint_host, "outlook.office365.us");
    assert_eq!(gov.activesync_endpoint_host, "outlook.office365.us");
    assert_eq!(gov.app_service_host_suffix, ".azurewebsites.us");
    assert_eq!(gov.storage_account_host_suffix, ".blob.core.usgovcloudapi.net");
    assert_eq!(config.clouds.cn.azure_ad_connect_check_url, "");
}

#[test]
fn load_config_without_timeout() {
    let text = DEFAULT_TOML.replace("request_timeout_seconds = 30\n", "");
    let config = load_config(&text).expect("Failed to load config");
    assert_eq!(config.request_timeout_seconds, None);
    assert_eq!(get_timeout_duration(&config), Duration::from_secs(0));
}

#[test]
fn load_config_refuses_missing_field() {
    let text = DEFAULT_TOML.replace("cdn_host_suffix = \".azureedge.us\"\n", "");
    assert!(matches!(load_config(&text), Err(ReconError::Config(_))));
    let text = DEFAULT_TOML.replace("default_user_agent = \"MSFTRecon-RS/0.1\"\n", "");
    assert!(matches!(load_config(&text), Err(ReconError::Config(_))));
}

#[test]
fn load_config_refuses_malformed_text() {
    assert!(matches!(load_config("clouds = ["), Err(ReconError::Config(_))));
    assert!(matches!(load_config(""), Err(ReconError::Config(_))));
    let text = DEFAULT_TOML.replace("request_timeout_seconds = 30", "request_timeout_seconds = \"soon\"");
    assert!(matches!(load_config(&text), Err(ReconError::Config(_))));
}

#[test]
fn timeout_duration_is_the_configured_seconds() {
    let config = load_config(DEFAULT_TOML).expect("Failed to load config");
    assert_eq!(get_timeout_duration(&config), Duration::from_secs(30));
}

#[test]
fn government_targets_share_one_table() {
    let config = load_config(DEFAULT_TOML).expect("Failed to load config");
    let commercial = select_cloud_config(&config, &CloudTarget::Commercial).unwrap();
    assert_eq!(commercial.login_endpoint, "https://login.microsoftonline.com");
    for target in [CloudTarget::Gcc, CloudTarget::GccHigh, CloudTarget::Dod] {
        let table = select_cloud_config(&config, &target).unwrap();
        assert_eq!(table.login_endpoint, "https://login.microsoftonline.us");
        assert_eq!(table.storage_account_host_suffix, ".blob.core.usgovcloudapi.net");
    }
}

#[test]
fn keys_are_read_as_they_are_written() {
    let text = DEFAULT_TOML.replace("default_user_agent =", "Default_User_Agent =");
    assert!(matches!(load_config(&text), Err(ReconError::Config(_))));
    let text = format!("Default_User_Agent = \"other\"\n{}", DEFAULT_TOML.trim_start());
    for _ in 0..20 {
        let config = load_config(&text).expect("Failed to load config");
        assert_eq!(config.default_user_agent, "MSFTRecon-RS/0.1");
    }
}

#[test]
fn keys_that_look_like_paths_are_plain_keys() {
    let text = format!("\"a[-1]\" = 1\n\"clouds.gov\" = 2\n{}", DEFAULT_TOML.trim_start());
    let config = load_config(&text).expect("Failed to load config");
    assert_eq!(config.clouds.gov.login_endpoint, "https://login.microsoftonline.us");
    assert!(matches!(load_config("\"a[-1]\" = 1"), Err(ReconError::Config(_))));
}

#[test]
fn settings_that_are_no_text_are_refused_or_read_as_text() {
    let text = DEFAULT_TOML.replace("cdn_host_suffix = \".azureedge.cn\"", "cdn_host_suffix = 7");
    let config = load_config(&text).expect("Failed to load config");
    assert_eq!(config.clouds.cn.cdn_host_suffix, "7");
    let text = DEFAULT_TOML.replace("cdn_host_suffix = \".azureedge.cn\"", "cdn_host_suffix = []");
    assert!(matches!(load_config(&text), Err(ReconError::Config(_))));
    let text = DEFAULT_TOML.replace("[clouds.cn]", "[clouds.china]");
    assert!(matches!(load_config(&text), Err(ReconError::Config(_))));
    let text = DEFAULT_TOML.replace("request_timeout_seconds = 30", "request_timeout_seconds = -1");
    assert!(matches!(load_config(&text), Err(ReconError::Config(_))));
}

#[test]
fn loading_twice_gives_the_same_settings() {
    let first = load_config(DEFAULT_TOML).expect("Failed to load config");
    let second = load_config(DEFAULT_TOML).expect("Failed to load config");
    assert_eq!(format!("{:?}", first), format!("{:?}", second));
}

#[test]
fn settings_are_read_from_a_parsed_document() {
    let empty: config::Map<String, config::Value> = config::Map::new();
    let document = config::Value::new(None, empty);
    assert!(matches!(read_config(&document), Err(ReconError::Config(_))));
    assert!(matches!(read_config(&config::Value::new(None, "text")), Err(ReconError::Config(_))));
    let mut cloud: config::Map<String, config::Value> = config::Map::new();
    for field in [
        "login_endpoint",
        "login_microsoftonline_host",
        "user_realm_endpoint",
        "openid_config_endpoint",
        "azure_ad_connect_check_url",
        "sharepoint_host_suffix",
        "cdn_host_suffix",
        "ews_endpoint_host",
        "activesync_endpoint_host",
        "app_service_host_suffix",
        "storage_account_host_suffix",
    ] {
        cloud.insert(field.to_string(), config::Value::new(None, format!("<{}>", field)));
    }
    let mut clouds: config::Map<String, config::Value> = config::Map::new();
    for name in ["commercial", "gov", "cn"] {
        clouds.insert(name.to_string(), config::Value::new(None, cloud.clone()));
    }
    let mut root: config::Map<String, config::Value> = config::Map::new();
    root.insert("clouds".to_string(), config::Value::new(None, clouds));
    root.insert("default_user_agent".to_string(), config::Value::new(None, "agent"));
    let settings = read_config(&config::Value::new(None, root.clone())).expect("complete");
    assert_eq!(settings.default_user_agent, "agent");
    assert_eq!(settings.request_timeout_seconds, None);
    assert_eq!(settings.clouds.gov.cdn_host_suffix, "<cdn_host_suffix>");
    assert_eq!(get_timeout_duration(&settings), Duration::new(0, 0));
    root.insert("request_timeout_seconds".to_string(), config::Value::new(None, 12u64));
    let settings = read_config(&config::Value::new(None, root)).expect("complete");
    assert_eq!(settings.request_timeout_seconds, Some(12));
    assert_eq!(get_timeout_duration(&settings), Duration::new(12, 0));
}
