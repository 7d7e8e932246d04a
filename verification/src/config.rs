//! The endpoint tables of the cloud environments and the run's settings.

use crate::cli::CloudTarget;
use crate::error::ReconError;
use std::time::Duration;
use vstd::prelude::*;
use vstd::string::*;

verus! {

/// The endpoints and host suffixes of one cloud environment.
#[derive(Debug, Clone)]
pub struct CloudConfig {
    pub login_endpoint: String,
    pub login_microsoftonline_host: String,
    pub user_realm_endpoint: String,
    /// Path of the OpenID configuration, relative to `login_endpoint`.
    pub openid_config_endpoint: String,
    /// Empty where the environment has no seamless sign-on check.
    pub azure_ad_connect_check_url: String,
    pub sharepoint_host_suffix: String,
    /// Empty where the environment has no content delivery network.
    pub cdn_host_suffix: String,
    pub ews_endpoint_host: String,
    pub activesync_endpoint_host: String,
    pub app_service_host_suffix: String,
    pub storage_account_host_suffix: String,
}

/// The settings of a run.
#[derive(Debug)]
pub struct AppConfig {
    pub clouds: Clouds,
    pub request_timeout_seconds: Option<u64>,
    pub default_user_agent: String,
}

/// The endpoint tables, one for each environment.
#[derive(Debug)]
pub struct Clouds {
    pub commercial: CloudConfig,
    pub gov: CloudConfig,
    pub cn: CloudConfig,
}

#[verifier::external_type_specification]
#[verifier::external_body]
pub struct ExConfigError(::config::ConfigError);

#[verifier::external_type_specification]
#[verifier::external_body]
pub struct ExValue(::config::Value);

/// What a document holds, by the path of table keys that leads to a value:
/// what the value reads as text, and what it reads as an unsigned number.
/// The empty path leads to the document itself.
pub type Held = Map<Seq<Seq<char>>, (Option<Seq<char>>, Option<u64>)>;

/// What a parsed value holds below it, by the path of exact table keys.
pub uninterp spec fn held(document: ::config::Value) -> Map<
    Seq<Seq<char>>,
    (Option<Seq<char>>, Option<u64>),
>;

/// What a TOML text holds, by the path of exact table keys; nothing where
/// the text is not well-formed TOML.
pub uninterp spec fn toml_document(source: Seq<char>) -> Option<
    Map<Seq<Seq<char>>, (Option<Seq<char>>, Option<u64>)>,
>;

/// The number of whole seconds that a `Duration` spans.
pub uninterp spec fn duration_seconds(d: Duration) -> u64;

/// The part of a `Duration` beyond its whole seconds, in nanoseconds.
pub uninterp spec fn duration_subsec_nanos(d: Duration) -> u32;

/// What stands in `held` under the key `key`, with that key taken off the
/// front of each path.
pub open spec fn below(held: Held, key: Seq<char>) -> Held {
    Map::new(|path: Seq<Seq<char>>| held.contains_key(seq![key] + path), |path: Seq<Seq<char>>|
        held[seq![key] + path])
}

/// The TOML parser of the `config` crate, `Format::parse` of
/// `FileFormat::Toml`, with the table it gives wrapped as one value. The
/// text is parsed as it stands: no key is folded, split or merged. An
/// error of the parser comes back as its text.
#[verifier::external_body]
fn parse_toml(source: &str) -> (r: Result<::config::Value, String>)
    ensures
        match r {
            Ok(document) => toml_document(source@) == Some(held(document)),
            Err(_) => toml_document(source@) is None,
        },
{
    match ::config::Format::parse(&::config::FileFormat::Toml, None, source) {
        Ok(table) => Ok(::config::Value::new(None, table)),
        Err(e) => Err(e.to_string()),
    }
}

/// `Value::into_table` of the `config` crate, and the entry of that table
/// under exactly `key`. There is no entry where the value is no table or
/// the table lacks the key, and then nothing stands below that key.
#[verifier::external_body]
fn entry(table: &::config::Value, key: &str) -> (r: Option<::config::Value>)
    ensures
        match r {
            Some(child) => held(*table).contains_key(seq![key@]) && held(child) == below(
                held(*table),
                key@,
            ),
            None => forall|rest: Seq<Seq<char>>|
                !held(*table).contains_key(#[trigger] (seq![key@] + rest)),
        },
{
    match table.clone().into_table() {
        Ok(entries) => entries.get(key).cloned(),
        Err(_) => None,
    }
}

/// `Value::into_string` of the `config` crate: the value as text, or the
/// crate's error where it is a table, an array or nothing.
#[verifier::external_body]
fn as_text(value: &::config::Value) -> (r: Result<String, ::config::ConfigError>)
    ensures
        match r {
            Ok(text) => held(*value)[Seq::empty()].0 == Some(text@),
            Err(_) => held(*value)[Seq::empty()].0 is None,
        },
{
    value.clone().into_string()
}

/// `Value::into_uint` of the `config` crate: the value as an unsigned
/// number, or the crate's error where it does not read as one.
#[verifier::external_body]
fn as_uint(value: &::config::Value) -> (r: Result<u64, ::config::ConfigError>)
    ensures
        match r {
            Ok(number) => held(*value)[Seq::empty()].1 == Some(number),
            Err(_) => held(*value)[Seq::empty()].1 is None,
        },
{
    value.clone().into_uint()
}

/// `Duration::from_secs`: a duration of `seconds` whole seconds and
/// nothing beyond them.
#[verifier::external_body]
pub(crate) fn duration_from_secs(seconds: u64) -> (d: Duration)
    ensures
        duration_seconds(d) == seconds,
        duration_subsec_nanos(d) == 0,
{
    Duration::from_secs(seconds)
}

/// The text that stands in `held` at `path`: none where nothing stands
/// there, or what stands there does not read as text.
pub open spec fn text_at(held: Held, path: Seq<Seq<char>>) -> Option<Seq<char>> {
    if held.contains_key(path) {
        held[path].0
    } else {
        None
    }
}

/// The optional number that stands in `held` at `path`: `Some(None)` where
/// nothing stands there, `None` where what stands there does not read as
/// an unsigned number.
pub open spec fn uint_at(held: Held, path: Seq<Seq<char>>) -> Option<Option<u64>> {
    if !held.contains_key(path) {
        Some(None)
    } else {
        match held[path].1 {
            Some(number) => Some(Some(number)),
            None => None,
        }
    }
}

/// The path of `field` in the table of the environment `cloud`.
pub open spec fn cloud_path(cloud: Seq<char>, field: Seq<char>) -> Seq<Seq<char>> {
    seq!["clouds"@, cloud, field]
}

/// The text that `held` gives for `field` of the environment `cloud`.
pub open spec fn cloud_setting(held: Held, cloud: Seq<char>, field: Seq<char>) -> Option<
    Seq<char>,
> {
    text_at(held, cloud_path(cloud, field))
}

/// `held` gives every field of the environment `cloud`.
pub open spec fn cloud_is_complete(held: Held, cloud: Seq<char>) -> bool {
    &&& cloud_setting(held, cloud, "login_endpoint"@) is Some
    &&& cloud_setting(held, cloud, "login_microsoftonline_host"@) is Some
    &&& cloud_setting(held, cloud, "user_realm_endpoint"@) is Some
    &&& cloud_setting(held, cloud, "openid_config_endpoint"@) is Some
    &&& cloud_setting(held, cloud, "azure_ad_connect_check_url"@) is Some
    &&& cloud_setting(held, cloud, "sharepoint_host_suffix"@) is Some
    &&& cloud_setting(held, cloud, "cdn_host_suffix"@) is Some
    &&& cloud_setting(held, cloud, "ews_endpoint_host"@) is Some
    &&& cloud_setting(held, cloud, "activesync_endpoint_host"@) is Some
    &&& cloud_setting(held, cloud, "app_service_host_suffix"@) is Some
    &&& cloud_setting(held, cloud, "storage_account_host_suffix"@) is Some
}

/// `table` holds, field by field, what `held` gives for the environment
/// `cloud`.
pub open spec fn cloud_matches(table: CloudConfig, held: Held, cloud: Seq<char>) -> bool {
    &&& cloud_setting(held, cloud, "login_endpoint"@) == Some(table.login_endpoint@)
    &&& cloud_setting(held, cloud, "login_microsoftonline_host"@) == Some(
        table.login_microsoftonline_host@,
    )
    &&& cloud_setting(held, cloud, "user_realm_endpoint"@) == Some(table.user_realm_endpoint@)
    &&& cloud_setting(held, cloud, "openid_config_endpoint"@) == Some(
        table.openid_config_endpoint@,
    )
    &&& cloud_setting(held, cloud, "azure_ad_connect_check_url"@) == Some(
        table.azure_ad_connect_check_url@,
    )
    &&& cloud_setting(held, cloud, "sharepoint_host_suffix"@) == Some(
        table.sharepoint_host_suffix@,
    )
    &&& cloud_setting(held, cloud, "cdn_host_suffix"@) == Some(table.cdn_host_suffix@)
    &&& cloud_setting(held, cloud, "ews_endpoint_host"@) == Some(table.ews_endpoint_host@)
    &&& cloud_setting(held, cloud, "activesync_endpoint_host"@) == Some(
        table.activesync_endpoint_host@,
    )
    &&& cloud_setting(held, cloud, "app_service_host_suffix"@) == Some(
        table.app_service_host_suffix@,
    )
    &&& cloud_setting(held, cloud, "storage_account_host_suffix"@) == Some(
        table.storage_account_host_suffix@,
    )
}

/// `held` gives all that a run needs: the three environments, a user
/// agent, and a timeout that is a number where it is given.
pub open spec fn config_is_complete(held: Held) -> bool {
    &&& cloud_is_complete(held, "commercial"@)
    &&& cloud_is_complete(held, "gov"@)
    &&& cloud_is_complete(held, "cn"@)
    &&& uint_at(held, seq!["request_timeout_seconds"@]) is Some
    &&& text_at(held, seq!["default_user_agent"@]) is Some
}

/// `settings` holds, field by field, what `held` gives.
pub open spec fn config_matches(settings: AppConfig, held: Held) -> bool {
    &&& cloud_matches(settings.clouds.commercial, held, "commercial"@)
    &&& cloud_matches(settings.clouds.gov, held, "gov"@)
    &&& cloud_matches(settings.clouds.cn, held, "cn"@)
    &&& uint_at(held, seq!["request_timeout_seconds"@]) == Some(settings.request_timeout_seconds)
    &&& text_at(held, seq!["default_user_agent"@]) == Some(settings.default_user_agent@)
}

/// The timeout of a run in seconds: zero where none is configured.
pub open spec fn timeout_seconds(app_config: AppConfig) -> u64 {
    match app_config.request_timeout_seconds {
        Some(s) => s,
        None => 0,
    }
}

fn missing_field(key: &str) -> (r: ReconError)
    ensures
        r is Config,
{
    let mut message = String::from_str("missing field `");
    message.append(key);
    message.append("`");
    ReconError::Config(message)
}

fn text_field(table: &::config::Value, key: &str) -> (r: Result<String, ReconError>)
    ensures
        match r {
            Ok(text) => text_at(held(*table), seq![key@]) == Some(text@),
            Err(e) => e is Config && text_at(held(*table), seq![key@]) is None,
        },
{
    assert(seq![key@] + Seq::<Seq<char>>::empty() =~= seq![key@]);
    match entry(table, key) {
        None => Err(missing_field(key)),
        Some(value) => match as_text(&value) {
            Ok(text) => Ok(text),
            Err(e) => Err(ReconError::Config(e.to_string())),
        },
    }
}

fn cloud_fields(table: &::config::Value, cloud: &str, outer: Ghost<Held>) -> (r: Result<
    CloudConfig,
    ReconError,
>)
    requires
        forall|field: Seq<char>|
            text_at(held(*table), seq![field]) == #[trigger] cloud_setting(outer@, cloud@, field),
    ensures
        match r {
            Ok(found) => cloud_matches(found, outer@, cloud@),
            Err(e) => e is Config && !cloud_is_complete(outer@, cloud@),
        },
{
    let login_endpoint = text_field(table, "login_endpoint")?;
    let login_microsoftonline_host = text_field(table, "login_microsoftonline_host")?;
    let user_realm_endpoint = text_field(table, "user_realm_endpoint")?;
    let openid_config_endpoint = text_field(table, "openid_config_endpoint")?;
    let azure_ad_connect_check_url = text_field(table, "azure_ad_connect_check_url")?;
    let sharepoint_host_suffix = text_field(table, "sharepoint_host_suffix")?;
    let cdn_host_suffix = text_field(table, "cdn_host_suffix")?;
    let ews_endpoint_host = text_field(table, "ews_endpoint_host")?;
    let activesync_endpoint_host = text_field(table, "activesync_endpoint_host")?;
    let app_service_host_suffix = text_field(table, "app_service_host_suffix")?;
    let storage_account_host_suffix = text_field(table, "storage_account_host_suffix")?;
    Ok(
        CloudConfig {
            login_endpoint,
            login_microsoftonline_host,
            user_realm_endpoint,
            openid_config_endpoint,
            azure_ad_connect_check_url,
            sharepoint_host_suffix,
            cdn_host_suffix,
            ews_endpoint_host,
            activesync_endpoint_host,
            app_service_host_suffix,
            storage_account_host_suffix,
        },
    )
}

/// Reads the table of the environment `cloud` from a parsed document.
fn read_cloud(document: &::config::Value, cloud: &str) -> (r: Result<CloudConfig, ReconError>)
    ensures
        match r {
            Ok(found) => cloud_matches(found, held(*document), cloud@),
            Err(e) => e is Config && !cloud_is_complete(held(*document), cloud@),
        },
{
    let ghost all = held(*document);
    proof {
        assert forall|field: Seq<char>| #[trigger]
            cloud_path(cloud@, field) == seq!["clouds"@] + (seq![cloud@] + seq![field]) by {
            assert(cloud_path(cloud@, field) =~= seq!["clouds"@] + (seq![cloud@] + seq![field]));
        }
    }
    let clouds = match entry(document, "clouds") {
        Some(clouds) => clouds,
        None => {
            assert(cloud_setting(all, cloud@, "login_endpoint"@) is None);
            return Err(missing_field("clouds"));
        },
    };
    let table = match entry(&clouds, cloud) {
        Some(table) => table,
        None => {
            assert(!held(clouds).contains_key(seq![cloud@] + seq!["login_endpoint"@]));
            assert(cloud_setting(all, cloud@, "login_endpoint"@) is None);
            return Err(missing_field(cloud));
        },
    };
    proof {
        assert forall|field: Seq<char>|
            text_at(held(table), seq![field]) == #[trigger] cloud_setting(all, cloud@, field) by {
            assert(cloud_path(cloud@, field) == seq!["clouds"@] + (seq![cloud@] + seq![field]));
        }
    }
    cloud_fields(&table, cloud, Ghost(all))
}

/// Reads the settings of a run from a parsed document. Every field of the
/// three environments and the user agent must be there; the timeout may be
/// left out.
pub fn read_config(document: &::config::Value) -> (r: Result<AppConfig, ReconError>)
    ensures
        r is Ok <==> config_is_complete(held(*document)),
        match r {
            Ok(settings) => config_matches(settings, held(*document)),
            Err(e) => e is Config,
        },
{
    let commercial = read_cloud(document, "commercial")?;
    let gov = read_cloud(document, "gov")?;
    let cn = read_cloud(document, "cn")?;
    assert(seq!["request_timeout_seconds"@] + Seq::<Seq<char>>::empty()
        =~= seq!["request_timeout_seconds"@]);
    let request_timeout_seconds = match entry(document, "request_timeout_seconds") {
        None => None,
        Some(value) => match as_uint(&value) {
            Ok(seconds) => Some(seconds),
            Err(e) => {
                return Err(ReconError::Config(e.to_string()));
            },
        },
    };
    let default_user_agent = text_field(document, "default_user_agent")?;
    Ok(AppConfig { clouds: Clouds { commercial, gov, cn }, request_timeout_seconds, default_user_agent })
}

/// Reads the settings of a run from the TOML text of its configuration
/// file. Keys are read as they are written. A text that is not well-formed
/// TOML, or lacks a setting, is refused as a fault of the configuration.
pub fn load_config(source: &str) -> (r: Result<AppConfig, ReconError>)
    ensures
        match toml_document(source@) {
            None => r matches Err(ReconError::Config(_)),
            Some(held) => {
                &&& r is Ok <==> config_is_complete(held)
                &&& r matches Ok(settings) ==> config_matches(settings, held)
                &&& r matches Err(e) ==> e is Config
            },
        },
{
    match parse_toml(source) {
        Ok(document) => read_config(&document),
        Err(why) => Err(ReconError::Config(why)),
    }
}

/// The endpoint table for the environment chosen on the command line. The
/// three government environments share one table.
pub fn select_cloud_config<'a>(app_config: &'a AppConfig, cloud_target: &CloudTarget) -> (r: Result<
    &'a CloudConfig,
    ReconError,
>)
    ensures
        r is Ok,
        *cloud_target is Commercial ==> r == Ok::<&CloudConfig, ReconError>(
            &app_config.clouds.commercial,
        ),
        !(*cloud_target is Commercial) ==> r == Ok::<&CloudConfig, ReconError>(
            &app_config.clouds.gov,
        ),
{
    match cloud_target {
        CloudTarget::Commercial => Ok(&app_config.clouds.commercial),
        CloudTarget::Gcc => Ok(&app_config.clouds.gov),
        CloudTarget::GccHigh => Ok(&app_config.clouds.gov),
        CloudTarget::Dod => Ok(&app_config.clouds.gov),
    }
}

/// The configured request timeout: zero seconds where none is configured.
pub fn get_timeout_duration(app_config: &AppConfig) -> (d: Duration)
    ensures
        duration_seconds(d) == timeout_seconds(*app_config),
        duration_subsec_nanos(d) == 0,
{
    match app_config.request_timeout_seconds {
        Some(s) => duration_from_secs(s),
        None => duration_from_secs(0),
    }
}

} // verus!
