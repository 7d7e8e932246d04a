//! The identity provider of a tenant: the endpoints it publishes, and
//! whether its directory is synchronised with one on premises.

use crate::config::CloudConfig;
use crate::error::ReconError;
use crate::models::{AadConnectStatus, AzureAdConfig};
use crate::recon::probe::{
    is_redirection, is_success, status_is_redirection, status_is_success, FailureKind,
    ProbeOutcome,
};
use crate::recon::tenant::body_or_note;
use vstd::prelude::*;
use vstd::string::*;

verus! {

/// The fields that are read from the OpenID configuration document.
#[derive(Debug, Clone)]
pub struct OpenIdConfigResponse {
    pub issuer: Option<String>,
    pub authorization_endpoint: Option<String>,
    pub token_endpoint: Option<String>,
    pub jwks_uri: Option<String>,
    pub tenant_region_scope: Option<String>,
}

#[verifier::external_type_specification]
#[verifier::external_body]
pub struct ExParseError(url::ParseError);

/// The URL that `reference` resolves to against the absolute URL `base`,
/// as text; nothing where `base` is no absolute URL or `reference` does
/// not resolve.
pub uninterp spec fn url_join(base: Seq<char>, reference: Seq<char>) -> Option<Seq<char>>;

/// `url::Url::parse` on `base`, then `url::Url::join` with `reference` on
/// what was parsed. The result is the crate's: the joined URL in its
/// serialised form, or the error of whichever of the two calls failed.
#[verifier::external_body]
fn join_url(base: &str, reference: &str) -> (r: Result<String, url::ParseError>)
    ensures
        match r {
            Ok(joined) => url_join(base@, reference@) == Some(joined@),
            Err(_) => url_join(base@, reference@) is None,
        },
{
    url::Url::parse(base)?.join(reference).map(String::from)
}

/// What the answer of the seamless sign-on endpoint says of the
/// directory. An answer with a status from 200 to 399 shows a hybrid
/// directory, any other answer a directory in the cloud only. A request
/// that timed out, could not connect or could not be sent shows that the
/// endpoint is not set up; any other failure says nothing.
pub open spec fn connect_status(outcome: ProbeOutcome) -> AadConnectStatus {
    match outcome {
        ProbeOutcome::Http { status, body } => if status_is_success(status)
            || status_is_redirection(status) {
            AadConnectStatus::Hybrid
        } else {
            AadConnectStatus::CloudOnly
        },
        ProbeOutcome::Failed { kind, detail } => if kind is Other {
            AadConnectStatus::Unknown
        } else {
            AadConnectStatus::CloudOnly
        },
        ProbeOutcome::Dns { answers } => AadConnectStatus::Unknown,
    }
}

/// The status of the directory: unknown where the environment has no
/// seamless sign-on endpoint or no probe was made, else what the probe's
/// outcome says.
pub open spec fn connect_status_for(config: CloudConfig, outcome: Option<&ProbeOutcome>)
    -> AadConnectStatus {
    if config.azure_ad_connect_check_url@.len() == 0 {
        AadConnectStatus::Unknown
    } else {
        match outcome {
            Some(o) => connect_status(*o),
            None => AadConnectStatus::Unknown,
        }
    }
}

/// The address of the OpenID configuration document: its path resolved
/// against the login endpoint of the environment.
pub fn openid_config_url(config: &CloudConfig) -> (r: Result<String, ReconError>)
    ensures
        match url_join(config.login_endpoint@, config.openid_config_endpoint@) {
            Some(address) => r matches Ok(url) && url@ == address,
            None => r matches Err(ReconError::UrlParse(_)),
        },
{
    match join_url(config.login_endpoint.as_str(), config.openid_config_endpoint.as_str()) {
        Ok(url) => Ok(url),
        Err(e) => Err(ReconError::UrlParse(e.to_string())),
    }
}

/// Reads the answer to the request for the OpenID configuration.
/// `document` is what decoding the body gave. Only an answer with a status
/// from 200 to 299 is read for its content; any other status, and a
/// request that got no answer, is the failure of this probe.
pub fn get_azure_ad_config(outcome: &ProbeOutcome, document: Result<OpenIdConfigResponse, String>)
    -> (r: Result<AzureAdConfig, ReconError>)
    ensures
        r is Ok <==> (*outcome matches ProbeOutcome::Http { status, body } && status_is_success(
            status,
        ) && document is Ok),
        match *outcome {
            ProbeOutcome::Http { status, body } => {
                if !status_is_success(status) {
                    r matches Err(
                        ReconError::UnexpectedApiResponse { service, status: got, body: text },
                    ) && service@ == "OpenID Configuration"@ && got == status && text@
                        == body_or_note(body)
                } else {
                    match document {
                        Err(why) => r == Err::<AzureAdConfig, ReconError>(
                            ReconError::JsonParse(why),
                        ),
                        Ok(found) => r == Ok::<AzureAdConfig, ReconError>(
                            AzureAdConfig {
                                issuer: found.issuer,
                                authorization_endpoint: found.authorization_endpoint,
                                token_endpoint: found.token_endpoint,
                                jwks_uri: found.jwks_uri,
                                tenant_region_scope: found.tenant_region_scope,
                            },
                        ),
                    }
                }
            },
            ProbeOutcome::Failed { kind, detail } => r == Err::<AzureAdConfig, ReconError>(
                ReconError::Network(detail),
            ),
            ProbeOutcome::Dns { answers } => r matches Err(ReconError::MissingData(_)),
        },
{
    match outcome {
        ProbeOutcome::Failed { kind, detail } => Err(ReconError::Network(detail.clone())),
        ProbeOutcome::Dns { answers } => Err(
            ReconError::MissingData(
                String::from_str("the OpenID configuration request got no HTTP answer"),
            ),
        ),
        ProbeOutcome::Http { status, body } => {
            if !is_success(*status) {
                let text = match body {
                    Some(text) => text.clone(),
                    None => String::from_str("<failed to read body>"),
                };
                return Err(
                    ReconError::UnexpectedApiResponse {
                        service: String::from_str("OpenID Configuration"),
                        status: *status,
                        body: text,
                    },
                );
            }
            match document {
                Err(why) => Err(ReconError::JsonParse(why)),
                Ok(found) => Ok(
                    AzureAdConfig {
                        issuer: found.issuer,
                        authorization_endpoint: found.authorization_endpoint,
                        token_endpoint: found.token_endpoint,
                        jwks_uri: found.jwks_uri,
                        tenant_region_scope: found.tenant_region_scope,
                    },
                ),
            }
        },
    }
}

/// The address of the seamless sign-on check: none where the environment
/// has none, and then no request is to be made.
pub fn aad_connect_url(config: &CloudConfig) -> (r: Option<String>)
    ensures
        config.azure_ad_connect_check_url@.len() == 0 ==> r is None,
        config.azure_ad_connect_check_url@.len() > 0 ==> r == Some(
            config.azure_ad_connect_check_url,
        ),
{
    if config.azure_ad_connect_check_url.as_str().is_empty() {
        None
    } else {
        Some(config.azure_ad_connect_check_url.clone())
    }
}

/// Checks the synchronisation status of the directory from the outcome of
/// the probe of the seamless sign-on endpoint; `outcome` is absent where
/// no request was made.
pub fn check_aad_connect_status(config: &CloudConfig, outcome: Option<&ProbeOutcome>) -> (r:
    AadConnectStatus)
    ensures
        r == connect_status_for(*config, outcome),
{
    if config.azure_ad_connect_check_url.as_str().is_empty() {
        return AadConnectStatus::Unknown;
    }
    match outcome {
        None => AadConnectStatus::Unknown,
        Some(ProbeOutcome::Http { status, body }) => {
            if is_success(*status) || is_redirection(*status) {
                AadConnectStatus::Hybrid
            } else {
                AadConnectStatus::CloudOnly
            }
        },
        Some(ProbeOutcome::Failed { kind, detail }) => {
            match kind {
                FailureKind::Other => AadConnectStatus::Unknown,
                _ => AadConnectStatus::CloudOnly,
            }
        },
        Some(ProbeOutcome::Dns { answers }) => AadConnectStatus::Unknown,
    }
}

} // verus!
