//! The hosting services that may answer under names derived from a
//! domain: an application host, a storage account, a delivery endpoint.

use crate::config::CloudConfig;
use crate::models::AzureServiceResults;
use crate::recon::m365::get_tenant_name;
use crate::recon::probe::{evaluate, verdict, ProbeKind, ProbeOutcome};
use crate::text::first_segment;
use vstd::prelude::*;
use vstd::string::*;

verus! {

/// What the search for a storage account does next.
#[derive(Debug, Clone, PartialEq)]
pub enum StorageStep {
    /// Probe this address and hand in its outcome with the earlier ones.
    Probe(String),
    /// The account at this address exists; no further name is probed.
    Found(String),
    /// Every candidate name was probed and none exists.
    NotFound,
}

/// The address of a host whose name is `name` followed by `suffix`.
pub open spec fn host_address(name: Seq<char>, suffix: Seq<char>) -> Seq<char> {
    "https://"@ + name + suffix
}

/// The address of the application host that a domain suggests.
pub open spec fn app_service_address(domain: Seq<char>, config: CloudConfig) -> Seq<char> {
    host_address(first_segment(domain, '.'), config.app_service_host_suffix@)
}

/// The address of the delivery endpoint that a domain suggests.
pub open spec fn cdn_address(domain: Seq<char>, config: CloudConfig) -> Seq<char> {
    host_address(first_segment(domain, '.'), config.cdn_host_suffix@)
}

/// The number of candidate names for a storage account.
pub open spec fn storage_candidate_count() -> int {
    3
}

/// The candidate names for a storage account, in the order in which they
/// are tried: the first label of the domain, then that label followed by
/// `storage`, then by `data`.
pub open spec fn storage_name(domain: Seq<char>, index: int) -> Seq<char> {
    if index == 0 {
        first_segment(domain, '.')
    } else if index == 1 {
        first_segment(domain, '.') + "storage"@
    } else {
        first_segment(domain, '.') + "data"@
    }
}

/// The address of the storage account under its candidate name `index`.
pub open spec fn storage_address(domain: Seq<char>, config: CloudConfig, index: int) -> Seq<char> {
    host_address(storage_name(domain, index), config.storage_account_host_suffix@)
}

/// The first candidate at or after `from` whose probe shows an account.
pub open spec fn first_found(outcomes: Seq<ProbeOutcome>, from: int) -> Option<int>
    decreases outcomes.len() - from,
{
    if from < 0 || from >= outcomes.len() || from >= storage_candidate_count() {
        None
    } else if verdict(outcomes[from], ProbeKind::Storage) is Present {
        Some(from)
    } else {
        first_found(outcomes, from + 1)
    }
}

/// One address, or none, as the list that the report holds.
pub open spec fn listed(address: Option<String>) -> Seq<Seq<char>> {
    match address {
        Some(a) => seq![a@],
        None => Seq::empty(),
    }
}

/// `first_found` gives the least candidate whose probe shows an account,
/// and none only where no probed candidate does.
pub proof fn lemma_first_found_is_least(outcomes: Seq<ProbeOutcome>, from: int)
    requires
        0 <= from,
    ensures
        match first_found(outcomes, from) {
            Some(i) => {
                &&& from <= i < outcomes.len()
                &&& i < storage_candidate_count()
                &&& verdict(outcomes[i], ProbeKind::Storage) is Present
                &&& forall|j: int|
                    from <= j < i ==> !(verdict(#[trigger] outcomes[j], ProbeKind::Storage)
                        is Present)
            },
            None => forall|j: int|
                from <= j < outcomes.len() && j < storage_candidate_count() ==> !(verdict(
                    #[trigger] outcomes[j],
                    ProbeKind::Storage,
                ) is Present),
        },
    decreases outcomes.len() - from,
{
    if from >= outcomes.len() || from >= storage_candidate_count() {
    } else if verdict(outcomes[from], ProbeKind::Storage) is Present {
    } else {
        lemma_first_found_is_least(outcomes, from + 1);
    }
}

fn host_url(name: &str, suffix: &str) -> (r: String)
    ensures
        r@ == host_address(name@, suffix@),
{
    let mut url = String::from_str("https://");
    url.append(name);
    url.append(suffix);
    url
}

/// The address to probe for the application host.
pub fn app_service_url(domain: &str, config: &CloudConfig) -> (r: String)
    ensures
        r@ == app_service_address(domain@, *config),
{
    let name = get_tenant_name(domain);
    host_url(name.as_str(), config.app_service_host_suffix.as_str())
}

/// The address to probe for the storage account under its candidate name
/// `index`.
pub fn storage_account_url(domain: &str, config: &CloudConfig, index: usize) -> (r: String)
    ensures
        r@ == storage_address(domain@, *config, index as int),
{
    let mut name = get_tenant_name(domain);
    if index == 1 {
        name.append("storage");
    } else if index != 0 {
        name.append("data");
    }
    host_url(name.as_str(), config.storage_account_host_suffix.as_str())
}

/// The address to probe for the delivery endpoint: none where the
/// environment has no delivery network.
pub fn cdn_url(domain: &str, config: &CloudConfig) -> (r: Option<String>)
    ensures
        config.cdn_host_suffix@.len() == 0 ==> r is None,
        config.cdn_host_suffix@.len() > 0 ==> (r matches Some(url) && url@ == cdn_address(
            domain@,
            *config,
        )),
{
    if config.cdn_host_suffix.as_str().is_empty() {
        None
    } else {
        let name = get_tenant_name(domain);
        Some(host_url(name.as_str(), config.cdn_host_suffix.as_str()))
    }
}

/// The application host of a domain, where its probe shows one: every
/// answer does, whatever its status.
pub fn check_app_services(domain: &str, config: &CloudConfig, outcome: &ProbeOutcome) -> (r:
    Option<String>)
    ensures
        r is Some <==> verdict(*outcome, ProbeKind::Hosting).counts_as_found(),
        r matches Some(url) ==> url@ == app_service_address(domain@, *config),
{
    if evaluate(outcome, ProbeKind::Hosting).detected() {
        Some(app_service_url(domain, config))
    } else {
        None
    }
}

/// The next step of the search for a storage account. `outcomes` holds
/// the outcomes of the candidates probed so far, in the order of the
/// candidates. The search ends at the first candidate whose probe shows an
/// account; a candidate whose probe shows none, or says nothing, is passed
/// over and the next one is to be probed.
pub fn check_storage_account(domain: &str, config: &CloudConfig, outcomes: &Vec<ProbeOutcome>) -> (r:
    StorageStep)
    ensures
        match first_found(outcomes@, 0) {
            Some(i) => r matches StorageStep::Found(url) && url@ == storage_address(
                domain@,
                *config,
                i,
            ),
            None => if outcomes@.len() < storage_candidate_count() {
                r matches StorageStep::Probe(url) && url@ == storage_address(
                    domain@,
                    *config,
                    outcomes@.len() as int,
                )
            } else {
                r is NotFound
            },
        },
{
    let mut i: usize = 0;
    while i < outcomes.len() && i < 3
        invariant
            i <= outcomes.len(),
            i <= 3,
            first_found(outcomes@, 0) == first_found(outcomes@, i as int),
        decreases outcomes.len() - i,
    {
        if evaluate(&outcomes[i], ProbeKind::Storage).detected() {
            return StorageStep::Found(storage_account_url(domain, config, i));
        }
        i = i + 1;
    }
    if i < 3 {
        StorageStep::Probe(storage_account_url(domain, config, i))
    } else {
        StorageStep::NotFound
    }
}

/// The delivery endpoint of a domain, where its probe shows one: every
/// answer does, whatever its status. Where the environment has no delivery
/// network no probe is made and none is found.
pub fn check_cdn(domain: &str, config: &CloudConfig, outcome: Option<&ProbeOutcome>) -> (r: Option<
    String,
>)
    ensures
        r is Some <==> (config.cdn_host_suffix@.len() > 0 && outcome is Some && verdict(
            *outcome->0,
            ProbeKind::Cdn,
        ).counts_as_found()),
        r matches Some(url) ==> url@ == cdn_address(domain@, *config),
{
    match cdn_url(domain, config) {
        None => None,
        Some(url) => match outcome {
            None => None,
            Some(o) => if evaluate(o, ProbeKind::Cdn).detected() {
                Some(url)
            } else {
                None
            },
        },
    }
}

fn one_or_none(address: Option<String>) -> (r: Vec<String>)
    ensures
        r.deep_view() == listed(address),
{
    let mut list: Vec<String> = Vec::new();
    match address {
        Some(a) => {
            list.push(a);
            assert(list.deep_view() =~= seq![a@]);
        },
        None => {
            assert(list.deep_view() =~= Seq::<Seq<char>>::empty());
        },
    }
    list
}

/// Gathers what the three checks of the group found into the entry for
/// the hosting services. Each list is read from its own check alone: a
/// check that found nothing, or did not finish, leaves its own list empty
/// and the others as their checks give them.
pub fn run_azure_service_checks(
    app_service: Option<String>,
    storage: Option<String>,
    cdn: Option<String>,
) -> (r: AzureServiceResults)
    ensures
        r.probable_app_services.deep_view() == listed(app_service),
        r.probable_storage_accounts.deep_view() == listed(storage),
        r.probable_cdn_endpoints.deep_view() == listed(cdn),
{
    AzureServiceResults {
        probable_app_services: one_or_none(app_service),
        probable_storage_accounts: one_or_none(storage),
        probable_cdn_endpoints: one_or_none(cdn),
    }
}

} // verus!
