//! The probe groups and the order in which they run.
//!
//! A scan has three phases. The DNS group runs first and alone, because
//! later probes read what it found. The identity probes and the service
//! groups then run side by side. Each of them ends in an entry of the
//! report or in none, and none of them can end the scan.

pub mod aad;
pub mod azure_svc;
pub mod client;
pub mod dns;
pub mod m365;
pub mod probe;
pub mod tenant;

use crate::error::ReconError;
use crate::models::{
    AadConnectStatus, AzureAdConfig, AzureServiceResults, DnsResults, FederationInfo, ReconResults,
};
use crate::recon::m365::{m365_entry, teams_shown, M365Probes};
use vstd::prelude::*;

verus! {

/// How the task of one category ended.
#[derive(Debug, Clone)]
pub enum TaskOutcome<T> {
    /// It ran to its end and has a result.
    Completed(T),
    /// It ran to its end and reports a failure.
    Failed(ReconError),
    /// It did not run to its end; the text says what is known.
    JoinFailed(String),
}

impl<T> TaskOutcome<T> {
    /// The entry that the task leaves in the report: its result where it
    /// has one, and nothing else.
    pub open spec fn entry(self) -> Option<T> {
        match self {
            TaskOutcome::Completed(value) => Some(value),
            TaskOutcome::Failed(_) => None,
            TaskOutcome::JoinFailed(_) => None,
        }
    }

    /// The task's result, where it has one.
    pub fn into_entry(self) -> (r: Option<T>)
        ensures
            r == self.entry(),
    {
        match self {
            TaskOutcome::Completed(value) => Some(value),
            TaskOutcome::Failed(_) => None,
            TaskOutcome::JoinFailed(_) => None,
        }
    }
}

/// The categories of the report that a scan fills.
#[derive(Debug, Clone, Copy, PartialEq, Eq, Structural)]
pub enum Category {
    Dns,
    Federation,
    AzureAdConfig,
    AadConnect,
    M365,
    AzureServices,
}

/// The end of one category's task, as it is handed to the orchestrator.
/// The productivity services hand in the outcomes of their probes: their
/// entry is made from these and from the DNS entry that the scan holds.
#[derive(Debug, Clone)]
pub enum GroupOutcome {
    Dns(TaskOutcome<DnsResults>),
    Federation(TaskOutcome<FederationInfo>),
    AzureAdConfig(TaskOutcome<AzureAdConfig>),
    AadConnect(TaskOutcome<AadConnectStatus>),
    M365(TaskOutcome<M365Probes>),
    AzureServices(TaskOutcome<AzureServiceResults>),
}

impl GroupOutcome {
    /// The category that the outcome belongs to.
    pub open spec fn category(self) -> Category {
        match self {
            GroupOutcome::Dns(_) => Category::Dns,
            GroupOutcome::Federation(_) => Category::Federation,
            GroupOutcome::AzureAdConfig(_) => Category::AzureAdConfig,
            GroupOutcome::AadConnect(_) => Category::AadConnect,
            GroupOutcome::M365(_) => Category::M365,
            GroupOutcome::AzureServices(_) => Category::AzureServices,
        }
    }
}

/// Where a scan stands.
#[derive(Debug, Clone, Copy, PartialEq, Eq, Structural)]
pub enum Phase {
    /// The DNS group is running; nothing else has started.
    Dns,
    /// The identity probes and the service groups are running.
    Probes,
    /// Every category has ended and the report is complete.
    Merged,
}

/// What the caller does next.
#[derive(Debug, Clone, Copy, PartialEq, Eq, Structural)]
pub enum Action {
    /// Run the DNS group and hand its outcome back.
    RunDns,
    /// Start the three identity probes and the two service groups, all at
    /// once, and hand each outcome back as it comes.
    RunProbes,
    /// Nothing new to start: outcomes are still awaited, or the outcome
    /// handed in was not awaited and has been ignored.
    Wait,
    /// The report is complete: hand it to the output.
    Report,
}

/// The categories of the second phase whose outcome has been recorded.
#[derive(Debug, Clone, Copy, PartialEq, Eq, Structural)]
pub struct Settled {
    pub federation: bool,
    pub azure_ad_config: bool,
    pub aad_connect: bool,
    pub m365: bool,
    pub azure_services: bool,
}

impl Settled {
    /// No category of the second phase has ended.
    pub open spec fn none() -> Settled {
        Settled {
            federation: false,
            azure_ad_config: false,
            aad_connect: false,
            m365: false,
            azure_services: false,
        }
    }

    /// Every category of the second phase has ended.
    pub open spec fn all(self) -> bool {
        self.federation && self.azure_ad_config && self.aad_connect && self.m365
            && self.azure_services
    }

    /// Whether the outcome of `category` has been recorded.
    pub open spec fn holds(self, category: Category) -> bool {
        match category {
            Category::Dns => true,
            Category::Federation => self.federation,
            Category::AzureAdConfig => self.azure_ad_config,
            Category::AadConnect => self.aad_connect,
            Category::M365 => self.m365,
            Category::AzureServices => self.azure_services,
        }
    }

    /// `self` with `category` recorded.
    pub open spec fn with(self, category: Category) -> Settled {
        match category {
            Category::Dns => self,
            Category::Federation => Settled { federation: true, ..self },
            Category::AzureAdConfig => Settled { azure_ad_config: true, ..self },
            Category::AadConnect => Settled { aad_connect: true, ..self },
            Category::M365 => Settled { m365: true, ..self },
            Category::AzureServices => Settled { azure_services: true, ..self },
        }
    }

    fn is_complete(&self) -> (r: bool)
        ensures
            r == self.all(),
    {
        self.federation && self.azure_ad_config && self.aad_connect && self.m365
            && self.azure_services
    }
}

/// `report` with the entry of `outcome`'s category replaced by what the
/// outcome leaves; every other entry, and the domain, as they were. The
/// entry for the productivity services is read from the probes and from
/// the DNS entry that `report` holds.
pub open spec fn with_entry(report: ReconResults, outcome: GroupOutcome) -> ReconResults {
    match outcome {
        GroupOutcome::Dns(o) => ReconResults { dns_results: o.entry(), ..report },
        GroupOutcome::Federation(o) => ReconResults { federation_info: o.entry(), ..report },
        GroupOutcome::AzureAdConfig(o) => ReconResults { azure_ad_config: o.entry(), ..report },
        GroupOutcome::AadConnect(o) => ReconResults { aad_connect_status: o.entry(), ..report },
        GroupOutcome::M365(o) => ReconResults {
            m365_results: match o.entry() {
                Some(probes) => Some(m365_entry(probes, report.dns_results)),
                None => None,
            },
            ..report
        },
        GroupOutcome::AzureServices(o) => ReconResults {
            azure_service_results: o.entry(),
            ..report
        },
    }
}

/// The report of a scan of `domain` whose six tasks ended as given.
pub open spec fn merged(
    domain: String,
    dns: TaskOutcome<DnsResults>,
    federation: TaskOutcome<FederationInfo>,
    azure_ad_config: TaskOutcome<AzureAdConfig>,
    aad_connect: TaskOutcome<AadConnectStatus>,
    m365: TaskOutcome<M365Probes>,
    azure_services: TaskOutcome<AzureServiceResults>,
) -> ReconResults {
    ReconResults {
        domain,
        dns_results: dns.entry(),
        tenant_info: None,
        federation_info: federation.entry(),
        azure_ad_config: azure_ad_config.entry(),
        aad_connect_status: aad_connect.entry(),
        m365_results: match m365.entry() {
            Some(probes) => Some(m365_entry(probes, dns.entry())),
            None => None,
        },
        azure_service_results: azure_services.entry(),
        aad_app_results: None,
        security_service_results: None,
    }
}

/// The state of one scan: its phase, the report so far, and which
/// categories of the second phase have ended.
#[derive(Debug, Clone)]
pub struct Orchestrator {
    pub phase: Phase,
    pub results: ReconResults,
    pub settled: Settled,
}

impl Orchestrator {
    /// The state before anything ran.
    pub open spec fn initial(domain: String) -> Orchestrator {
        Orchestrator {
            phase: Phase::Dns,
            results: ReconResults::empty(domain),
            settled: Settled::none(),
        }
    }

    /// Whether the outcome is one that the scan waits for in its phase.
    pub open spec fn awaits(self, outcome: GroupOutcome) -> bool {
        match self.phase {
            Phase::Dns => outcome is Dns,
            Phase::Probes => !(outcome is Dns) && !self.settled.holds(outcome.category()),
            Phase::Merged => false,
        }
    }

    /// The state after `outcome` was handed in. An awaited outcome fills
    /// its own entry of the report and nothing else; any other outcome
    /// leaves the state as it is.
    pub open spec fn step(self, outcome: GroupOutcome) -> Orchestrator {
        if !self.awaits(outcome) {
            self
        } else if outcome is Dns {
            Orchestrator {
                phase: Phase::Probes,
                results: with_entry(self.results, outcome),
                settled: self.settled,
            }
        } else {
            let settled = self.settled.with(outcome.category());
            Orchestrator {
                phase: if settled.all() {
                    Phase::Merged
                } else {
                    Phase::Probes
                },
                results: with_entry(self.results, outcome),
                settled,
            }
        }
    }

    /// What the caller does after `outcome` was handed in.
    pub open spec fn reaction(self, outcome: GroupOutcome) -> Action {
        if !self.awaits(outcome) {
            Action::Wait
        } else if outcome is Dns {
            Action::RunProbes
        } else if self.settled.with(outcome.category()).all() {
            Action::Report
        } else {
            Action::Wait
        }
    }

    /// The states that a scan can be in: an entry of the report is filled
    /// only after its category has ended, the scan is merged exactly when
    /// all of them have, and the conferencing flag of the productivity
    /// services is the one that the DNS entry of the same report shows.
    pub open spec fn is_well_formed(self) -> bool {
        &&& self.results.tenant_info is None
        &&& self.results.aad_app_results is None
        &&& self.results.security_service_results is None
        &&& self.phase is Dns ==> self.results.dns_results is None && self.settled
            == Settled::none()
        &&& self.phase is Merged <==> self.settled.all()
        &&& !self.settled.federation ==> self.results.federation_info is None
        &&& !self.settled.azure_ad_config ==> self.results.azure_ad_config is None
        &&& !self.settled.aad_connect ==> self.results.aad_connect_status is None
        &&& !self.settled.m365 ==> self.results.m365_results is None
        &&& self.results.m365_results matches Some(m) ==> m.teams_detected == Some(
            teams_shown(self.results.dns_results),
        )
        &&& !self.settled.azure_services ==> self.results.azure_service_results is None
    }

    /// Begins the scan of `domain`: the report is empty, and the DNS group
    /// is the first thing to run.
    pub fn start(domain: String) -> (r: (Orchestrator, Action))
        ensures
            r.0 == Orchestrator::initial(domain),
            r.0.is_well_formed(),
            r.1 == Action::RunDns,
    {
        let scan = Orchestrator {
            phase: Phase::Dns,
            results: ReconResults::new(domain),
            settled: Settled {
                federation: false,
                azure_ad_config: false,
                aad_connect: false,
                m365: false,
                azure_services: false,
            },
        };
        (scan, Action::RunDns)
    }

    /// Records the end of one category's task and says what to do next.
    /// The task's result enters the report if it has one; a task that
    /// failed or did not finish leaves its entry absent. The domain and
    /// the entries of all other categories stay as they are.
    pub fn record(&mut self, outcome: GroupOutcome) -> (action: Action)
        ensures
            *final(self) == old(self).step(outcome),
            action == old(self).reaction(outcome),
            final(self).results.domain == old(self).results.domain,
            old(self).is_well_formed() ==> final(self).is_well_formed(),
    {
        match self.phase {
            Phase::Dns => {
                match outcome {
                    GroupOutcome::Dns(task) => {
                        self.results.dns_results = task.into_entry();
                        self.phase = Phase::Probes;
                        Action::RunProbes
                    },
                    _ => Action::Wait,
                }
            },
            Phase::Probes => {
                match outcome {
                    GroupOutcome::Dns(_) => {
                        return Action::Wait;
                    },
                    GroupOutcome::Federation(task) => {
                        if self.settled.federation {
                            return Action::Wait;
                        }
                        self.results.federation_info = task.into_entry();
                        self.settled.federation = true;
                    },
                    GroupOutcome::AzureAdConfig(task) => {
                        if self.settled.azure_ad_config {
                            return Action::Wait;
                        }
                        self.results.azure_ad_config = task.into_entry();
                        self.settled.azure_ad_config = true;
                    },
                    GroupOutcome::AadConnect(task) => {
                        if self.settled.aad_connect {
                            return Action::Wait;
                        }
                        self.results.aad_connect_status = task.into_entry();
                        self.settled.aad_connect = true;
                    },
                    GroupOutcome::M365(task) => {
                        if self.settled.m365 {
                            return Action::Wait;
                        }
                        self.results.m365_results = match task.into_entry() {
                            Some(probes) => Some(probes.read(&self.results.dns_results)),
                            None => None,
                        };
                        self.settled.m365 = true;
                    },
                    GroupOutcome::AzureServices(task) => {
                        if self.settled.azure_services {
                            return Action::Wait;
                        }
                        self.results.azure_service_results = task.into_entry();
                        self.settled.azure_services = true;
                    },
                }
                if self.settled.is_complete() {
                    self.phase = Phase::Merged;
                    Action::Report
                } else {
                    Action::Wait
                }
            },
            Phase::Merged => Action::Wait,
        }
    }

    /// The report as it stands.
    pub fn into_results(self) -> (r: ReconResults)
        ensures
            r == self.results,
    {
        self.results
    }
}

/// Merges the outcomes of the six tasks of a scan of `domain` into its
/// report, in the order of the phases. The report is always produced: a
/// task that failed or did not finish leaves its entry absent and touches
/// no other. The productivity services are read with the DNS entry that
/// the first phase left in the report.
pub fn run_all_checks(
    domain: String,
    dns: TaskOutcome<DnsResults>,
    federation: TaskOutcome<FederationInfo>,
    azure_ad_config: TaskOutcome<AzureAdConfig>,
    aad_connect: TaskOutcome<AadConnectStatus>,
    m365: TaskOutcome<M365Probes>,
    azure_services: TaskOutcome<AzureServiceResults>,
) -> (r: Result<ReconResults, ReconError>)
    ensures
        r == Ok::<ReconResults, ReconError>(
            merged(domain, dns, federation, azure_ad_config, aad_connect, m365, azure_services),
        ),
        r matches Ok(report) && (report.m365_results matches Some(m) ==> m.teams_detected
            == Some(teams_shown(report.dns_results))),
{
    let (mut scan, _) = Orchestrator::start(domain);
    scan.record(GroupOutcome::Dns(dns));
    scan.record(GroupOutcome::Federation(federation));
    scan.record(GroupOutcome::AzureAdConfig(azure_ad_config));
    scan.record(GroupOutcome::AadConnect(aad_connect));
    scan.record(GroupOutcome::M365(m365));
    let last = scan.record(GroupOutcome::AzureServices(azure_services));
    assert(last == Action::Report);
    Ok(scan.into_results())
}

/// Whatever is handed in, the report keeps the domain it was begun with.
pub proof fn lemma_domain_is_kept(scan: Orchestrator, outcome: GroupOutcome)
    ensures
        scan.step(outcome).results.domain == scan.results.domain,
{
}

/// The end of one category's task, whether it has a result, failed or did
/// not finish, leaves the entries of all other categories as they were.
pub proof fn lemma_siblings_are_untouched(scan: Orchestrator, outcome: GroupOutcome)
    ensures
        !(outcome is Dns) ==> scan.step(outcome).results.dns_results == scan.results.dns_results,
        !(outcome is Federation) ==> scan.step(outcome).results.federation_info
            == scan.results.federation_info,
        !(outcome is AzureAdConfig) ==> scan.step(outcome).results.azure_ad_config
            == scan.results.azure_ad_config,
        !(outcome is AadConnect) ==> scan.step(outcome).results.aad_connect_status
            == scan.results.aad_connect_status,
        !(outcome is M365) ==> scan.step(outcome).results.m365_results
            == scan.results.m365_results,
        !(outcome is AzureServices) ==> scan.step(outcome).results.azure_service_results
            == scan.results.azure_service_results,
        scan.step(outcome).results.tenant_info == scan.results.tenant_info,
        scan.step(outcome).results.aad_app_results == scan.results.aad_app_results,
        scan.step(outcome).results.security_service_results
            == scan.results.security_service_results,
{
}

/// The service phase sees what the DNS phase left: the entry for the
/// productivity services that a scan records is read from the handed-in
/// probes and from the DNS entry that the scan holds at that time, and no
/// later outcome changes either of the two.
pub proof fn lemma_services_read_the_recorded_dns(
    scan: Orchestrator,
    probes: M365Probes,
    later: GroupOutcome,
)
    requires
        scan.is_well_formed(),
        scan.phase is Probes,
        !scan.settled.m365,
    ensures
        ({
            let after = scan.step(GroupOutcome::M365(TaskOutcome::Completed(probes)));
            &&& after.results.m365_results == Some(m365_entry(probes, scan.results.dns_results))
            &&& after.results.m365_results->0.teams_detected == Some(
                teams_shown(after.results.dns_results),
            )
            &&& after.step(later).results.m365_results == after.results.m365_results
            &&& after.step(later).results.dns_results == after.results.dns_results
        }),
{
}

/// In the second phase the order in which two different categories end
/// does not matter to the state that results.
pub proof fn lemma_order_of_siblings_is_irrelevant(
    scan: Orchestrator,
    first: GroupOutcome,
    second: GroupOutcome,
)
    requires
        scan.phase is Probes,
        first.category() != second.category(),
    ensures
        scan.step(first).step(second) == scan.step(second).step(first),
{
}

/// A well-formed scan stays well formed, never returns to an earlier
/// phase, and an entry that has been recorded is never changed again.
pub proof fn lemma_step_keeps_order(scan: Orchestrator, outcome: GroupOutcome)
    requires
        scan.is_well_formed(),
    ensures
        scan.step(outcome).is_well_formed(),
        scan.phase is Probes ==> !(scan.step(outcome).phase is Dns),
        scan.phase is Merged ==> scan.step(outcome) == scan,
        !scan.awaits(outcome) ==> scan.step(outcome) == scan,
        (scan.phase is Dns && !(outcome is Dns)) ==> scan.step(outcome).results
            == ReconResults::empty(scan.results.domain),
{
}

/// A scan whose six tasks have ended, the DNS group first and the five
/// others after it, holds the merged report and is in its last phase,
/// whatever the tasks' outcomes were.
pub proof fn lemma_scan_always_merges(
    domain: String,
    dns: TaskOutcome<DnsResults>,
    federation: TaskOutcome<FederationInfo>,
    azure_ad_config: TaskOutcome<AzureAdConfig>,
    aad_connect: TaskOutcome<AadConnectStatus>,
    m365: TaskOutcome<M365Probes>,
    azure_services: TaskOutcome<AzureServiceResults>,
)
    ensures
        ({
            let end = Orchestrator::initial(domain).step(GroupOutcome::Dns(dns)).step(
                GroupOutcome::Federation(federation),
            ).step(GroupOutcome::AzureAdConfig(azure_ad_config)).step(
                GroupOutcome::AadConnect(aad_connect),
            ).step(GroupOutcome::M365(m365)).step(GroupOutcome::AzureServices(azure_services));
            &&& end.phase is Merged
            &&& end.results == merged(
                domain,
                dns,
                federation,
                azure_ad_config,
                aad_connect,
                m365,
                azure_services,
            )
            &&& end.results.domain == domain
        }),
{
}

} // verus!
