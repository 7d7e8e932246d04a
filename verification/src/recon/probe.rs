//! From the raw outcome of one network attempt to a verdict.
//!
//! The rules are per service: some front ends answer every request for a
//! name that exists, others answer a refusal that is itself the finding.

use vstd::prelude::*;

verus! {

/// What one probe says of the thing it looked for.
#[derive(Debug, Clone, Copy, PartialEq, Eq, Structural)]
pub enum Verdict {
    /// It is there.
    Present,
    /// It is not there.
    Absent,
    /// The attempt says nothing either way.
    Unknown,
}

/// The service a probe is aimed at.
#[derive(Debug, Clone, Copy, PartialEq, Eq, Structural)]
pub enum ProbeKind {
    /// An application host under the hosting suffix.
    Hosting,
    /// A storage account under one of its candidate names.
    Storage,
    /// A content delivery endpoint.
    Cdn,
    /// The collaboration site of the tenant.
    Collaboration,
    /// The tenant's branding asset on the login host.
    Branding,
    /// A legacy protocol endpoint that sits behind authentication.
    LegacyAuth,
    /// A DNS lookup.
    Dns,
}

/// Why a request got no answer.
#[derive(Debug, Clone, Copy, PartialEq, Eq, Structural)]
pub enum FailureKind {
    /// The name did not resolve, or the connection was refused.
    ConnectFailed,
    /// No answer came in time.
    TimedOut,
    /// The request could not be made or sent, for another reason.
    RequestFailed,
    /// Any other transport failure.
    Other,
}

/// What the transport reports of a failed request.
#[derive(Debug, Clone)]
pub struct TransportError {
    /// The failure is a timeout.
    pub is_timeout: bool,
    /// The failure happened while connecting.
    pub is_connect: bool,
    /// The failure is tied to the request itself.
    pub is_request: bool,
    /// The transport's own description.
    pub message: String,
}

/// The raw result of one network attempt.
#[derive(Debug, Clone)]
pub enum ProbeOutcome {
    /// An HTTP answer: its status, and its body where it was read.
    Http { status: u16, body: Option<String> },
    /// The answer set of a DNS lookup.
    Dns { answers: Vec<String> },
    /// No answer.
    Failed { kind: FailureKind, detail: String },
}

/// Status 200 to 299.
pub open spec fn status_is_success(status: u16) -> bool {
    200 <= status <= 299
}

/// Status 300 to 399.
pub open spec fn status_is_redirection(status: u16) -> bool {
    300 <= status <= 399
}

/// Status 400 to 499.
pub open spec fn status_is_client_error(status: u16) -> bool {
    400 <= status <= 499
}

/// The class of a transport failure. A timeout stays a timeout even where
/// it struck while connecting: it never counts as a refusal.
pub open spec fn failure_kind(is_timeout: bool, is_connect: bool, is_request: bool) -> FailureKind {
    if is_timeout {
        FailureKind::TimedOut
    } else if is_connect {
        FailureKind::ConnectFailed
    } else if is_request {
        FailureKind::RequestFailed
    } else {
        FailureKind::Other
    }
}

/// The verdict that an HTTP status gives for a service.
pub open spec fn http_verdict(status: u16, kind: ProbeKind) -> Verdict {
    if status_is_success(status) || status_is_redirection(status) {
        Verdict::Present
    } else if status_is_client_error(status) && (kind is Storage || kind is LegacyAuth) {
        Verdict::Present
    } else if kind is Hosting || kind is Cdn {
        Verdict::Present
    } else {
        Verdict::Absent
    }
}

/// The verdict that a failed request gives: absence where nothing
/// listens, and no verdict otherwise.
pub open spec fn failure_verdict(failure: FailureKind) -> Verdict {
    if failure is ConnectFailed {
        Verdict::Absent
    } else {
        Verdict::Unknown
    }
}

/// The answers of a lookup: none where the outcome is not an answer set.
pub open spec fn lookup_answers(outcome: ProbeOutcome) -> Seq<Seq<char>> {
    match outcome {
        ProbeOutcome::Dns { answers } => answers.deep_view(),
        _ => Seq::empty(),
    }
}

/// The verdict of `outcome` for a probe of kind `kind`. A lookup is a firm
/// yes or no: an answer set that is empty, and every failure, reads as
/// absence.
pub open spec fn verdict(outcome: ProbeOutcome, kind: ProbeKind) -> Verdict {
    if kind is Dns {
        if lookup_answers(outcome).len() > 0 {
            Verdict::Present
        } else {
            Verdict::Absent
        }
    } else {
        match outcome {
            ProbeOutcome::Http { status, body } => http_verdict(status, kind),
            ProbeOutcome::Dns { answers } => if answers@.len() > 0 {
                Verdict::Present
            } else {
                Verdict::Absent
            },
            ProbeOutcome::Failed { kind: failure, detail } => failure_verdict(failure),
        }
    }
}

impl Verdict {
    /// How a verdict enters a yes-or-no field of the report: what is not
    /// known to be there is reported as not found.
    pub open spec fn counts_as_found(self) -> bool {
        self is Present
    }

    /// Whether the verdict is reported as a finding.
    pub fn detected(self) -> (r: bool)
        ensures
            r == self.counts_as_found(),
    {
        match self {
            Verdict::Present => true,
            Verdict::Absent => false,
            Verdict::Unknown => false,
        }
    }
}

impl TransportError {
    /// The class of this failure.
    pub fn classify(&self) -> (r: FailureKind)
        ensures
            r == failure_kind(self.is_timeout, self.is_connect, self.is_request),
    {
        if self.is_timeout {
            FailureKind::TimedOut
        } else if self.is_connect {
            FailureKind::ConnectFailed
        } else if self.is_request {
            FailureKind::RequestFailed
        } else {
            FailureKind::Other
        }
    }
}

impl ProbeOutcome {
    /// The outcome of a request that the transport gave up on.
    pub fn from_transport_error(error: TransportError) -> (r: Self)
        ensures
            r == (ProbeOutcome::Failed {
                kind: failure_kind(error.is_timeout, error.is_connect, error.is_request),
                detail: error.message,
            }),
    {
        let kind = error.classify();
        ProbeOutcome::Failed { kind, detail: error.message }
    }
}

/// Whether `status` is in 200 to 299.
pub fn is_success(status: u16) -> (r: bool)
    ensures
        r == status_is_success(status),
{
    200 <= status && status <= 299
}

/// Whether `status` is in 300 to 399.
pub fn is_redirection(status: u16) -> (r: bool)
    ensures
        r == status_is_redirection(status),
{
    300 <= status && status <= 399
}

/// Whether `status` is in 400 to 499.
pub fn is_client_error(status: u16) -> (r: bool)
    ensures
        r == status_is_client_error(status),
{
    400 <= status && status <= 499
}

/// Reads the outcome of one probe as a verdict on the service it was
/// aimed at.
pub fn evaluate(outcome: &ProbeOutcome, kind: ProbeKind) -> (v: Verdict)
    ensures
        v == verdict(*outcome, kind),
{
    match outcome {
        ProbeOutcome::Http { status, body } => {
            if kind == ProbeKind::Dns {
                Verdict::Absent
            } else if is_success(*status) || is_redirection(*status) {
                Verdict::Present
            } else if is_client_error(*status) && (kind == ProbeKind::Storage || kind
                == ProbeKind::LegacyAuth) {
                Verdict::Present
            } else if kind == ProbeKind::Hosting || kind == ProbeKind::Cdn {
                Verdict::Present
            } else {
                Verdict::Absent
            }
        },
        ProbeOutcome::Dns { answers } => {
            assert(answers.deep_view().len() == answers@.len());
            if answers.len() > 0 {
                Verdict::Present
            } else {
                Verdict::Absent
            }
        },
        ProbeOutcome::Failed { kind: failure, detail } => {
            if kind == ProbeKind::Dns || *failure == FailureKind::ConnectFailed {
                Verdict::Absent
            } else {
                Verdict::Unknown
            }
        },
    }
}

/// Every HTTP probe reads a status from 200 to 399 as a finding. A storage
/// probe, and a probe of a legacy protocol, reads every status from 400 to
/// 499 as one too.
pub proof fn lemma_status_rules(status: u16, body: Option<String>, kind: ProbeKind)
    requires
        !(kind is Dns),
    ensures
        200 <= status <= 399 ==> verdict(ProbeOutcome::Http { status, body }, kind) is Present,
        200 <= status <= 399 ==> verdict(
            ProbeOutcome::Http { status, body },
            kind,
        ).counts_as_found(),
        400 <= status <= 499 ==> verdict(
            ProbeOutcome::Http { status, body },
            ProbeKind::Storage,
        ).counts_as_found(),
        400 <= status <= 499 ==> verdict(
            ProbeOutcome::Http { status, body },
            ProbeKind::LegacyAuth,
        ).counts_as_found(),
{
}

/// A request that failed while connecting, and not by a timeout, reads as
/// absence for every service. A timeout reads as unknown for every HTTP
/// probe, and no failure ever reads as presence.
pub proof fn lemma_failure_rules(error: TransportError, kind: ProbeKind)
    ensures
        error.is_connect && !error.is_timeout ==> verdict(
            ProbeOutcome::Failed {
                kind: failure_kind(error.is_timeout, error.is_connect, error.is_request),
                detail: error.message,
            },
            kind,
        ) is Absent,
        error.is_timeout && !(kind is Dns) ==> verdict(
            ProbeOutcome::Failed {
                kind: failure_kind(error.is_timeout, error.is_connect, error.is_request),
                detail: error.message,
            },
            kind,
        ) is Unknown,
        !verdict(
            ProbeOutcome::Failed {
                kind: failure_kind(error.is_timeout, error.is_connect, error.is_request),
                detail: error.message,
            },
            kind,
        ).counts_as_found(),
{
}

/// A lookup never leaves the question open: its outcome reads as presence
/// or as absence, and as presence exactly when an answer came.
pub proof fn lemma_lookup_is_decided(outcome: ProbeOutcome)
    ensures
        !(verdict(outcome, ProbeKind::Dns) is Unknown),
        verdict(outcome, ProbeKind::Dns) is Present <==> (outcome is Dns
            && outcome->answers@.len() > 0),
        outcome is Failed ==> verdict(outcome, ProbeKind::Dns) is Absent,
{
    if outcome is Dns {
        assert(outcome->answers.deep_view().len() == outcome->answers@.len());
    }
}

} // verus!
