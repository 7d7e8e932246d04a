//! The DNS group: what the lookups for a domain say of it.
//!
//! A lookup that fails or comes back empty is a finding, not an error: the
//! record is absent. No lookup can keep the others from being read.

use crate::models::DnsResults;
use crate::recon::probe::{evaluate, lookup_answers, verdict, ProbeKind, ProbeOutcome};
use crate::text::{
    folds_to, lemma_segment_end_bounds, lemma_trim_is_a_run, segment_end, segment_end_in,
    slice_string,
    starts_with_folded, starts_with_folded_in, to_chars, trim, trim_bounds,
};
use vstd::prelude::*;
use vstd::string::*;

verus! {

/// What a lookup with a fallback has come to.
#[derive(Debug, Clone, PartialEq)]
pub enum LookupStep<T> {
    /// The check is decided.
    Done(T),
    /// The first lookup found nothing: the second one is to be made.
    Continue,
}

/// The first answer of a lookup, where it has one.
pub open spec fn first_answer(outcome: ProbeOutcome) -> Option<Seq<char>> {
    if lookup_answers(outcome).len() > 0 {
        Some(lookup_answers(outcome)[0])
    } else {
        None
    }
}

/// The first of `records` that begins with `prefix`, capitals folded.
pub open spec fn first_record_with(records: Seq<Seq<char>>, prefix: Seq<char>) -> Option<
    Seq<char>,
>
    decreases records.len(),
{
    if records.len() == 0 {
        None
    } else if starts_with_folded(records[0], prefix) {
        Some(records[0])
    } else {
        first_record_with(records.skip(1), prefix)
    }
}

/// The policy that a DMARC record states: the record is cut at each `;`,
/// each piece is trimmed, and the first piece that begins with `p=` gives
/// the policy, which is what follows those two characters.
pub open spec fn policy_in(record: Seq<char>) -> Option<Seq<char>>
    decreases record.len(),
{
    let end = segment_end(record, ';');
    let piece = trim(record.take(end));
    if starts_with_folded(piece, "p="@) {
        Some(piece.skip(2))
    } else if 0 <= end < record.len() {
        policy_in(record.skip(end + 1))
    } else {
        None
    }
}

/// The entry for the mail exchangers: the answers where there are any.
pub open spec fn found_records(answers: Seq<Seq<char>>) -> Option<Seq<Seq<char>>> {
    if answers.len() > 0 {
        Some(answers)
    } else {
        None
    }
}

/// The policy of an optional DMARC record.
pub open spec fn policy_of(record: Option<Seq<char>>) -> Option<Seq<char>> {
    match record {
        Some(text) => policy_in(text),
        None => None,
    }
}

/// `record` holds the mark of a policy: a `p`, small or capital, with a
/// `=` right after it.
pub open spec fn holds_policy_mark(record: Seq<char>) -> bool {
    exists|i: int|
        0 <= i && i + 1 < record.len() && folds_to(#[trigger] record[i], 'p') && record[i + 1]
            == '='
}

/// A record that holds no `p=` anywhere states no policy.
pub proof fn lemma_no_policy_without_its_mark(record: Seq<char>)
    requires
        !holds_policy_mark(record),
    ensures
        policy_in(record) is None,
    decreases record.len(),
{
    reveal_strlit("p=");
    let end = segment_end(record, ';');
    lemma_segment_end_bounds(record, ';');
    let head = record.take(end);
    let piece = trim(head);
    let (a, b) = lemma_trim_is_a_run(head);
    if starts_with_folded(piece, "p="@) {
        assert(piece[0] == record[a]);
        assert(piece[1] == record[a + 1]);
        assert(folds_to(record[a], 'p') && record[a + 1] == '=');
        assert(holds_policy_mark(record));
    } else if 0 <= end < record.len() {
        let rest = record.skip(end + 1);
        if holds_policy_mark(rest) {
            let i = choose|i: int|
                0 <= i && i + 1 < rest.len() && folds_to(#[trigger] rest[i], 'p') && rest[i + 1]
                    == '=';
            assert(rest[i] == record[end + 1 + i]);
            assert(rest[i + 1] == record[end + 1 + i + 1]);
            assert(folds_to(record[end + 1 + i], 'p'));
            assert(holds_policy_mark(record));
        }
        lemma_no_policy_without_its_mark(rest);
    }
}

/// The name whose records show a mail autodiscovery service.
pub fn autodiscover_name(domain: &str) -> (r: String)
    ensures
        r@ == "autodiscover."@ + domain@,
{
    let mut name = String::from_str("autodiscover.");
    name.append(domain);
    name
}

/// The name whose records show a conferencing discovery service.
pub fn lyncdiscover_name(domain: &str) -> (r: String)
    ensures
        r@ == "lyncdiscover."@ + domain@,
{
    let mut name = String::from_str("lyncdiscover.");
    name.append(domain);
    name
}

/// The name whose records show a session initiation service.
pub fn sip_name(domain: &str) -> (r: String)
    ensures
        r@ == "sip."@ + domain@,
{
    let mut name = String::from_str("sip.");
    name.append(domain);
    name
}

fn answers_of(outcome: &ProbeOutcome) -> (r: Vec<String>)
    ensures
        r.deep_view() == lookup_answers(*outcome),
{
    let mut records: Vec<String> = Vec::new();
    match outcome {
        ProbeOutcome::Dns { answers } => {
            let mut i: usize = 0;
            while i < answers.len()
                invariant
                    i <= answers.len(),
                    records@.len() == i,
                    forall|j: int| 0 <= j < i ==> records@[j]@ == answers@[j]@,
                decreases answers.len() - i,
            {
                records.push(answers[i].clone());
                i = i + 1;
            }
            assert(records.deep_view() =~= answers.deep_view());
        },
        _ => {
            assert(records.deep_view() =~= Seq::<Seq<char>>::empty());
        },
    }
    records
}

/// The mail exchangers of a domain, as its MX lookup gave them: none where
/// the lookup failed.
pub fn get_mx_records(outcome: &ProbeOutcome) -> (r: Vec<String>)
    ensures
        r.deep_view() == lookup_answers(*outcome),
{
    answers_of(outcome)
}

/// The text records of a domain, as its TXT lookup gave them: none where
/// the lookup failed.
pub fn get_txt_records(outcome: &ProbeOutcome) -> (r: Vec<String>)
    ensures
        r.deep_view() == lookup_answers(*outcome),
{
    answers_of(outcome)
}

fn first_of(outcome: &ProbeOutcome) -> (r: Option<String>)
    ensures
        r.deep_view() == first_answer(*outcome),
{
    match outcome {
        ProbeOutcome::Dns { answers } => {
            assert(answers.deep_view().len() == answers@.len());
            if answers.len() > 0 {
                Some(answers[0].clone())
            } else {
                None
            }
        },
        _ => None,
    }
}

/// The autodiscovery record of a domain. The alias lookup is read first;
/// only where it has no answer is the address lookup made and read.
pub fn check_autodiscover(cname: &ProbeOutcome, address: Option<&ProbeOutcome>) -> (r: LookupStep<
    Option<String>,
>)
    ensures
        first_answer(*cname) is Some ==> (r matches LookupStep::Done(found) && found.deep_view()
            == first_answer(*cname)),
        first_answer(*cname) is None && address is None ==> r is Continue,
        first_answer(*cname) is None && address is Some ==> (r matches LookupStep::Done(found)
            && found.deep_view() == first_answer(*address->0)),
{
    let alias = first_of(cname);
    if alias.is_some() {
        return LookupStep::Done(alias);
    }
    match address {
        None => LookupStep::Continue,
        Some(outcome) => LookupStep::Done(first_of(outcome)),
    }
}

/// Whether a name has an address or an alias. The address lookup is read
/// first; only where it has no answer is the alias lookup made and read.
pub fn check_record_presence(address: &ProbeOutcome, cname: Option<&ProbeOutcome>) -> (r:
    LookupStep<bool>)
    ensures
        verdict(*address, ProbeKind::Dns) is Present ==> r == LookupStep::Done(true),
        !(verdict(*address, ProbeKind::Dns) is Present) && cname is None ==> r is Continue,
        !(verdict(*address, ProbeKind::Dns) is Present) && cname is Some ==> r == LookupStep::Done(
            verdict(*cname->0, ProbeKind::Dns) is Present,
        ),
{
    if evaluate(address, ProbeKind::Dns).detected() {
        return LookupStep::Done(true);
    }
    match cname {
        None => LookupStep::Continue,
        Some(outcome) => LookupStep::Done(evaluate(outcome, ProbeKind::Dns).detected()),
    }
}

/// The first of `records` that begins with `prefix` once its capitals are
/// folded. `prefix` is given in small letters.
pub fn find_record(records: &Vec<String>, prefix: &str) -> (r: Option<String>)
    ensures
        r.deep_view() == first_record_with(records.deep_view(), prefix@),
{
    let wanted = to_chars(prefix);
    let ghost all = records.deep_view();
    let mut i: usize = 0;
    assert(all.skip(0) =~= all);
    while i < records.len()
        invariant
            i <= records.len(),
            all == records.deep_view(),
            wanted@ == prefix@,
            first_record_with(all, prefix@) == first_record_with(all.skip(i as int), prefix@),
        decreases records.len() - i,
    {
        let chars = to_chars(records[i].as_str());
        assert(chars@.subrange(0, chars@.len() as int) =~= chars@);
        assert(all.skip(i as int)[0] == records@[i as int]@);
        if starts_with_folded_in(&chars, 0, chars.len(), &wanted) {
            return Some(records[i].clone());
        }
        assert(all.skip(i as int).skip(1) =~= all.skip(i + 1));
        i = i + 1;
    }
    assert(all.skip(i as int).len() == 0);
    None
}

/// Extract the DMARC policy from a DMARC record.
pub fn extract_dmarc_policy(dmarc_record: Option<&str>) -> (r: Option<String>)
    ensures
        r.deep_view() == policy_of(dmarc_record.deep_view()),
{
    let record = match dmarc_record {
        Some(record) => record,
        None => {
            return None;
        },
    };
    let chars = to_chars(record);
    let wanted = to_chars("p=");
    proof {
        reveal_strlit("p=");
    }
    let mut start: usize = 0;
    assert(record@.skip(0) =~= record@);
    assert(dmarc_record.deep_view() == Some(record@));
    loop
        invariant
            start <= chars.len(),
            dmarc_record.deep_view() == Some(record@),
            chars@ == record@,
            wanted@ == "p="@,
            "p="@.len() == 2,
            policy_in(record@) == policy_in(record@.skip(start as int)),
        decreases chars.len() - start,
    {
        let ghost rest = record@.skip(start as int);
        let end = segment_end_in(&chars, start, ';');
        let (a, b) = trim_bounds(&chars, start, end);
        proof {
            lemma_segment_end_bounds(rest, ';');
            assert(rest.take(end - start) =~= chars@.subrange(start as int, end as int));
        }
        let ghost piece = trim(rest.take(segment_end(rest, ';')));
        assert(piece == chars@.subrange(a as int, b as int));
        if starts_with_folded_in(&chars, a, b, &wanted) {
            assert(piece.skip(2) =~= record@.subrange(a + 2, b as int));
            assert(policy_in(rest) == Some(piece.skip(2)));
            return Some(slice_string(record, a + 2, b));
        }
        if end >= chars.len() {
            assert(policy_in(rest) is None);
            return None;
        }
        assert(rest.skip(end - start + 1) =~= record@.skip(end + 1));
        start = end + 1;
    }
}

/// Reads the lookups of the DNS group into the DNS entry of the report.
///
/// `mx` and `txt` are the outcomes of the two lookups for the domain
/// itself; the SPF and DMARC records are picked from the text records.
/// `autodiscover`, `lyncdiscover` and `sip` are what the checks with a
/// fallback came to. A value is held exactly where its flag says that the
/// record was found.
pub fn run_dns_checks(
    mx: &ProbeOutcome,
    txt: &ProbeOutcome,
    autodiscover: Option<String>,
    lyncdiscover: bool,
    sip: bool,
) -> (r: DnsResults)
    ensures
        r.is_consistent(),
        r.mx_records.deep_view() == found_records(lookup_answers(*mx)),
        r.mx_records_found == Some(verdict(*mx, ProbeKind::Dns) is Present),
        r.spf_record.deep_view() == first_record_with(lookup_answers(*txt), "v=spf1"@),
        r.spf_record_found == Some(r.spf_record is Some),
        r.dmarc_record.deep_view() == first_record_with(lookup_answers(*txt), "v=dmarc1"@),
        r.dmarc_record_found == Some(r.dmarc_record is Some),
        r.dmarc_policy.deep_view() == policy_of(r.dmarc_record.deep_view()),
        r.autodiscover_cname_or_a == autodiscover,
        r.lyncdiscover_present == Some(lyncdiscover),
        r.sip_cname_or_a_present == Some(sip),
        r.ms_txt_record is None,
        r.ms_txt_found is None,
        r.ms_adfs_auth_txt_record is None,
        r.ms_adfs_auth_txt_found is None,
        r.enterpriseregistration_txt_record is None,
        r.enterpriseregistration_txt_found is None,
        r.enterpriseenrollment_txt_record is None,
        r.enterpriseenrollment_txt_found is None,
        r.sipfederationtls_tcp_present is None,
        r.sip_tls_present is None,
{
    let mx_records = get_mx_records(mx);
    let txt_records = get_txt_records(txt);
    let spf_record = find_record(&txt_records, "v=spf1");
    let dmarc_record = find_record(&txt_records, "v=dmarc1");
    let dmarc_policy = match &dmarc_record {
        Some(record) => extract_dmarc_policy(Some(record.as_str())),
        None => None,
    };
    let mx_found = mx_records.len() > 0;
    assert(mx_records.deep_view().len() == mx_records@.len());
    let spf_found = spf_record.is_some();
    let dmarc_found = dmarc_record.is_some();
    DnsResults {
        mx_records: if mx_found {
            Some(mx_records)
        } else {
            None
        },
        mx_records_found: Some(mx_found),
        spf_record,
        spf_record_found: Some(spf_found),
        dmarc_record,
        dmarc_record_found: Some(dmarc_found),
        dmarc_policy,
        ms_txt_record: None,
        ms_txt_found: None,
        ms_adfs_auth_txt_record: None,
        ms_adfs_auth_txt_found: None,
        enterpriseregistration_txt_record: None,
        enterpriseregistration_txt_found: None,
        enterpriseenrollment_txt_record: None,
        enterpriseenrollment_txt_found: None,
        autodiscover_cname_or_a: autodiscover,
        lyncdiscover_present: Some(lyncdiscover),
        sip_cname_or_a_present: Some(sip),
        sipfederationtls_tcp_present: None,
        sip_tls_present: None,
    }
}

} // verus!
