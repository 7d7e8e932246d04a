//! The realm lookup: whether a domain is managed or federated.
//!
//! The answer is markup, and only two of its elements are read. They are
//! found by their tags as plain text; an element that is missing is an
//! absent value, never an error.

use crate::config::CloudConfig;
use crate::error::ReconError;
use crate::models::FederationInfo;
use crate::recon::probe::{is_success, status_is_success, ProbeOutcome};
use crate::text::{
    find, find_from, find_in, lemma_find_from_is_least, occurs_at, slice_string, to_chars,
};
use vstd::prelude::*;
use vstd::string::*;

verus! {

/// The opening tag of the element `name`.
pub open spec fn opening_tag(name: Seq<char>) -> Seq<char> {
    seq!['<'] + name + seq!['>']
}

/// The closing tag of the element `name`.
pub open spec fn closing_tag(name: Seq<char>) -> Seq<char> {
    seq!['<', '/'] + name + seq!['>']
}

/// The text between the first opening tag of `name` in `xml` and the first
/// closing tag that follows it; nothing where either tag is missing.
pub open spec fn tag_value(xml: Seq<char>, name: Seq<char>) -> Option<Seq<char>> {
    match find(xml, opening_tag(name)) {
        None => None,
        Some(at) => {
            let start = at + opening_tag(name).len();
            match find_from(xml, closing_tag(name), start) {
                None => None,
                Some(end) => Some(xml.subrange(start, end)),
            }
        },
    }
}

/// The address of the realm lookup for the made-up user `recon` of
/// `domain`, with the answer asked for as markup.
pub open spec fn realm_lookup_address(domain: Seq<char>, config: CloudConfig) -> Seq<char> {
    config.user_realm_endpoint@ + "?login=recon@"@ + domain + "&xml=1"@
}

/// What is shown for a namespace type that the answer does not state.
pub open spec fn namespace_or_unknown(value: Option<Seq<char>>) -> Seq<char> {
    match value {
        Some(text) => text,
        None => "Unknown"@,
    }
}

/// What stands for a body that could not be read.
pub open spec fn body_or_note(body: Option<String>) -> Seq<char> {
    match body {
        Some(text) => text@,
        None => "<failed to read body>"@,
    }
}

/// The address to ask for the realm of `domain`.
pub fn realm_lookup_url(domain: &str, cloud_config: &CloudConfig) -> (r: String)
    ensures
        r@ == realm_lookup_address(domain@, *cloud_config),
{
    let mut url = cloud_config.user_realm_endpoint.clone();
    url.append("?login=recon@");
    url.append(domain);
    url.append("&xml=1");
    url
}

fn tag_chars(name: &Vec<char>, closing: bool) -> (r: Vec<char>)
    ensures
        r@ == if closing {
            closing_tag(name@)
        } else {
            opening_tag(name@)
        },
{
    let mut tag: Vec<char> = Vec::new();
    tag.push('<');
    if closing {
        tag.push('/');
    }
    let ghost head = tag@;
    let mut i: usize = 0;
    while i < name.len()
        invariant
            i <= name.len(),
            tag@ == head + name@.take(i as int),
        decreases name.len() - i,
    {
        tag.push(name[i]);
        assert(tag@ =~= head + name@.take(i + 1));
        i = i + 1;
    }
    assert(name@.take(i as int) =~= name@);
    tag.push('>');
    assert(tag@ =~= head + name@ + seq!['>']);
    assert(closing ==> head =~= seq!['<', '/']);
    assert(!closing ==> head =~= seq!['<']);
    tag
}

/// Simple helper to extract the value from an XML tag.
/// Example: `<Tag>Value</Tag>` gives `Value`.
pub fn extract_xml_tag_value(xml: &str, tag_name: &str) -> (r: Option<String>)
    ensures
        r.deep_view() == tag_value(xml@, tag_name@),
{
    let chars = to_chars(xml);
    let name = to_chars(tag_name);
    let start_tag = tag_chars(&name, false);
    let end_tag = tag_chars(&name, true);
    match find_in(&chars, &start_tag, 0) {
        None => None,
        Some(at) => {
            proof {
                lemma_find_from_is_least(chars@, start_tag@, 0);
                assert(occurs_at(chars@, start_tag@, at as int));
                assert(at + start_tag@.len() <= chars.len());
            }
            let value_start = at + start_tag.len();
            match find_in(&chars, &end_tag, value_start) {
                None => None,
                Some(end) => {
                    proof {
                        lemma_find_from_is_least(chars@, end_tag@, value_start as int);
                        assert(occurs_at(chars@, end_tag@, end as int));
                    }
                    Some(slice_string(xml, value_start, end))
                },
            }
        },
    }
}

/// Reads the answer of the realm lookup. Only an answer with a status
/// from 200 to 299 is read for its content; any other status, and a
/// request that got no answer, is the failure of this probe.
pub fn get_federation_info(outcome: &ProbeOutcome) -> (r: Result<FederationInfo, ReconError>)
    ensures
        r is Ok <==> (*outcome matches ProbeOutcome::Http { status, body } && status_is_success(
            status,
        ) && body is Some),
        match *outcome {
            ProbeOutcome::Http { status, body } => {
                if !status_is_success(status) {
                    r matches Err(
                        ReconError::UnexpectedApiResponse { service, status: got, body: text },
                    ) && service@ == "GetUserRealm"@ && got == status && text@ == body_or_note(
                        body,
                    )
                } else {
                    match body {
                        None => r matches Err(ReconError::Network(_)),
                        Some(text) => {
                            &&& r matches Ok(info)
                            &&& info.is_federated
                            &&& info.name_space_type.deep_view() == Some(
                                namespace_or_unknown(tag_value(text@, "NameSpaceType"@)),
                            )
                            &&& info.federation_brand_name.deep_view() == tag_value(
                                text@,
                                "FederationBrandName"@,
                            )
                            &&& info.auth_url is None
                            &&& info.cloud_instance_name is None
                        },
                    }
                }
            },
            ProbeOutcome::Failed { kind, detail } => r == Err::<FederationInfo, ReconError>(
                ReconError::Network(detail),
            ),
            ProbeOutcome::Dns { answers } => r matches Err(ReconError::MissingData(_)),
        },
{
    match outcome {
        ProbeOutcome::Failed { kind, detail } => Err(ReconError::Network(detail.clone())),
        ProbeOutcome::Dns { answers } => Err(
            ReconError::MissingData(String::from_str("the realm lookup got no HTTP answer")),
        ),
        ProbeOutcome::Http { status, body } => {
            if !is_success(*status) {
                let text = match body {
                    Some(text) => text.clone(),
                    None => String::from_str("<failed to read body>"),
                };
                return Err(
                    ReconError::UnexpectedApiResponse {
                        service: String::from_str("GetUserRealm"),
                        status: *status,
                        body: text,
                    },
                );
            }
            match body {
                None => Err(ReconError::Network(String::from_str("<failed to read body>"))),
                Some(text) => {
                    let name_space_type = match extract_xml_tag_value(
                        text.as_str(),
                        "NameSpaceType",
                    ) {
                        Some(value) => value,
                        None => String::from_str("Unknown"),
                    };
                    let federation_brand_name = extract_xml_tag_value(
                        text.as_str(),
                        "FederationBrandName",
                    );
                    Ok(
                        FederationInfo {
                            is_federated: true,
                            name_space_type: Some(name_space_type),
                            federation_brand_name,
                            auth_url: None,
                            cloud_instance_name: None,
                        },
                    )
                },
            }
        },
    }
}

} // verus!
