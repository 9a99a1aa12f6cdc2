//! Asking the service for the instances that match a server name, and
//! reading its answer down to the addresses one can connect to.

use vstd::prelude::*;
use vstd::string::*;
use crate::connect::ConnectionTarget;
use crate::error::Error;
use crate::request::{api_version, joined, spec_api_version, spec_joined, Method, Request};
use crate::json::{member, spec_member, spec_text, texts, JsonValue};
use crate::sequences::spec_all;
use crate::session::{jar_cookies, jar_pairs, lists_cookies, SessionHandle};
use crate::text::{decimal, push_signed_decimal};

verus! {

/// A running instance as the service lists it.
#[derive(Debug, Clone, PartialEq, Eq)]
pub struct Instance {
    pub name: String,
    pub public_ip_addresses: Vec<String>,
}

impl DeepView for Instance {
    type V = (Seq<char>, Seq<Seq<char>>);

    open spec fn deep_view(&self) -> Self::V {
        (self.name@, self.public_ip_addresses.deep_view())
    }
}

/// The name filter of a query: the pattern itself for an exact match, else
/// the pattern between two wildcards, each an encoded `%`.
pub open spec fn spec_filter(pattern: Seq<char>, exact_match: bool) -> Seq<char> {
    if exact_match {
        pattern
    } else {
        "%25"@ + pattern + "%25"@
    }
}

/// Builds the name filter for `pattern`.
pub fn build_filter(pattern: &str, exact_match: bool) -> (r: String)
    ensures
        r@ == spec_filter(pattern@, exact_match),
{
    if exact_match {
        pattern.to_owned()
    } else {
        let mut out = "%25".to_owned();
        out.append(pattern);
        out.append("%25");
        out
    }
}

/// The address of the listing on a shard: instances whose name passes the
/// filter and whose state is operational. The `=` and `&` inside the filter
/// parameter are encoded.
pub open spec fn spec_instances_url(shard_host: Seq<char>, filter: Seq<char>) -> Seq<char> {
    "https://"@ + shard_host + "/api/instances?filter=name%3D"@ + filter
        + "%26state%3Doperational"@
}

/// Builds the address of the listing.
pub fn instances_url(shard_host: &str, filter: &str) -> (r: String)
    ensures
        r@ == spec_instances_url(shard_host@, filter@),
{
    let mut out = "https://".to_owned();
    out.append(shard_host);
    out.append("/api/instances?filter=name%3D");
    out.append(filter);
    out.append("%26state%3Doperational");
    out
}

/// A cookie as it travels in a `Cookie` header.
pub open spec fn spec_cookie_text(pair: (Seq<char>, Seq<char>)) -> Seq<char> {
    pair.0 + "="@ + pair.1
}

/// The cookies of a list, each as it travels, in the list's order.
pub open spec fn spec_cookie_texts(pairs: Seq<(Seq<char>, Seq<char>)>) -> Seq<Seq<char>> {
    pairs.map_values(|pair: (Seq<char>, Seq<char>)| spec_cookie_text(pair))
}

/// Writes each cookie as `name=value`, keeping the order.
pub fn cookie_texts(pairs: &Vec<(String, String)>) -> (r: Vec<String>)
    ensures
        r.deep_view() == spec_cookie_texts(pairs.deep_view()),
{
    let mut out: Vec<String> = Vec::new();
    let mut i: usize = 0;
    while i < pairs.len()
        invariant
            i <= pairs.len(),
            out.len() == i,
            forall|j: int|
                0 <= j < i ==> (#[trigger] out@[j])@ == spec_cookie_text(pairs@[j].deep_view()),
        decreases pairs.len() - i,
    {
        let mut text = pairs[i].0.clone();
        text.append("=");
        text.append(pairs[i].1.as_str());
        out.push(text);
        i += 1;
    }
    assert(out.deep_view() =~= spec_cookie_texts(pairs.deep_view()));
    out
}

/// The `Cookie` header that carries the cookies of a list: each as
/// `name=value`, with `; ` between them.
pub open spec fn spec_cookie_header(pairs: Seq<(Seq<char>, Seq<char>)>) -> (Seq<char>, Seq<char>) {
    ("Cookie"@, spec_joined(spec_cookie_texts(pairs), "; "@))
}

/// The headers of the query: the API version, 1.6; the account the query is
/// made for; and the cookies of the session.
pub open spec fn spec_query_headers(account: int, pairs: Seq<(Seq<char>, Seq<char>)>) -> Seq<
    (Seq<char>, Seq<char>),
> {
    seq![spec_api_version("1.6"@), ("X-Account"@, decimal(account)), spec_cookie_header(pairs)]
}

/// The query for the instances on the shard of a session: a GET without a
/// body.
pub open spec fn is_query(
    request: Request,
    shard_host: Seq<char>,
    target: ConnectionTarget,
    pairs: Seq<(Seq<char>, Seq<char>)>,
) -> bool {
    &&& request.method == Method::Get
    &&& request.url@ == spec_instances_url(
        shard_host,
        spec_filter(target.server_pattern@, target.exact_match),
    )
    &&& request.headers.deep_view() == spec_query_headers(target.account_id as int, pairs)
    &&& request.body is None
}

/// Builds the query for a target that carries the cookies listed.
pub fn query(shard_host: &str, target: &ConnectionTarget, pairs: &Vec<(String, String)>) -> (r:
    Request)
    ensures
        is_query(r, shard_host@, *target, pairs.deep_view()),
{
    let filter = build_filter(target.server_pattern.as_str(), target.exact_match);
    let url = instances_url(shard_host, filter.as_str());
    let mut account = String::new();
    push_signed_decimal(&mut account, target.account_id);
    let cookies = joined(&cookie_texts(pairs), "; ");
    let mut headers: Vec<(String, String)> = Vec::new();
    headers.push(api_version("1.6"));
    headers.push(("X-Account".to_owned(), account));
    headers.push(("Cookie".to_owned(), cookies));
    assert(headers.deep_view() =~= spec_query_headers(
        target.account_id as int,
        pairs.deep_view(),
    ));
    Request { method: Method::Get, url, headers, body: None }
}

/// Builds the query that a session sends for a target. The cookies are
/// those of the session, each once; the jar decides their order.
pub fn discovery_request(session: &SessionHandle, target: &ConnectionTarget) -> (r: Request)
    ensures
        exists|pairs: Seq<(Seq<char>, Seq<char>)>|
            lists_cookies(pairs, jar_cookies(session.cookies)) && #[trigger] is_query(
                r,
                session.shard_host@,
                *target,
                pairs,
            ),
{
    let pairs = jar_pairs(&session.cookies);
    let r = query(session.shard_host.as_str(), target, &pairs);
    assert(lists_cookies(pairs.deep_view(), jar_cookies(session.cookies)) && is_query(
        r,
        session.shard_host@,
        *target,
        pairs.deep_view(),
    ));
    r
}

/// The instance that a JSON value describes: an object whose `name` is a
/// string and whose `public_ip_addresses` is a list of strings. Other
/// members do not matter.
pub open spec fn spec_instance(value: JsonValue) -> Option<(Seq<char>, Seq<Seq<char>>)> {
    match value {
        JsonValue::Object(members) => match (
            spec_member(members@, "name"@),
            spec_member(members@, "public_ip_addresses"@),
        ) {
            (Some(JsonValue::Text(name)), Some(JsonValue::List(items))) => match spec_all(
                items@,
                |item: JsonValue| spec_text(item),
            ) {
                Some(addresses) => Some((name@, addresses)),
                None => None,
            },
            _ => None,
        },
        _ => None,
    }
}

/// The instances that a JSON document lists: it has to be a list, and every
/// item of it an instance.
pub open spec fn spec_instances(document: JsonValue) -> Option<Seq<(Seq<char>, Seq<Seq<char>>)>> {
    match document {
        JsonValue::List(items) => spec_all(items@, |item: JsonValue| spec_instance(item)),
        _ => None,
    }
}

/// Reads one instance out of a JSON value.
pub fn instance(value: &JsonValue) -> (r: Option<Instance>)
    ensures
        r.deep_view() == spec_instance(*value),
{
    let members = match value {
        JsonValue::Object(members) => members,
        _ => {
            return None;
        },
    };
    let name = match member(members, "name") {
        Some(JsonValue::Text(name)) => name.clone(),
        _ => {
            return None;
        },
    };
    let addresses = match member(members, "public_ip_addresses") {
        Some(JsonValue::List(items)) => texts(items),
        _ => {
            return None;
        },
    };
    match addresses {
        Some(public_ip_addresses) => Some(Instance { name, public_ip_addresses }),
        None => None,
    }
}

/// Reads the instances out of a JSON document.
pub fn instances(document: &JsonValue) -> (r: Option<Vec<Instance>>)
    ensures
        r.deep_view() == spec_instances(*document),
{
    let items = match document {
        JsonValue::List(items) => items,
        _ => {
            return None;
        },
    };
    let ghost read = |item: JsonValue| spec_instance(item);
    let mut out: Vec<Instance> = Vec::new();
    let mut i: usize = 0;
    while i < items.len()
        invariant
            i <= items.len(),
            out.len() == i,
            *document == JsonValue::List(*items),
            read == |item: JsonValue| spec_instance(item),
            forall|j: int| 0 <= j < i ==> #[trigger] read(items@[j]) == Some(out@[j].deep_view()),
        decreases items.len() - i,
    {
        match instance(&items[i]) {
            Some(found) => {
                out.push(found);
            },
            None => {
                assert(read(items@[i as int]) is None);
                return None;
            },
        }
        i += 1;
    }
    assert(out.deep_view() =~= Seq::new(items@.len(), |i: int| read(items@[i])->0));
    Some(out)
}

/// Whether an instance has a public address.
pub open spec fn has_public_ip(instance: (Seq<char>, Seq<Seq<char>>)) -> bool {
    instance.1.len() > 0
}

/// An instance reduced to its name and its first public address.
pub open spec fn spec_candidate(instance: (Seq<char>, Seq<Seq<char>>)) -> (Seq<char>, Seq<char>) {
    (instance.0, instance.1[0])
}

/// The servers one can connect to: the instances that have a public
/// address, in the order listed, each with the first of its addresses.
pub open spec fn spec_candidates(instances: Seq<(Seq<char>, Seq<Seq<char>>)>) -> Seq<
    (Seq<char>, Seq<char>),
> {
    instances.filter(|instance: (Seq<char>, Seq<Seq<char>>)| has_public_ip(instance)).map_values(
        |instance: (Seq<char>, Seq<Seq<char>>)| spec_candidate(instance),
    )
}

/// Listing one more instance adds its candidate at the end, if it has one.
pub proof fn lemma_candidates_push(
    instances: Seq<(Seq<char>, Seq<Seq<char>>)>,
    next: (Seq<char>, Seq<Seq<char>>),
)
    ensures
        spec_candidates(instances.push(next)) == if has_public_ip(next) {
            spec_candidates(instances).push(spec_candidate(next))
        } else {
            spec_candidates(instances)
        },
{
    let keep = |instance: (Seq<char>, Seq<Seq<char>>)| has_public_ip(instance);
    let longer = instances.push(next);
    reveal(Seq::filter);
    assert(longer.drop_last() =~= instances);
    assert(longer.filter(keep) == if keep(next) {
        instances.filter(keep).push(next)
    } else {
        instances.filter(keep)
    });
    assert(spec_candidates(longer) =~= if has_public_ip(next) {
        spec_candidates(instances).push(spec_candidate(next))
    } else {
        spec_candidates(instances)
    });
}

/// There are exactly as many candidates as instances with a public address:
/// an instance without one never becomes a candidate.
pub proof fn lemma_candidates_len(instances: Seq<(Seq<char>, Seq<Seq<char>>)>)
    ensures
        spec_candidates(instances).len() == instances.filter(
            |instance: (Seq<char>, Seq<Seq<char>>)| has_public_ip(instance),
        ).len(),
{
}

/// Reduces the instances listed to the servers one can connect to.
pub fn candidates(instances: &Vec<Instance>) -> (r: Vec<(String, String)>)
    ensures
        r.deep_view() == spec_candidates(instances.deep_view()),
        r.len() == instances.deep_view().filter(
            |instance: (Seq<char>, Seq<Seq<char>>)| has_public_ip(instance),
        ).len(),
{
    let ghost views = instances.deep_view();
    let mut out: Vec<(String, String)> = Vec::new();
    let mut i: usize = 0;
    assert(views.take(0) =~= Seq::empty());
    assert(spec_candidates(Seq::empty()) =~= Seq::empty()) by {
        reveal(Seq::filter);
    }
    while i < instances.len()
        invariant
            i <= instances.len(),
            views == instances.deep_view(),
            out.deep_view() == spec_candidates(views.take(i as int)),
        decreases instances.len() - i,
    {
        proof {
            lemma_candidates_push(views.take(i as int), views[i as int]);
            assert(views.take(i as int).push(views[i as int]) =~= views.take(i + 1));
        }
        let ghost before = out.deep_view();
        if instances[i].public_ip_addresses.len() > 0 {
            let pair = (instances[i].name.clone(), instances[i].public_ip_addresses[0].clone());
            out.push(pair);
            assert(out.deep_view() =~= before.push(spec_candidate(views[i as int])));
        }
        i += 1;
    }
    assert(views.take(instances.len() as int) =~= views);
    out
}

/// What the caller saw of the answer to the query.
#[derive(Debug, PartialEq, Eq)]
pub struct InstancesResponse {
    /// The HTTP status.
    pub status: u16,
    /// The body as a JSON document, `None` where it is not JSON.
    pub body: Option<JsonValue>,
}

/// What an answer to the query means. Any status but 200 is a failed query.
/// A body that is not a list of instances is malformed. Otherwise the
/// answer is the list of candidates, which may be empty.
pub open spec fn spec_find_ips(status: u16, body: Option<JsonValue>) -> Result<
    Seq<(Seq<char>, Seq<char>)>,
    Error,
> {
    if status != 200 {
        Err(Error::QueryFailed(status))
    } else {
        match body {
            Some(document) => match spec_instances(document) {
                Some(listed) => Ok(spec_candidates(listed)),
                None => Err(Error::MalformedResponse),
            },
            None => Err(Error::MalformedResponse),
        }
    }
}

/// Reads the answer to the query down to the name and address of every
/// server one can connect to.
pub fn find_ips(response: &InstancesResponse) -> (r: Result<Vec<(String, String)>, Error>)
    ensures
        match r {
            Ok(found) => spec_find_ips(response.status, response.body) == Ok::<
                Seq<(Seq<char>, Seq<char>)>,
                Error,
            >(found.deep_view()),
            Err(error) => spec_find_ips(response.status, response.body) == Err::<
                Seq<(Seq<char>, Seq<char>)>,
                Error,
            >(error),
        },
{
    if response.status != 200 {
        return Err(Error::QueryFailed(response.status));
    }
    let listed = match &response.body {
        Some(document) => instances(document),
        None => None,
    };
    match listed {
        Some(listed) => Ok(candidates(&listed)),
        None => Err(Error::MalformedResponse),
    }
}

} // verus!
