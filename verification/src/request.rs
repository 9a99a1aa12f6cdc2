//! A request to the service as it goes over the wire: whoever sends it adds
//! nothing and leaves nothing out.

use vstd::prelude::*;
use vstd::string::*;

verus! {

/// The two methods the service is called with.
#[derive(Debug, Clone, Copy, PartialEq, Eq, Structural)]
pub enum Method {
    Get,
    Post,
}

/// An HTTPS request: the method, the address, the headers as pairs of name
/// and value in the order to send them, and the body if there is one.
#[derive(Debug, Clone, PartialEq, Eq)]
pub struct Request {
    pub method: Method,
    pub url: String,
    pub headers: Vec<(String, String)>,
    pub body: Option<String>,
}

/// The header that names the version of the API a request is written for.
pub open spec fn spec_api_version(version: Seq<char>) -> (Seq<char>, Seq<char>) {
    ("X-Api-Version"@, version)
}

/// Builds the header that names the API version.
pub fn api_version(version: &str) -> (r: (String, String))
    ensures
        r.deep_view() == spec_api_version(version@),
{
    ("X-Api-Version".to_owned(), version.to_owned())
}

/// The texts of `parts` in a row, with `separator` between each two.
pub open spec fn spec_joined(parts: Seq<Seq<char>>, separator: Seq<char>) -> Seq<char>
    decreases parts.len(),
{
    if parts.len() == 0 {
        Seq::empty()
    } else if parts.len() == 1 {
        parts[0]
    } else {
        spec_joined(parts.drop_last(), separator) + separator + parts.last()
    }
}

/// Writes the texts of `parts` in a row, with `separator` between each two.
pub fn joined(parts: &Vec<String>, separator: &str) -> (r: String)
    ensures
        r@ == spec_joined(parts.deep_view(), separator@),
{
    let ghost views = parts.deep_view();
    let mut out = String::new();
    let mut i: usize = 0;
    while i < parts.len()
        invariant
            i <= parts.len(),
            views == parts.deep_view(),
            out@ == spec_joined(views.take(i as int), separator@),
        decreases parts.len() - i,
    {
        proof {
            assert(views.take(i + 1).drop_last() =~= views.take(i as int));
            assert(views.take(i + 1).last() == parts[i as int]@);
            if i == 0 {
                assert(out@ + parts[0]@ =~= parts[0]@);
            }
        }
        if i > 0 {
            out.append(separator);
        }
        out.append(parts[i].as_str());
        i += 1;
    }
    proof {
        assert(views.take(parts.len() as int) =~= views);
    }
    out
}

} // verus!
