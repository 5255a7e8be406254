use vstd::prelude::*;

use crate::encode::{encode_component, encoded_component};
use crate::error::SanityError;

verus! {

/// The host part that follows the project id in every data endpoint.
pub open spec fn endpoint_middle() -> Seq<char> {
    ".api.sanity.io/v1/data/query/"@
}

/// `https://{project_id}.api.sanity.io/v1/data/query/{data_set}`
pub open spec fn data_endpoint(project_id: Seq<char>, data_set: Seq<char>) -> Seq<char> {
    "https://"@ + project_id + endpoint_middle() + data_set
}

/// `{base_url}?query={query}`
pub open spec fn with_query(base_url: Seq<char>, query: Seq<char>) -> Seq<char> {
    base_url + "?query="@ + query
}

/// `Bearer {token}`, the value of the `Authorization` header.
pub open spec fn bearer_value(token: Seq<char>) -> Seq<char> {
    "Bearer "@ + token
}

/// The URL that `build_url` gives for a base URL, the stored query and the
/// query passed in, if any: the query passed in wins over the stored one.
pub open spec fn built_url(
    base_url: Seq<char>,
    stored: Option<Seq<char>>,
    given: Option<Seq<char>>,
) -> Option<Seq<char>> {
    match given {
        Some(q) => Some(with_query(base_url, q)),
        None => match stored {
            Some(q) => Some(with_query(base_url, q)),
            None => None,
        },
    }
}

/// The view of an optional string.
pub open spec fn opt_view(s: Option<String>) -> Option<Seq<char>> {
    match s {
        Some(t) => Some(t@),
        None => None,
    }
}

/// The view of an optional string slice.
pub open spec fn opt_str_view(s: Option<&str>) -> Option<Seq<char>> {
    match s {
        Some(t) => Some(t@),
        None => None,
    }
}

/// The data endpoint is a function of the project id and data set alone (so
/// `get_url`, whose result it fixes, gives equal strings on equal inputs), and
/// has the shape `https://{project_id}.api.sanity.io/v1/data/query/{data_set}`:
/// the scheme, then the project id, then the fixed host and path, then the
/// data set, with nothing else.
pub proof fn endpoint_shape(project_id: Seq<char>, data_set: Seq<char>)
    ensures
        ({
            let r = data_endpoint(project_id, data_set);
            &&& r.len() == 8 + project_id.len() + 29 + data_set.len()
            &&& r.subrange(0, 8) == "https://"@
            &&& r.subrange(8, 8 + project_id.len() as int) == project_id
            &&& r.subrange(8 + project_id.len() as int, 8 + project_id.len() as int + 29) == endpoint_middle()
            &&& r.subrange(r.len() - data_set.len() as int, r.len() as int) == data_set
        }),
{
    reveal_strlit("https://");
    reveal_strlit(".api.sanity.io/v1/data/query/");
    let r = data_endpoint(project_id, data_set);
    let n = project_id.len() as int;
    assert(r.subrange(0, 8) =~= "https://"@);
    assert(r.subrange(8, 8 + n) =~= project_id);
    assert(r.subrange(8 + n, 8 + n + 29) =~= endpoint_middle());
    assert(r.subrange(r.len() - data_set.len() as int, r.len() as int) =~= data_set);
}

/// A query passed to `build_url` takes precedence: whatever query is stored,
/// the URL is `{base_url}?query={query}` for the one passed in.
pub proof fn given_query_wins(
    base_url: Seq<char>,
    stored_a: Option<Seq<char>>,
    stored_b: Option<Seq<char>>,
    query: Seq<char>,
)
    ensures
        built_url(base_url, stored_a, Some(query)) == built_url(base_url, stored_b, Some(query)),
        built_url(base_url, stored_a, Some(query)) == Some(with_query(base_url, query)),
{
}

/// With no query passed in and none stored, no URL can be built.
pub proof fn no_query_no_url(base_url: Seq<char>)
    ensures
        built_url(base_url, None, None) is None,
{
}

/// Identity and endpoint of one project and data set.
#[derive(Debug, Clone)]
pub struct SanityConfig {
    project_id: String,
    access_token: String,
    data_set: String,
    url: String,
    pub query: Query,
}

/// A base URL and the query text to send to it, if one was set.
#[derive(Debug, Clone)]
pub struct Query {
    base_url: String,
    pub query: Option<String>,
}

/// An HTTP GET to be sent: its URL and the value of its `Authorization`
/// header, when it has one.
#[derive(Debug, Clone)]
pub struct HttpRequest {
    pub url: String,
    pub authorization: Option<String>,
}

impl SanityConfig {
    pub closed spec fn spec_project_id(&self) -> Seq<char> {
        self.project_id@
    }

    pub closed spec fn spec_access_token(&self) -> Seq<char> {
        self.access_token@
    }

    pub closed spec fn spec_data_set(&self) -> Seq<char> {
        self.data_set@
    }

    pub closed spec fn spec_url(&self) -> Seq<char> {
        self.url@
    }

    pub closed spec fn spec_query(&self) -> Query {
        self.query
    }

    /// The endpoint is the one that the project id and data set determine,
    /// and queries go to it.
    pub closed spec fn wf(&self) -> bool {
        &&& self.url@ == data_endpoint(self.project_id@, self.data_set@)
        &&& self.query.base_url@ == self.url@
    }
}

impl Query {
    pub closed spec fn spec_base_url(&self) -> Seq<char> {
        self.base_url@
    }

    pub closed spec fn spec_stored(&self) -> Option<Seq<char>> {
        opt_view(self.query)
    }
}

/// Builds the configuration of one project and data set, with no query set.
/// The query base URL is the data endpoint in production and elsewhere alike,
/// so `use_prod` changes nothing.
#[allow(unused_variables)]
pub fn create(project_id: &str, data_set: &str, token: &str, use_prod: bool) -> (r: SanityConfig)
    ensures
        r.wf(),
        r.spec_project_id() == project_id@,
        r.spec_data_set() == data_set@,
        r.spec_access_token() == token@,
        r.spec_url() == data_endpoint(project_id@, data_set@),
        r.spec_query().spec_base_url() == data_endpoint(project_id@, data_set@),
        r.spec_query().spec_stored() is None,
{
    let base_url = get_url(project_id, data_set);
    SanityConfig {
        project_id: String::from_str(project_id),
        access_token: String::from_str(token),
        data_set: String::from_str(data_set),
        url: get_url(project_id, data_set),
        query: Query { base_url, query: None },
    }
}

/// The URL of the data endpoint of a project and data set.
/// Inputs are not validated: empty strings give a well-formed string.
pub fn get_url(project_id: &str, data_set: &str) -> (r: String)
    ensures
        r@ == data_endpoint(project_id@, data_set@),
{
    let mut url = String::from_str("https://");
    url.append(project_id);
    url.append(".api.sanity.io/v1/data/query/");
    url.append(data_set);
    url
}

fn url_with_query(base_url: &String, query: &str) -> (r: String)
    ensures
        r@ == with_query(base_url@, query@),
{
    let mut url = base_url.clone();
    url.append("?query=");
    url.append(query);
    url
}

impl Query {
    /// The anonymous request for the stored query, as stored, against the
    /// base URL: `{base_url}?query={query}`, with no `Authorization` header.
    pub fn execute_request(&self) -> (r: Result<HttpRequest, SanityError>)
        ensures
            self.spec_stored() is None <==> r matches Err(SanityError::MissingQuery),
            self.spec_stored() is Some ==> r is Ok,
            r matches Ok(req) ==> {
                &&& req.url@ == with_query(self.spec_base_url(), self.spec_stored()->Some_0)
                &&& req.authorization is None
            },
    {
        match &self.query {
            Some(q) => {
                let url = url_with_query(&self.base_url, q.as_str());
                Ok(HttpRequest { url, authorization: None })
            },
            None => Err(SanityError::MissingQuery),
        }
    }
}

impl SanityConfig {
    /// Stores `query` (or clears the stored query) and changes nothing else.
    pub fn set_query(&mut self, query: Option<&str>)
        ensures
            final(self).spec_query().spec_stored() == opt_str_view(query),
            final(self).spec_query().spec_base_url() == old(self).spec_query().spec_base_url(),
            final(self).spec_project_id() == old(self).spec_project_id(),
            final(self).spec_access_token() == old(self).spec_access_token(),
            final(self).spec_data_set() == old(self).spec_data_set(),
            final(self).spec_url() == old(self).spec_url(),
            old(self).wf() ==> final(self).wf(),
    {
        self.query.query = match query {
            Some(q) => Some(String::from_str(q)),
            None => None,
        };
    }

    /// `{base_url}?query={query}` for the query passed in, or else for the
    /// stored one; `MissingQuery` when there is neither.
    pub fn build_url(&mut self, query: Option<&str>) -> (r: Result<String, SanityError>)
        ensures
            *final(self) == *old(self),
            r is Ok <==> built_url(
                old(self).spec_query().spec_base_url(),
                old(self).spec_query().spec_stored(),
                opt_str_view(query),
            ) is Some,
            r matches Ok(u) ==> u@ == built_url(
                old(self).spec_query().spec_base_url(),
                old(self).spec_query().spec_stored(),
                opt_str_view(query),
            )->Some_0,
            r is Err ==> r matches Err(SanityError::MissingQuery),
    {
        match query {
            Some(q) => Ok(url_with_query(&self.query.base_url, q)),
            None => match &self.query.query {
                Some(q) => Ok(url_with_query(&self.query.base_url, q.as_str())),
                None => Err(SanityError::MissingQuery),
            },
        }
    }

    /// The authenticated request for `query`: the percent-encoded query
    /// against the query base URL (the endpoint, for a configuration that
    /// `create` built), with `Authorization: Bearer {token}`.
    pub fn get_request(&mut self, query: &str) -> (r: HttpRequest)
        ensures
            *final(self) == *old(self),
            r.url@ == with_query(old(self).spec_query().spec_base_url(), encoded_component(query@)),
            old(self).wf() ==> r.url@ == with_query(
                data_endpoint(old(self).spec_project_id(), old(self).spec_data_set()),
                encoded_component(query@),
            ),
            r.authorization matches Some(a) && a@ == bearer_value(old(self).spec_access_token()),
    {
        let encoded = encode_component(query);
        let url = match self.build_url(Some(encoded.as_str())) {
            Ok(u) => u,
            // a query is given, so the URL is always built
            Err(_) => String::new(),
        };
        let mut auth = String::from_str("Bearer ");
        auth.append(self.access_token.as_str());
        HttpRequest { url, authorization: Some(auth) }
    }
}

} // verus!
