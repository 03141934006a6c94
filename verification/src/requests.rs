//! Building the authenticated `GET` request of an API call.
//!
//! A [`Request`] says what goes on the wire: the URL, the headers and the
//! query parameters. It is built from the configuration store at the moment
//! of the call, so a credential that was replaced in the store is used from
//! the next request on.

use crate::model::accounts::lemma_query_is_empty_without_parameters;
use crate::model::accounts::TransactionParams;
use crate::model::accounts::TransactionParamsView;
use crate::options::ConfigurationView;
use crate::options::Options;
use crate::query::query_string;
use crate::query::to_query_string;
use vstd::prelude::*;
use vstd::string::StringExecFns;

verus! {

/// Name of the header that carries the API key.
pub const API_KEY_HEADER: &'static str = "x-api-key";

/// Name of the header that carries the authorization.
pub const AUTHORIZATION_HEADER: &'static str = "Authorization";

/// Name of the header that says which form of answer is accepted.
pub const ACCEPT_HEADER: &'static str = "Accept";

/// The one form of answer that the client accepts.
pub const ACCEPT_JSON: &'static str = "application/json";

/// What stands before the token in the value of the authorization header.
pub const BEARER: &'static str = "Bearer ";

/// Mathematical model of a [`Request`].
pub ghost struct RequestView {
    pub url: Seq<char>,
    pub headers: Seq<(Seq<char>, Seq<char>)>,
    pub query: Seq<(Seq<char>, Seq<char>)>,
}

/// The URL of a request: the base URL and the path, one after the other.
/// Nothing is added or taken away at the joint.
pub open spec fn request_url(base_url: Seq<char>, path: Seq<char>) -> Seq<char> {
    base_url + path
}

/// The value of the authorization header for a token.
pub open spec fn bearer(authorization: Seq<char>) -> Seq<char> {
    BEARER@ + authorization
}

/// The three headers of every request, in the order in which they are set.
pub open spec fn standard_headers(api_key: Seq<char>, authorization: Seq<char>) -> Seq<
    (Seq<char>, Seq<char>),
> {
    seq![
        (API_KEY_HEADER@, api_key),
        (AUTHORIZATION_HEADER@, bearer(authorization)),
        (ACCEPT_HEADER@, ACCEPT_JSON@),
    ]
}

/// The query parameters of a request: those of the filters, where there are
/// any.
pub open spec fn query_of(query: Option<TransactionParamsView>) -> Seq<(Seq<char>, Seq<char>)> {
    match query {
        Some(params) => params.query_pairs(),
        None => Seq::empty(),
    }
}

/// The view of optional filters.
pub open spec fn view_of(query: Option<TransactionParams>) -> Option<TransactionParamsView> {
    match query {
        Some(params) => Some(params@),
        None => None,
    }
}

impl RequestView {
    /// The request for a URL, with no header and no query parameter yet.
    pub open spec fn to(url: Seq<char>) -> RequestView {
        RequestView { url, headers: Seq::empty(), query: Seq::empty() }
    }

    /// The request with the three standard headers added after those that it
    /// has.
    pub open spec fn with_standard_headers(
        self,
        api_key: Seq<char>,
        authorization: Seq<char>,
    ) -> RequestView {
        RequestView { headers: self.headers + standard_headers(api_key, authorization), ..self }
    }

    /// The request with the parameters of the filters added after those that
    /// it has.
    pub open spec fn with_query(self, query: Option<TransactionParamsView>) -> RequestView {
        RequestView { query: self.query + query_of(query), ..self }
    }

    /// The request that a configuration gives for a path and filters.
    pub open spec fn get(
        configuration: ConfigurationView,
        path: Seq<char>,
        query: Option<TransactionParamsView>,
    ) -> RequestView {
        RequestView {
            url: request_url(configuration.base_url, path),
            headers: standard_headers(configuration.api_key, configuration.authorization),
            query: query_of(query),
        }
    }

    /// What follows the method on the request line: the URL, and after a `?`
    /// the query string where it is not empty.
    pub open spec fn target(self) -> Seq<char> {
        if query_string(self.query).len() == 0 {
            self.url
        } else {
            self.url.push('?') + query_string(self.query)
        }
    }
}

/// The URL of a request begins with the base URL and ends with the path,
/// and holds nothing else. So where exactly one of the two brings the slash
/// between them, exactly one slash stands where they meet: none is missing
/// and none is doubled.
pub proof fn lemma_request_url_joint(base_url: Seq<char>, path: Seq<char>)
    ensures
        request_url(base_url, path).len() == base_url.len() + path.len(),
        request_url(base_url, path).take(base_url.len() as int) == base_url,
        request_url(base_url, path).skip(base_url.len() as int) == path,
        base_url.len() > 0 && path.len() > 0 && ((base_url.last() == '/') != (path.first() == '/'))
            ==> ((request_url(base_url, path)[base_url.len() - 1] == '/') != (request_url(
            base_url,
            path,
        )[base_url.len() as int] == '/')),
{
}

/// A request without filters, or with filters of which none is present, is
/// sent to the bare URL: no `?` follows it.
pub proof fn lemma_target_without_parameters(
    configuration: ConfigurationView,
    path: Seq<char>,
    query: Option<TransactionParamsView>,
)
    requires
        query is None || query == Some(TransactionParamsView::empty()),
    ensures
        RequestView::get(configuration, path, query).target() == request_url(
            configuration.base_url,
            path,
        ),
{
}

/// A request with at least one filter present is sent to the URL, `?` and
/// the query string of the filters.
pub proof fn lemma_target_with_parameters(
    configuration: ConfigurationView,
    path: Seq<char>,
    params: TransactionParamsView,
)
    requires
        params != TransactionParamsView::empty(),
    ensures
        RequestView::get(configuration, path, Some(params)).target() == request_url(
            configuration.base_url,
            path,
        ).push('?') + query_string(params.query_pairs()),
{
    lemma_query_is_empty_without_parameters(params);
}

/// A `GET` request that is ready to be sent.
#[derive(Debug)]
pub struct Request {
    url: String,
    headers: Vec<(String, String)>,
    query: Vec<(String, String)>,
}

impl View for Request {
    type V = RequestView;

    closed spec fn view(&self) -> RequestView {
        RequestView {
            url: self.url@,
            headers: self.headers.deep_view(),
            query: self.query.deep_view(),
        }
    }
}

impl Request {
    /// A request for the URL, with no header and no query parameter.
    pub fn new(url: String) -> (r: Request)
        ensures
            r@ == RequestView::to(url@),
    {
        let r = Request { url, headers: Vec::new(), query: Vec::new() };
        assert(r.headers.deep_view() == Seq::<(Seq<char>, Seq<char>)>::empty());
        assert(r.query.deep_view() == Seq::<(Seq<char>, Seq<char>)>::empty());
        r
    }

    /// Adds a header after those that the request has.
    pub fn header(self, name: String, value: String) -> (r: Request)
        ensures
            r@ == (RequestView { headers: self@.headers.push((name@, value@)), ..self@ }),
    {
        let mut request = self;
        request.headers.push((name, value));
        assert(request.headers.deep_view() == self.headers.deep_view().push((name@, value@)));
        request
    }

    /// Adds query parameters after those that the request has.
    pub fn query(self, pairs: Vec<(String, String)>) -> (r: Request)
        ensures
            r@ == (RequestView { query: self@.query + pairs.deep_view(), ..self@ }),
    {
        let mut request = self;
        let mut pairs = pairs;
        let ghost added = pairs.deep_view();
        request.query.append(&mut pairs);
        assert(request.query.deep_view() == self.query.deep_view() + added);
        request
    }

    /// The URL, without the query parameters.
    pub fn url(&self) -> (r: &String)
        ensures
            r@ == self@.url,
    {
        &self.url
    }

    /// The headers, in the order in which they were set.
    pub fn headers(&self) -> (r: &Vec<(String, String)>)
        ensures
            r.deep_view() == self@.headers,
    {
        &self.headers
    }

    /// The query parameters as names and texts, not yet encoded.
    pub fn query_pairs(&self) -> (r: &Vec<(String, String)>)
        ensures
            r.deep_view() == self@.query,
    {
        &self.query
    }

    /// The query string: the encoded parameters, joined by `&`.
    pub fn query_string(&self) -> (r: String)
        ensures
            r@ == query_string(self@.query),
    {
        to_query_string(&self.query)
    }

    /// What follows the method on the request line.
    pub fn target(&self) -> (r: String)
        ensures
            r@ == self@.target(),
    {
        let query = to_query_string(&self.query);
        let mut target = self.url.clone();
        if !query.as_str().is_empty() {
            target.push('?');
            target.append(query.as_str());
        }
        target
    }
}

/// Joins a base URL and a path.
pub fn join_url(base_url: &str, path: &str) -> (r: String)
    ensures
        r@ == request_url(base_url@, path@),
{
    let mut url = base_url.to_owned();
    url.append(path);
    url
}

/// The value of the authorization header for a token.
pub fn bearer_value(authorization: &str) -> (r: String)
    ensures
        r@ == bearer(authorization@),
{
    let mut value = BEARER.to_owned();
    value.append(authorization);
    value
}

/// Adds the three standard headers for the given credentials to a request.
pub fn add_standard_headers(builder: Request, api_key: String, authorization: String) -> (r:
    Request)
    ensures
        r@ == builder@.with_standard_headers(api_key@, authorization@),
{
    let r = builder.header(API_KEY_HEADER.to_owned(), api_key).header(
        AUTHORIZATION_HEADER.to_owned(),
        bearer_value(authorization.as_str()),
    ).header(ACCEPT_HEADER.to_owned(), ACCEPT_JSON.to_owned());
    assert(r@.headers == builder@.headers + standard_headers(api_key@, authorization@));
    r
}

/// The URL of a request for `url`: the base URL that the store holds now,
/// and `url` after it.
pub fn get_request_url(options: &Options, url: &str) -> (r: String)
    ensures
        exists|base_url: Seq<char>| r@ == #[trigger] request_url(base_url, url@),
{
    let base_url = options.base_url();
    let r = join_url(base_url.as_str(), url);
    assert(r@ == request_url(base_url@, url@));
    r
}

/// Sets the headers that every request needs, with the credentials that the
/// store holds now. The API key and the authorization are read from the
/// store one after the other.
pub fn set_headers(options: &Options, builder: Request) -> (r: Request)
    ensures
        exists|api_key: Seq<char>, authorization: Seq<char>|
            r@ == #[trigger] builder@.with_standard_headers(api_key, authorization),
{
    let api_key = options.api_key();
    let authorization = options.authorization();
    let ghost key = api_key@;
    let ghost token = authorization@;
    let r = add_standard_headers(builder, api_key, authorization);
    assert(r@ == builder@.with_standard_headers(key, token));
    r
}

/// Sets the query parameters of a request: those of the filters, where
/// there are any.
pub fn set_query_params(query: Option<TransactionParams>, builder: Request) -> (r: Request)
    ensures
        r@ == builder@.with_query(view_of(query)),
{
    match query {
        Some(params) => builder.query(params.query_pairs()),
        None => {
            assert(builder@.query + Seq::<(Seq<char>, Seq<char>)>::empty() == builder@.query);
            builder
        },
    }
}

/// The requests of the API clients.
pub struct Requests;

impl Requests {
    /// Builds the `GET` request for a path of the API, with the base URL and
    /// the credentials that the store holds now.
    ///
    /// The settings are read from the store one by one, so a write that
    /// comes in between shows in the settings read after it. The request is
    /// that of some configuration: no more can be said of a shared store.
    pub fn get(options: &Options, url: &str, query: Option<TransactionParams>) -> (r: Request)
        ensures
            exists|configuration: ConfigurationView|
                r@ == #[trigger] RequestView::get(configuration, url@, view_of(query)),
    {
        let address = get_request_url(options, url);
        let ghost sent_to = address@;
        let builder = set_query_params(query, Request::new(address));
        let ghost unsigned = builder@;
        let r = set_headers(options, builder);
        proof {
            let base_url = choose|base_url: Seq<char>|
                sent_to == #[trigger] request_url(base_url, url@);
            let (api_key, authorization) = choose|api_key: Seq<char>, authorization: Seq<char>|
                r@ == #[trigger] unsigned.with_standard_headers(api_key, authorization);
            let configuration = ConfigurationView {
                api_key,
                authorization,
                version: Seq::empty(),
                base_url,
            };
            assert(r@.headers == standard_headers(api_key, authorization));
            assert(r@.query == query_of(view_of(query)));
            assert(r@ == RequestView::get(configuration, url@, view_of(query)));
        }
        r
    }
}

} // verus!
