use std::sync::Arc;
use vstd::prelude::*;
use vstd::std_specs::convert::TryFromSpecImpl;
use vstd::string::StringExecFns;
use crate::error::ClientError;
use crate::outside::describe_invalid_uri;
use crate::outside::empty_body;
use crate::outside::parse_uri;
use crate::outside::uri_of;

verus! {

/// What a request carries besides its address.
pub trait Query {
    /// The query as it is appended to the address.
    fn to_string(&self) -> crate::error::Result<String>;
}

/// The method of a request.
#[derive(Debug, PartialEq, Eq, Clone, Copy, Structural)]
pub enum Method {
    Get,
}

impl Default for Method {
    fn default() -> (method: Method)
        ensures
            method == Method::Get,
    {
        Method::Get
    }
}

/// One outbound call: method, address, and optionally the protocol
/// version and a query. It is never changed once built; a retry sends it
/// again as it is.
pub struct Request {
    method: Method,
    url: String,
    version: Option<http::Version>,
    query: Option<Arc<dyn Query>>,
}

/// `Clone::clone` of an optional `Arc`, that is `Arc::clone`: another
/// handle to the same query, or none where there is none.
#[verifier::external_body]
fn share_query(query: &Option<Arc<dyn Query>>) -> (r: Option<Arc<dyn Query>>)
    ensures
        r == *query,
{
    query.clone()
}

impl Clone for Request {
    /// The same request once more: a retry sends the copy as it would send
    /// the request itself.
    fn clone(&self) -> (copy: Request)
        ensures
            copy.spec_method() == self.spec_method(),
            copy.spec_url() == self.spec_url(),
            copy.spec_version() == self.spec_version(),
            copy.spec_query() == self.spec_query(),
    {
        Request {
            method: self.method,
            url: self.url.clone(),
            version: self.version,
            query: share_query(&self.query),
        }
    }
}

/// A request as the HTTP stack takes it: the address is a parsed URI, and
/// the body is attached.
#[derive(Debug)]
pub struct HyperRequest {
    pub method: Method,
    pub uri: http::Uri,
    pub version: Option<http::Version>,
    pub body: hyper::Body,
}

/// The text that is read as the request's URI: the address, followed
/// directly by the query if there is one.
pub open spec fn target_of(url: Seq<char>, query: Option<Seq<char>>) -> Seq<char> {
    match query {
        None => url,
        Some(text) => url + text,
    }
}

/// Whether `r` is what the parts of a request make, given what its query
/// rendered: the query's error if it failed; else the request with the
/// URI read from the target, if `http` accepts the target; else a
/// `RequestBuildError`.
pub open spec fn assembles_to(
    method: Method,
    url: Seq<char>,
    version: Option<http::Version>,
    query: Option<crate::error::Result<String>>,
    body: hyper::Body,
    r: crate::error::Result<HyperRequest>,
) -> bool {
    match query {
        Some(Err(error)) => r == Err::<HyperRequest, ClientError>(error),
        _ => {
            let text = match query {
                Some(Ok(text)) => Some(text@),
                _ => None,
            };
            match uri_of(target_of(url, text)) {
                Some(uri) => r == Ok::<HyperRequest, ClientError>(
                    HyperRequest { method, uri, version, body },
                ),
                None => r matches Err(ClientError::RequestBuildError(_)),
            }
        },
    }
}

/// Puts a request for the HTTP stack together from its parts, once the
/// query, if there is one, has been rendered.
pub fn assemble(
    method: Method,
    url: String,
    version: Option<http::Version>,
    query: Option<crate::error::Result<String>>,
    body: hyper::Body,
) -> (r: crate::error::Result<HyperRequest>)
    ensures
        assembles_to(method, url@, version, query, body, r),
{
    let target = match query {
        None => url,
        Some(Err(error)) => {
            return Err(error);
        },
        Some(Ok(text)) => url.concat(text.as_str()),
    };
    match parse_uri(target.as_str()) {
        Ok(uri) => Ok(HyperRequest { method, uri, version, body }),
        Err(error) => Err(ClientError::RequestBuildError(describe_invalid_uri(error))),
    }
}

impl Request {
    /// The request's method.
    pub closed spec fn spec_method(&self) -> Method {
        self.method
    }

    /// The request's address.
    pub closed spec fn spec_url(&self) -> Seq<char> {
        self.url@
    }

    /// The protocol version asked for, if any.
    pub closed spec fn spec_version(&self) -> Option<http::Version> {
        self.version
    }

    /// The request's query, if it has one.
    pub closed spec fn spec_query(&self) -> Option<Arc<dyn Query>> {
        self.query
    }

    /// A request without version and query.
    pub fn new(method: Method, url: String) -> (request: Request)
        ensures
            request.spec_method() == method,
            request.spec_url() == url@,
            request.spec_version() is None,
            request.spec_query() is None,
    {
        Request { method, url, version: None, query: None }
    }

    /// A request with every part given.
    pub fn new_all(
        method: Method,
        url: String,
        version: Option<http::Version>,
        query: Option<Arc<dyn Query>>,
    ) -> (request: Request)
        ensures
            request.spec_method() == method,
            request.spec_url() == url@,
            request.spec_version() == version,
            request.spec_query() == query,
    {
        Self { method, url, version, query }
    }

    /// Turns the request into the form that the HTTP stack takes, with the
    /// given body. Fails if the query cannot be rendered, with the query's
    /// error, or if address and query together are no URI. The query is
    /// asked once for its text, and the result is what `assemble` makes of
    /// the answer.
    pub fn to_http_with_body(self, body: hyper::Body) -> (r: crate::error::Result<HyperRequest>)
        ensures
            self.spec_query() is None ==> assembles_to(
                self.spec_method(),
                self.spec_url(),
                self.spec_version(),
                None,
                body,
                r,
            ),
            self.spec_query() is Some ==> exists|answer: crate::error::Result<String>|
                #[trigger] assembles_to(
                    self.spec_method(),
                    self.spec_url(),
                    self.spec_version(),
                    Some(answer),
                    body,
                    r,
                ),
    {
        let query = match &self.query {
            None => None,
            Some(query) => Some(query.to_string()),
        };
        let ghost answer = query;
        let r = assemble(self.method, self.url, self.version, query, body);
        proof {
            if answer is Some {
                assert(assembles_to(
                    self.spec_method(),
                    self.spec_url(),
                    self.spec_version(),
                    Some(answer->0),
                    body,
                    r,
                ));
            }
        }
        r
    }
}

/// Stands for a part that a builder has not been given yet.
#[derive(Debug, Clone, Copy)]
pub struct Unset;

/// Gathers the parts of a request one by one. Method and address must be
/// given, once each, before the request can be built; version and query
/// may be left out.
pub struct RequestBuilder<M, U> {
    method: M,
    url: U,
    version: Option<http::Version>,
    query: Option<Arc<dyn Query>>,
}

impl<M, U> RequestBuilder<M, U> {
    /// The method given so far.
    pub closed spec fn method_part(&self) -> M {
        self.method
    }

    /// The address given so far.
    pub closed spec fn url_part(&self) -> U {
        self.url
    }

    /// The protocol version given so far.
    pub closed spec fn version_part(&self) -> Option<http::Version> {
        self.version
    }

    /// The query given so far.
    pub closed spec fn query_part(&self) -> Option<Arc<dyn Query>> {
        self.query
    }

    /// Sets the protocol version, or takes it away again with `None`.
    pub fn version(self, version: Option<http::Version>) -> (builder: RequestBuilder<M, U>)
        ensures
            builder.method_part() == self.method_part(),
            builder.url_part() == self.url_part(),
            builder.version_part() == version,
            builder.query_part() == self.query_part(),
    {
        RequestBuilder { method: self.method, url: self.url, version, query: self.query }
    }

    /// Sets the query.
    pub fn query(self, query: Arc<dyn Query>) -> (builder: RequestBuilder<M, U>)
        ensures
            builder.method_part() == self.method_part(),
            builder.url_part() == self.url_part(),
            builder.version_part() == self.version_part(),
            builder.query_part() == Some(query),
    {
        let query = Some(query);
        RequestBuilder { method: self.method, url: self.url, version: self.version, query }
    }
}

impl<M: Clone, U: Clone> Clone for RequestBuilder<M, U> {
    /// A builder that has been given the same parts.
    fn clone(&self) -> (copy: RequestBuilder<M, U>)
        ensures
            cloned(self.method_part(), copy.method_part()),
            cloned(self.url_part(), copy.url_part()),
            copy.version_part() == self.version_part(),
            copy.query_part() == self.query_part(),
    {
        RequestBuilder {
            method: self.method.clone(),
            url: self.url.clone(),
            version: self.version,
            query: share_query(&self.query),
        }
    }
}

impl<U> RequestBuilder<Unset, U> {
    /// Sets the method.
    pub fn method(self, method: Method) -> (builder: RequestBuilder<Method, U>)
        ensures
            builder.method_part() == method,
            builder.url_part() == self.url_part(),
            builder.version_part() == self.version_part(),
            builder.query_part() == self.query_part(),
    {
        RequestBuilder { method, url: self.url, version: self.version, query: self.query }
    }
}

impl<M> RequestBuilder<M, Unset> {
    /// Sets the address.
    pub fn url(self, url: String) -> (builder: RequestBuilder<M, String>)
        ensures
            builder.method_part() == self.method_part(),
            builder.url_part() == url,
            builder.version_part() == self.version_part(),
            builder.query_part() == self.query_part(),
    {
        RequestBuilder { method: self.method, url, version: self.version, query: self.query }
    }
}

impl RequestBuilder<Method, String> {
    /// The request with the parts gathered.
    pub fn build(self) -> (request: Request)
        ensures
            request.spec_method() == self.method_part(),
            request.spec_url() == self.url_part()@,
            request.spec_version() == self.version_part(),
            request.spec_query() == self.query_part(),
    {
        Request { method: self.method, url: self.url, version: self.version, query: self.query }
    }
}

impl Request {
    /// A builder that has been given nothing yet.
    pub fn builder() -> (builder: RequestBuilder<Unset, Unset>)
        ensures
            builder.version_part() is None,
            builder.query_part() is None,
    {
        RequestBuilder { method: Unset, url: Unset, version: None, query: None }
    }
}

impl TryFrom<Request> for HyperRequest {
    type Error = ClientError;

    /// The request in the form that the HTTP stack takes, with an empty
    /// body: what `to_http_with_body` makes of the request and the body
    /// that `hyper` hands out as empty.
    fn try_from(request: Request) -> (r: crate::error::Result<HyperRequest>)
        ensures
            request.spec_query() is None ==> exists|body: hyper::Body|
                #[trigger] assembles_to(
                    request.spec_method(),
                    request.spec_url(),
                    request.spec_version(),
                    None,
                    body,
                    r,
                ),
            request.spec_query() is Some ==> exists|
                answer: crate::error::Result<String>,
                body: hyper::Body,
            |
                #[trigger] assembles_to(
                    request.spec_method(),
                    request.spec_url(),
                    request.spec_version(),
                    Some(answer),
                    body,
                    r,
                ),
    {
        let body = empty_body();
        let r = request.to_http_with_body(body);
        proof {
            if request.spec_query() is None {
                assert(assembles_to(
                    request.spec_method(),
                    request.spec_url(),
                    request.spec_version(),
                    None,
                    body,
                    r,
                ));
            }
        }
        r
    }
}

/// Nothing is claimed of `try_from` through the conversion traits: what it
/// returns is stated on `try_from` itself.
impl TryFromSpecImpl<Request> for HyperRequest {
    open spec fn obeys_try_from_spec() -> bool {
        false
    }

    open spec fn try_from_spec(request: Request) -> crate::error::Result<HyperRequest> {
        arbitrary()
    }
}

} // verus!
