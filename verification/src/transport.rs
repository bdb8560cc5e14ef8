//! What the /v3 transport decides before and after the wire: which route a
//! resource calls, whether it unwraps `{"data": ...}`, whether it needs the
//! token, and the request that goes out.

use vstd::prelude::*;

use crate::encoding::{encode_segment, percent_encode_text};
use crate::error::ApiError;
use crate::models::Channel;
use crate::url::{build_url, pairs_view, trim_trailing_slash, trim_trailing_slashes, url_of};

verus! {

/// Where /v3 lives. Override it for staging or for a local process.
pub const DEFAULT_BASE_URL: &'static str = "https://v3.ar-online.com.br";

/// How many seconds a call waits before giving up, on both surfaces.
pub const DEFAULT_TIMEOUT_SECS: u64 = 30;

/// A /v3 route, one per resource method.
#[derive(Debug, Clone, PartialEq, Eq)]
pub enum V3Route {
    /// `GET /v3/templates`, optionally filtered by channel.
    Templates(Option<Channel>),
    /// `GET /v3/templates/{id}`.
    Template(String),
    /// `GET /v3/tags`.
    Tags,
    /// `GET /v3/tags/{id}`.
    Tag(String),
    /// `GET /v3/allowlist`.
    Allowlist,
    /// `GET /v3/freshness`.
    Freshness,
    /// `GET /v3/version`.
    Version,
}

impl V3Route {
    /// The route's path, the id percent-encoded as one segment.
    pub open spec fn spec_path(self) -> Seq<char> {
        match self {
            V3Route::Templates(_) => "/v3/templates"@,
            V3Route::Template(id) => "/v3/templates/"@ + percent_encode_text(id@),
            V3Route::Tags => "/v3/tags"@,
            V3Route::Tag(id) => "/v3/tags/"@ + percent_encode_text(id@),
            V3Route::Allowlist => "/v3/allowlist"@,
            V3Route::Freshness => "/v3/freshness"@,
            V3Route::Version => "/v3/version"@,
        }
    }

    /// The route's query: the channel filter, when the template list has one.
    pub open spec fn spec_query(self) -> Seq<(Seq<char>, Seq<char>)> {
        match self {
            V3Route::Templates(Some(channel)) => seq![("channel"@, channel.wire())],
            _ => Seq::empty(),
        }
    }

    /// Whether the route needs the token: all of them but the version.
    pub open spec fn needs_token(self) -> bool {
        !(self is Version)
    }

    /// Whether the route wraps its answer in `{"data": ...}`. Freshness and
    /// version answer the object itself.
    pub open spec fn wraps_in_data(self) -> bool {
        !(self is Freshness || self is Version)
    }

    /// The route's path.
    pub fn path(&self) -> (path: String)
        ensures
            path@ == self.spec_path(),
    {
        match self {
            V3Route::Templates(_) => String::from_str("/v3/templates"),
            V3Route::Template(id) => {
                let mut path = String::from_str("/v3/templates/");
                path.append(encode_segment(id.as_str()).as_str());
                path
            },
            V3Route::Tags => String::from_str("/v3/tags"),
            V3Route::Tag(id) => {
                let mut path = String::from_str("/v3/tags/");
                path.append(encode_segment(id.as_str()).as_str());
                path
            },
            V3Route::Allowlist => String::from_str("/v3/allowlist"),
            V3Route::Freshness => String::from_str("/v3/freshness"),
            V3Route::Version => String::from_str("/v3/version"),
        }
    }

    /// Whether the route needs the token.
    pub fn authenticated(&self) -> (needed: bool)
        ensures
            needed <==> !(self is Version),
            needed == self.needs_token(),
    {
        match self {
            V3Route::Version => false,
            _ => true,
        }
    }

    /// Whether the route wraps its answer in `{"data": ...}`.
    pub fn enveloped(&self) -> (wrapped: bool)
        ensures
            !wrapped <==> (self is Freshness || self is Version),
            wrapped == self.wraps_in_data(),
    {
        match self {
            V3Route::Freshness => false,
            V3Route::Version => false,
            _ => true,
        }
    }
}

/// Only the version route is open: every other /v3 route -- the template
/// list and one template, the tag list and one tag, the allowlist and the
/// freshness -- carries the token.
pub proof fn law_every_route_but_version_carries_the_token(route: V3Route)
    ensures
        route.needs_token() == match route {
            V3Route::Templates(_) => true,
            V3Route::Template(_) => true,
            V3Route::Tags => true,
            V3Route::Tag(_) => true,
            V3Route::Allowlist => true,
            V3Route::Freshness => true,
            V3Route::Version => false,
        },
{
}

/// The answers that come inside `{"data": ...}` are those of the templates,
/// the tags and the allowlist, one item or the list alike; freshness and
/// version answer the object itself.
pub proof fn law_data_envelope_routes(route: V3Route)
    ensures
        route.wraps_in_data() == match route {
            V3Route::Templates(_) => true,
            V3Route::Template(_) => true,
            V3Route::Tags => true,
            V3Route::Tag(_) => true,
            V3Route::Allowlist => true,
            V3Route::Freshness => false,
            V3Route::Version => false,
        },
{
}

/// A route that names one item reads it the way its list is read: the same
/// `{"data": ...}` envelope and the same token.
pub proof fn law_one_item_is_read_like_its_list(id: String, channel: Option<Channel>)
    ensures
        V3Route::Template(id).wraps_in_data() == V3Route::Templates(channel).wraps_in_data(),
        V3Route::Template(id).needs_token() == V3Route::Templates(channel).needs_token(),
        V3Route::Tag(id).wraps_in_data() == V3Route::Tags.wraps_in_data(),
        V3Route::Tag(id).needs_token() == V3Route::Tags.needs_token(),
{
}

/// The request that goes out: where, and with which `Authorization`.
#[derive(Debug, Clone, PartialEq, Eq)]
pub struct V3Request {
    /// The absolute URL.
    pub url: String,
    /// `Bearer <token>` on the routes that need it; nothing on the open one.
    pub authorization: Option<String>,
}

/// The address and credential of /v3.
#[derive(Debug, Clone, PartialEq, Eq)]
pub struct Endpoint {
    base_url: String,
    token: Option<String>,
}

impl Endpoint {
    /// The address calls go to, without trailing slashes.
    pub closed spec fn base(self) -> Seq<char> {
        self.base_url@
    }

    /// The token calls carry, when the client was given one.
    pub closed spec fn credential(self) -> Option<Seq<char>> {
        match self.token {
            Some(token) => Some(token@),
            None => None,
        }
    }

    /// An endpoint at `base_url` -- trailing slashes dropped -- carrying `token`.
    pub fn new(base_url: &str, token: Option<String>) -> (endpoint: Self)
        ensures
            endpoint.base() == trim_trailing_slashes(base_url@),
            endpoint.credential() == match token {
                Some(t) => Some(t@),
                None => None::<Seq<char>>,
            },
    {
        Endpoint { base_url: trim_trailing_slash(base_url), token }
    }

    /// The address calls go to.
    pub fn base_url(&self) -> (base: &str)
        ensures
            base@ == self.base(),
    {
        self.base_url.as_str()
    }

    /// The absolute URL of a path, each query value percent-encoded.
    pub fn url(&self, path: &str, query: &[(&str, &str)]) -> (url: String)
        ensures
            url@ == url_of(self.base(), path@, pairs_view(query@)),
    {
        build_url(self.base_url.as_str(), path, query)
    }

    /// The request a route makes.
    ///
    /// A route that needs the token, on a client built without one, is
    /// refused here, before the socket, with `401 unauthenticated`. The token
    /// goes as `Bearer <token>`; the open route carries no credential at all.
    pub fn prepare(&self, route: &V3Route) -> (prepared: Result<V3Request, ApiError>)
        ensures
            route.needs_token() && self.credential() is None <==> prepared is Err,
            self.credential() is Some ==> prepared is Ok,
            self.credential() is None ==> (prepared is Err <==> !(route is Version)),
            prepared matches Ok(request) ==> (request.authorization is None <==> route is Version),
            prepared matches Err(error) ==> {
                &&& error.status == 401
                &&& error.code@ == "unauthenticated"@
                &&& error.message@ == route.spec_path()
                    + " exige um token; construa o cliente com Client::builder().token(…)"@
                &&& error.request_id is None
                &&& error.field is None
                &&& error.details@.len() == 0
            },
            prepared matches Ok(request) ==> {
                &&& request.url@ == url_of(self.base(), route.spec_path(), route.spec_query())
                &&& if route.needs_token() {
                    request.authorization matches Some(header) && header@ == "Bearer "@
                        + self.credential().unwrap()
                } else {
                    request.authorization is None
                }
            },
    {
        let path = route.path();
        let authorization = if route.authenticated() {
            match &self.token {
                Some(token) => {
                    let mut header = String::from_str("Bearer ");
                    header.append(token.as_str());
                    Some(header)
                },
                None => {
                    return Err(ApiError::unauthenticated(path.as_str()));
                },
            }
        } else {
            None
        };
        let url = match route {
            V3Route::Templates(Some(channel)) => {
                let query = vec![("channel", channel.as_str())];
                let url = self.url(path.as_str(), query.as_slice());
                proof {
                    assert(pairs_view(query@) =~= route.spec_query());
                }
                url
            },
            _ => {
                let query: Vec<(&str, &str)> = Vec::new();
                let url = self.url(path.as_str(), query.as_slice());
                proof {
                    assert(pairs_view(query@) =~= route.spec_query());
                }
                url
            },
        };
        Ok(V3Request { url, authorization })
    }
}

} // verus!
