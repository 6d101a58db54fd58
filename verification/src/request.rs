//! A request to the controller, held as plain values: where it goes, what
//! its query says and what body it carries.

use vstd::prelude::*;
use vstd::string::{StringExecFns, StringSliceAdditionalSpecFns};
use crate::cli::ApiVersion;

verus! {

/// One entry of a query string.
#[derive(Debug, PartialEq, Eq)]
pub enum Param {
    /// A key without a value.
    Flag(String),
    /// A key with a text value.
    Pair(String, String),
    /// A key with a number, written in decimal.
    Number(String, u64),
}

/// A `Param` with its strings as sequences of characters.
pub ghost enum ParamView {
    Flag(Seq<char>),
    Pair(Seq<char>, Seq<char>),
    Number(Seq<char>, u64),
}

impl View for Param {
    type V = ParamView;

    open spec fn view(&self) -> ParamView {
        match *self {
            Param::Flag(k) => ParamView::Flag(k@),
            Param::Pair(k, v) => ParamView::Pair(k@, v@),
            Param::Number(k, n) => ParamView::Number(k@, n),
        }
    }
}

/// The entries of a query, each by its view.
pub open spec fn query_view(query: Seq<Param>) -> Seq<ParamView> {
    query.map_values(|p: Param| p@)
}

impl Param {
    pub fn flag(key: &str) -> (r: Param)
        ensures
            r@ == ParamView::Flag(key@),
    {
        Param::Flag(key.to_owned())
    }

    pub fn pair(key: &str, value: &str) -> (r: Param)
        ensures
            r@ == ParamView::Pair(key@, value@),
    {
        Param::Pair(key.to_owned(), value.to_owned())
    }

    pub fn number(key: &str, value: u64) -> (r: Param)
        ensures
            r@ == ParamView::Number(key@, value),
    {
        Param::Number(key.to_owned(), value)
    }

    /// A copy of the entry.
    pub fn duplicate(&self) -> (r: Param)
        ensures
            r == *self,
    {
        match self {
            Param::Flag(k) => Param::Flag(k.clone()),
            Param::Pair(k, v) => Param::Pair(k.clone(), v.clone()),
            Param::Number(k, n) => Param::Number(k.clone(), *n),
        }
    }
}

/// The path below the API's base path.
#[derive(Clone, Copy, PartialEq, Eq, Structural, Debug)]
pub enum Route {
    /// The base path itself, where every command goes.
    Api,
    /// `authenticate`: the login exchange.
    Authenticate,
    /// `upload/<handle>`: the body of a negotiated transfer.
    Upload(u64),
}

#[derive(Clone, Copy, PartialEq, Eq, Structural, Debug)]
pub enum Method {
    Get,
    Post,
}

/// Where a request goes.
#[derive(Debug, PartialEq, Eq)]
pub struct Target {
    /// The URL of the API's base path, as the `url` crate writes it.
    pub base: String,
    pub route: Route,
    pub query: Vec<Param>,
}

/// The file that a request carries.
#[derive(Debug, PartialEq, Eq)]
pub enum Payload {
    /// The whole file in one multipart body, sent under its name.
    Whole { file_name: String },
    /// The file cut into chunks, one raw body each, `length` bytes in all.
    Chunked { length: u64 },
}

/// Why a request could not be made.
#[derive(Clone, Copy, PartialEq, Eq, Structural, Debug)]
pub enum BuildError {
    /// Scheme and host do not make a URL.
    InvalidUrl,
    /// The user agent holds a byte that no header value may hold.
    InvalidUserAgent,
}

/// A request together with what is needed to authenticate it.
#[derive(Debug, PartialEq, Eq)]
pub struct Request {
    pub host: String,
    pub ver: ApiVersion,
    /// The user name and password given on the command line.
    pub creds: (Option<String>, Option<String>),
    pub method: Method,
    pub target: Target,
    /// The `User-Agent` header, where the request has one.
    pub user_agent: Option<String>,
    pub multipart: Option<Payload>,
}

/// What `Url::parse` followed by `Url::set_path` makes of `text` and
/// `path`, written out as a string; `None` where `Url::parse` fails.
pub uninterp spec fn url_with_path(text: Seq<char>, path: Seq<char>) -> Option<Seq<char>>;

/// Calls `url::Url::parse` on `text` and `Url::set_path` with `path` on
/// the result. The contract only names the outcome.
#[verifier::external_body]
fn parse_url_with_path(text: &str, path: &str) -> (r: Option<String>)
    ensures
        match r {
            Some(s) => url_with_path(text@, path@) == Some(s@),
            None => url_with_path(text@, path@).is_none(),
        },
{
    match url::Url::parse(text) {
        Ok(mut u) => {
            u.set_path(path);
            Some(String::from(u))
        },
        Err(_) => None,
    }
}

/// A byte that a header value may hold.
pub open spec fn header_byte(b: u8) -> bool {
    b >= 32 && b != 127 || b == 9
}

/// Text that a header value may hold: each of its bytes is such a byte.
pub open spec fn header_text(bytes: Seq<u8>) -> bool {
    forall|i: int| 0 <= i < bytes.len() ==> header_byte(#[trigger] bytes[i])
}

/// Calls `HeaderValue::from_str` and says whether it accepted `text`,
/// which it does exactly when every byte is a tab or is at least 32 and
/// not 127.
#[verifier::external_body]
fn header_value_accepts(text: &str) -> (r: bool)
    ensures
        r == header_text(text.spec_bytes()),
{
    reqwest::header::HeaderValue::from_str(text).is_ok()
}

/// What `Url::parse` followed by `PathSegmentsMut::push` makes of `url`
/// and `segment`, written out as a string; `None` where `Url::parse` fails
/// or the URL cannot have path segments.
pub uninterp spec fn url_with_segment(url: Seq<char>, segment: Seq<char>) -> Option<Seq<char>>;

/// Calls `url::Url::parse` on `url` and pushes `segment` at the end of
/// the path. The contract only names the outcome.
#[verifier::external_body]
fn push_segment(url: &str, segment: &str) -> (r: Option<String>)
    ensures
        match r {
            Some(s) => url_with_segment(url@, segment@) == Some(s@),
            None => url_with_segment(url@, segment@).is_none(),
        },
{
    let mut u = url::Url::parse(url).ok()?;
    u.path_segments_mut().ok()?.push(segment);
    Some(String::from(u))
}

/// What `Url::parse` followed by `Serializer::append_pair` on the query
/// makes of `url`, `key` and `value`, written out as a string; `None`
/// where `Url::parse` fails.
pub uninterp spec fn url_with_pair(url: Seq<char>, key: Seq<char>, value: Seq<char>) -> Option<
    Seq<char>,
>;

/// Calls `url::Url::parse` on `url` and appends the pair to its query.
/// The contract only names the outcome.
#[verifier::external_body]
fn push_pair(url: &str, key: &str, value: &str) -> (r: Option<String>)
    ensures
        match r {
            Some(s) => url_with_pair(url@, key@, value@) == Some(s@),
            None => url_with_pair(url@, key@, value@).is_none(),
        },
{
    let mut u = url::Url::parse(url).ok()?;
    u.query_pairs_mut().append_pair(key, value);
    Some(String::from(u))
}

/// What `Url::parse` followed by `Serializer::append_key_only` on the
/// query makes of `url` and `key`, written out as a string; `None` where
/// `Url::parse` fails.
pub uninterp spec fn url_with_key(url: Seq<char>, key: Seq<char>) -> Option<Seq<char>>;

/// Calls `url::Url::parse` on `url` and appends the key to its query.
/// The contract only names the outcome.
#[verifier::external_body]
fn push_key(url: &str, key: &str) -> (r: Option<String>)
    ensures
        match r {
            Some(s) => url_with_key(url@, key@) == Some(s@),
            None => url_with_key(url@, key@).is_none(),
        },
{
    let mut u = url::Url::parse(url).ok()?;
    u.query_pairs_mut().append_key_only(key);
    Some(String::from(u))
}

/// `n` as `u64::to_string` writes it.
pub uninterp spec fn decimal_text(n: u64) -> Seq<char>;

/// Calls `u64::to_string`. The contract only names the result.
#[verifier::external_body]
fn decimal(n: u64) -> (r: String)
    ensures
        r@ == decimal_text(n),
{
    n.to_string()
}

/// The URL after one more entry of the query.
pub open spec fn with_param(url: Option<Seq<char>>, p: ParamView) -> Option<Seq<char>> {
    match url {
        None => None,
        Some(u) => match p {
            ParamView::Flag(k) => url_with_key(u, k),
            ParamView::Pair(k, v) => url_with_pair(u, k, v),
            ParamView::Number(k, n) => url_with_pair(u, k, decimal_text(n)),
        },
    }
}

/// The URL after the entries of a query, first to last.
pub open spec fn with_query(url: Option<Seq<char>>, query: Seq<ParamView>) -> Option<Seq<char>>
    decreases query.len(),
{
    if query.len() == 0 {
        url
    } else {
        with_param(with_query(url, query.drop_last()), query.last())
    }
}

/// The URL of a route below `base`.
pub open spec fn with_route(base: Seq<char>, route: Route) -> Option<Seq<char>> {
    match route {
        Route::Api => Some(base),
        Route::Authenticate => url_with_segment(base, "authenticate"@),
        Route::Upload(handle) => match url_with_segment(base, "upload"@) {
            Some(u) => url_with_segment(u, decimal_text(handle)),
            None => None,
        },
    }
}

/// Once a URL could not be made, no further entry mends it.
pub proof fn lemma_no_url_stays_none(query: Seq<ParamView>)
    ensures
        with_query(None, query).is_none(),
    decreases query.len(),
{
    if query.len() > 0 {
        lemma_no_url_stays_none(query.drop_last());
    }
}

/// Adding the entries of a query in two parts is adding them all.
pub proof fn lemma_query_in_parts(url: Option<Seq<char>>, a: Seq<ParamView>, b: Seq<ParamView>)
    ensures
        with_query(url, a + b) == with_query(with_query(url, a), b),
    decreases b.len(),
{
    if b.len() == 0 {
        assert(a + b =~= a);
    } else {
        assert((a + b).drop_last() =~= a + b.drop_last());
        assert((a + b).last() == b.last());
        lemma_query_in_parts(url, a, b.drop_last());
    }
}

/// What `url::Host::parse` makes of `text`, written out as a string;
/// `None` where it fails.
pub uninterp spec fn host_text(text: Seq<char>) -> Option<Seq<char>>;

/// Calls `url::Host::parse` and writes the host out again. The contract
/// only names the outcome.
#[verifier::external_body]
fn parse_host(text: &str) -> (r: Option<String>)
    ensures
        match r {
            Some(s) => host_text(text@) == Some(s@),
            None => host_text(text@).is_none(),
        },
{
    match url::Host::parse(text) {
        Ok(host) => Some(host.to_string()),
        Err(_) => None,
    }
}

/// The host to connect to, with the port behind a colon where one is
/// given.
pub open spec fn spec_host_with_port(host: Seq<char>, port: Option<u16>) -> Option<Seq<char>> {
    match host_text(host) {
        None => None,
        Some(h) => match port {
            Some(p) => Some(h + ":"@ + decimal_text(p as u64)),
            None => Some(h),
        },
    }
}

/// The host to connect to; `None` where `host` is no host name and no
/// address.
pub fn host_with_port(host: &str, port: Option<u16>) -> (r: Option<String>)
    ensures
        match r {
            Some(s) => spec_host_with_port(host@, port) == Some(s@),
            None => spec_host_with_port(host@, port).is_none(),
        },
{
    let mut text = match parse_host(host) {
        Some(text) => text,
        None => {
            return None;
        },
    };
    if let Some(p) = port {
        let number = decimal(p as u64);
        text.append(":");
        text.append(number.as_str());
    }
    Some(text)
}

/// The URL text of the API's base path on `host`.
pub open spec fn spec_url_from_host(host: Seq<char>, scheme: Seq<char>) -> Option<Seq<char>> {
    url_with_path(scheme + "://"@ + host, "api/bmc"@)
}

/// The URL of the API's base path on `host`; `None` where scheme and host
/// do not make a URL.
pub fn url_from_host(host: &str, scheme: &str) -> (r: Option<String>)
    ensures
        match r {
            Some(s) => spec_url_from_host(host@, scheme@) == Some(s@),
            None => spec_url_from_host(host@, scheme@).is_none(),
        },
{
    let mut text: String = scheme.to_owned();
    text.append("://");
    text.append(host);
    parse_url_with_path(text.as_str(), "api/bmc")
}

/// A copy of an optional string.
pub fn copy_text(s: &Option<String>) -> (r: Option<String>)
    ensures
        r == *s,
{
    match s {
        Some(t) => Some(t.clone()),
        None => None,
    }
}

impl Target {
    /// The URL that the target stands for: the base, then the route's
    /// path segments, then the query, entry by entry. `None` where the
    /// `url` crate cannot make one.
    pub open spec fn spec_address(self) -> Option<Seq<char>> {
        with_query(with_route(self.base@, self.route), query_view(self.query@))
    }

    /// The URL of the route, without the query.
    pub fn route_address(&self) -> (r: Option<String>)
        ensures
            match r {
                Some(s) => with_route(self.base@, self.route) == Some(s@),
                None => with_route(self.base@, self.route).is_none(),
            },
    {
        match self.route {
            Route::Api => Some(self.base.clone()),
            Route::Authenticate => push_segment(self.base.as_str(), "authenticate"),
            Route::Upload(handle) => match push_segment(self.base.as_str(), "upload") {
                Some(u) => {
                    let number = decimal(handle);
                    push_segment(u.as_str(), number.as_str())
                },
                None => None,
            },
        }
    }

    /// The URL that the target stands for.
    pub fn address(&self) -> (r: Option<String>)
        ensures
            match r {
                Some(s) => self.spec_address() == Some(s@),
                None => self.spec_address().is_none(),
            },
    {
        let mut url = match self.route_address() {
            Some(url) => url,
            None => {
                proof {
                    lemma_no_url_stays_none(query_view(self.query@));
                }
                return None;
            },
        };
        let ghost start = with_route(self.base@, self.route);
        let ghost all = query_view(self.query@);
        let mut i: usize = 0;
        assert(all.subrange(0, 0) =~= Seq::<ParamView>::empty());
        while i < self.query.len()
            invariant
                0 <= i <= self.query.len(),
                all == query_view(self.query@),
                start == with_route(self.base@, self.route),
                with_query(start, all.subrange(0, i as int)) == Some(url@),
            decreases self.query.len() - i,
        {
            let next = match &self.query[i] {
                Param::Flag(k) => push_key(url.as_str(), k.as_str()),
                Param::Pair(k, v) => push_pair(url.as_str(), k.as_str(), v.as_str()),
                Param::Number(k, n) => {
                    let number = decimal(*n);
                    push_pair(url.as_str(), k.as_str(), number.as_str())
                },
            };
            proof {
                let upto = all.subrange(0, i as int + 1);
                assert(upto.drop_last() =~= all.subrange(0, i as int));
                assert(upto.last() == self.query@[i as int]@);
                assert(all =~= upto + all.subrange(i as int + 1, all.len() as int));
                lemma_query_in_parts(start, upto, all.subrange(i as int + 1, all.len() as int));
            }
            url = match next {
                Some(next) => next,
                None => {
                    proof {
                        lemma_no_url_stays_none(all.subrange(i as int + 1, all.len() as int));
                    }
                    return None;
                },
            };
            i = i + 1;
        }
        assert(all.subrange(0, i as int) =~= all);
        Some(url)
    }

    /// Adds a key with a text value at the end of the query.
    pub fn append_pair(&mut self, key: &str, value: &str)
        ensures
            final(self).base == old(self).base,
            final(self).route == old(self).route,
            query_view(final(self).query@) == query_view(old(self).query@).push(
                ParamView::Pair(key@, value@),
            ),
    {
        let p = Param::pair(key, value);
        proof {
            assert(query_view(self.query@.push(p)) =~= query_view(self.query@).push(p@));
        }
        self.query.push(p);
    }

    /// Adds a key with a number at the end of the query.
    pub fn append_number(&mut self, key: &str, value: u64)
        ensures
            final(self).base == old(self).base,
            final(self).route == old(self).route,
            query_view(final(self).query@) == query_view(old(self).query@).push(
                ParamView::Number(key@, value),
            ),
    {
        let p = Param::number(key, value);
        proof {
            assert(query_view(self.query@.push(p)) =~= query_view(self.query@).push(p@));
        }
        self.query.push(p);
    }

    /// Adds a key without a value at the end of the query.
    pub fn append_key_only(&mut self, key: &str)
        ensures
            final(self).base == old(self).base,
            final(self).route == old(self).route,
            query_view(final(self).query@) == query_view(old(self).query@).push(
                ParamView::Flag(key@),
            ),
    {
        let p = Param::flag(key);
        proof {
            assert(query_view(self.query@.push(p)) =~= query_view(self.query@).push(p@));
        }
        self.query.push(p);
    }

    /// Empties the query.
    pub fn clear_query(&mut self)
        ensures
            final(self).base == old(self).base,
            final(self).route == old(self).route,
            final(self).query@.len() == 0,
            query_view(final(self).query@) == Seq::<ParamView>::empty(),
    {
        self.query.clear();
        assert(query_view(self.query@) =~= Seq::<ParamView>::empty());
    }

    /// A copy of the target.
    pub fn duplicate(&self) -> (r: Target)
        ensures
            r.base == self.base,
            r.route == self.route,
            r.query@ == self.query@,
    {
        let mut query: Vec<Param> = Vec::new();
        let mut i: usize = 0;
        while i < self.query.len()
            invariant
                0 <= i <= self.query.len(),
                query@ == self.query@.subrange(0, i as int),
            decreases self.query.len() - i,
        {
            let p = self.query[i].duplicate();
            assert(self.query@.subrange(0, i as int).push(p) =~= self.query@.subrange(
                0,
                i as int + 1,
            ));
            query.push(p);
            i = i + 1;
        }
        assert(self.query@.subrange(0, i as int) =~= self.query@);
        Target { base: self.base.clone(), route: self.route, query }
    }
}

impl Request {
    /// What `new` gives for these arguments where it succeeds with the
    /// base URL `base`.
    pub open spec fn fresh(
        self,
        host: String,
        ver: ApiVersion,
        creds: (Option<String>, Option<String>),
        user_agent: Seq<char>,
        base: Seq<char>,
    ) -> bool {
        &&& self.host == host
        &&& self.ver == ver
        &&& self.creds == creds
        &&& self.method == Method::Get
        &&& self.target.base@ == base
        &&& self.target.route == Route::Api
        &&& self.target.query@.len() == 0
        &&& self.user_agent.is_some()
        &&& self.user_agent.unwrap()@ == user_agent
        &&& self.multipart.is_none()
    }

    /// A `GET` request to the API's base path on `host`, with an empty
    /// query. Fails where scheme and host make no URL, and else where the
    /// user agent is no header value.
    pub fn new(
        host: String,
        ver: ApiVersion,
        creds: (Option<String>, Option<String>),
        user_agent: &str,
    ) -> (r: Result<Request, BuildError>)
        ensures
            match r {
                Ok(req) => {
                    &&& spec_url_from_host(host@, ver.spec_scheme()).is_some()
                    &&& req.fresh(
                        host,
                        ver,
                        creds,
                        user_agent@,
                        spec_url_from_host(host@, ver.spec_scheme()).unwrap(),
                    )
                    &&& header_text(user_agent.spec_bytes())
                },
                Err(BuildError::InvalidUrl) => spec_url_from_host(
                    host@,
                    ver.spec_scheme(),
                ).is_none(),
                Err(BuildError::InvalidUserAgent) => {
                    &&& spec_url_from_host(host@, ver.spec_scheme()).is_some()
                    &&& !header_text(user_agent.spec_bytes())
                },
            },
    {
        let base = match url_from_host(host.as_str(), ver.scheme()) {
            Some(base) => base,
            None => {
                return Err(BuildError::InvalidUrl);
            },
        };
        if !header_value_accepts(user_agent) {
            return Err(BuildError::InvalidUserAgent);
        }
        Ok(
            Request {
                host,
                ver,
                creds,
                method: Method::Get,
                target: Target { base, route: Route::Api, query: Vec::new() },
                user_agent: Some(user_agent.to_owned()),
                multipart: None,
            },
        )
    }

    /// A `POST` request to the API's base path on the same host, with the
    /// same credentials, an empty query, no user agent and no body.
    pub fn to_post(&self) -> (r: Result<Request, BuildError>)
        ensures
            match r {
                Ok(req) => {
                    &&& spec_url_from_host(self.host@, self.ver.spec_scheme()) == Some(
                        req.target.base@,
                    )
                    &&& req.host == self.host
                    &&& req.ver == self.ver
                    &&& req.creds == self.creds
                    &&& req.method == Method::Post
                    &&& req.target.route == Route::Api
                    &&& req.target.query@.len() == 0
                    &&& req.user_agent.is_none()
                    &&& req.multipart.is_none()
                },
                Err(e) => e == BuildError::InvalidUrl && spec_url_from_host(
                    self.host@,
                    self.ver.spec_scheme(),
                ).is_none(),
            },
    {
        let base = match url_from_host(self.host.as_str(), self.ver.scheme()) {
            Some(base) => base,
            None => {
                return Err(BuildError::InvalidUrl);
            },
        };
        Ok(
            Request {
                host: self.host.clone(),
                ver: self.ver,
                creds: (copy_text(&self.creds.0), copy_text(&self.creds.1)),
                method: Method::Post,
                target: Target { base, route: Route::Api, query: Vec::new() },
                user_agent: None,
                multipart: None,
            },
        )
    }

    /// Gives the request a file to carry.
    pub fn set_multipart(&mut self, form: Payload)
        ensures
            *final(self) == (Request { multipart: Some(form), ..*old(self) }),
    {
        self.multipart = Some(form);
    }

    /// Where the request goes.
    pub fn url(&self) -> (r: &Target)
        ensures
            *r == self.target,
    {
        &self.target
    }

    /// Where the request goes, to be changed in place.
    pub fn url_mut(&mut self) -> (r: &mut Target)
        ensures
            *r == old(self).target,
            *final(self) == (Request { target: *final(r), ..*old(self) }),
    {
        &mut self.target
    }

    /// A copy of the request without its body.
    pub fn clone(&self) -> (r: Request)
        ensures
            r.host == self.host,
            r.ver == self.ver,
            r.creds == self.creds,
            r.method == self.method,
            r.target.base == self.target.base,
            r.target.route == self.target.route,
            r.target.query@ == self.target.query@,
            r.user_agent == self.user_agent,
            r.multipart.is_none(),
    {
        Request {
            host: self.host.clone(),
            ver: self.ver,
            creds: (copy_text(&self.creds.0), copy_text(&self.creds.1)),
            method: self.method,
            target: self.target.duplicate(),
            user_agent: copy_text(&self.user_agent),
            multipart: None,
        }
    }
}

} // verus!
