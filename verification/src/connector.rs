//! The session with the local client: where it listens, how requests to it
//! are signed, and the handshake that yields its two tokens.

use crate::json::{
    document_of, index, lemma_agreeing_fields, lemma_agreeing_readings, reads_as, JsonError, JsonNode,
};
use crate::text::{decimal, lemma_decimal_injective, push_decimal};
use vstd::prelude::*;

verus! {

/// The `User-Agent` header: a desktop browser.
pub const HEADER_UA: &'static str = "Mozilla/5.0 (Windows; rv:50.0) Gecko/20100101 Firefox/50.0";

/// The scheme of the `Origin` header.
pub const HEADER_ORIGIN_SCHEME: &'static str = "https";

/// The host of the `Origin` header.
pub const HEADER_ORIGIN_HOST: &'static str = "embed.spotify.com";

/// The site that requests claim to come from.
pub const URL_EMBED: &'static str = "https://embed.spotify.com";

/// Where the bearer token is issued.
pub const URL_TOKEN: &'static str = "https://open.spotify.com/token";

/// The local client, without its port.
pub const URL_LOCAL: &'static str = "http://spotifyrs.spotilocal.com";

/// The first port on which the local client may listen.
pub const PORT_START: u16 = 4370;

/// The last port on which the local client may listen.
pub const PORT_END: u16 = 4399;

/// The path that issues the anti-forgery token.
pub const REQUEST_CSRF: &'static str = "simplecsrf/token.json";

/// The path that reports the status.
pub const REQUEST_STATUS: &'static str = "remote/status.json";

/// The path that plays a track.
pub const REQUEST_PLAY: &'static str = "remote/play.json";

/// The path that opens the client.
pub const REQUEST_OPEN: &'static str = "remote/open.json";

/// The path that pauses and resumes.
pub const REQUEST_PAUSE: &'static str = "remote/pause.json";

/// The track that the `Referer` header names.
pub const REFERAL_TRACK: &'static str = "track/4uLU6hMCjMI75M1A2tKUQC";

/// The `InternalSpotifyError` enum.
#[derive(Debug, PartialEq, Eq)]
pub enum InternalSpotifyError {
    /// The transport could not deliver the request or the response.
    ReqwestError(String),
    /// The response body is not JSON.
    JSONParseError(JsonError),
    /// The token response holds no bearer token.
    InvalidOAuthToken,
    /// The token response holds no anti-forgery token.
    InvalidCSRFToken,
    /// The response body could not be read.
    IOError(String),
    /// No port of the range is in use.
    EndpointNotFound,
}

/// What came back for a request: the body of the response, or the failure of
/// the transport.
#[derive(Debug, PartialEq, Eq)]
pub enum Reply {
    Body(String),
    ReqwestError(String),
    IOError(String),
}

/// A GET request, ready to be sent: its address and the three headers that
/// the client's origin policy asks for.
#[derive(Debug, PartialEq, Eq)]
pub struct HttpRequest {
    pub url: String,
    pub user_agent: String,
    pub origin: String,
    pub referer: String,
}

/// A request as texts.
pub struct HttpRequestView {
    pub url: Seq<char>,
    pub user_agent: Seq<char>,
    pub origin: Seq<char>,
    pub referer: Seq<char>,
}

impl View for HttpRequest {
    type V = HttpRequestView;

    open spec fn view(&self) -> HttpRequestView {
        HttpRequestView {
            url: self.url@,
            user_agent: self.user_agent@,
            origin: self.origin@,
            referer: self.referer@,
        }
    }
}

/// The text of the extra parameters, each behind an ampersand.
pub open spec fn params_text(params: Seq<Seq<char>>) -> Seq<char>
    decreases params.len(),
{
    if params.len() == 0 {
        Seq::empty()
    } else {
        params_text(params.drop_last()) + "&"@ + params.last()
    }
}

/// The texts of a list of strings.
pub open spec fn texts(list: Seq<String>) -> Seq<Seq<char>> {
    list.map_values(|text: String| text@)
}

/// The parameters that a call names, none where it names no list.
pub open spec fn params_of(params: Option<Vec<String>>) -> Seq<Seq<char>> {
    match params {
        Some(list) => texts(list@),
        None => Seq::empty(),
    }
}

/// The part of a request URL before the digits of the timestamp: base and
/// path, the delimiter, the empty `ref` and `cors` pair, and the name of the
/// timestamp parameter. The delimiter is `?` unless the path holds one.
pub open spec fn url_head(base: Seq<char>, query: Seq<char>) -> Seq<char> {
    base + "/"@ + query + (if query.contains('?') {
        "&"@
    } else {
        "?"@
    }) + "ref=&cors="@ + "&_="@
}

/// The part of a request URL behind the digits of the timestamp: the tokens
/// that are attached, then the extra parameters in the order given.
pub open spec fn url_tail(
    oauth: Option<Seq<char>>,
    csrf: Option<Seq<char>>,
    params: Seq<Seq<char>>,
) -> Seq<char> {
    (match oauth {
        Some(token) => "&oauth="@ + token,
        None => Seq::empty(),
    }) + (match csrf {
        Some(token) => "&csrf="@ + token,
        None => Seq::empty(),
    }) + params_text(params)
}

/// The URL of a request that is made at `timestamp`, in seconds since the
/// Unix epoch.
pub open spec fn request_url(
    base: Seq<char>,
    query: Seq<char>,
    oauth: Option<Seq<char>>,
    csrf: Option<Seq<char>>,
    params: Seq<Seq<char>>,
    timestamp: i64,
) -> Seq<char> {
    url_head(base, query) + decimal(timestamp as int) + url_tail(oauth, csrf, params)
}

/// The `Origin` header of every request.
pub open spec fn origin_header() -> Seq<char> {
    HEADER_ORIGIN_SCHEME@ + "://"@ + HEADER_ORIGIN_HOST@
}

/// The `Referer` header of every request.
pub open spec fn referer_header() -> Seq<char> {
    URL_EMBED@ + "/"@ + REFERAL_TRACK@
}

/// The request for `url`, with the fixed headers.
pub open spec fn request_for(url: Seq<char>) -> HttpRequestView {
    HttpRequestView { url, user_agent: HEADER_UA@, origin: origin_header(), referer: referer_header() }
}

/// Reads the clock through `time::now_utc` and gives the seconds since the
/// Unix epoch. Nothing is claimed of the value.
#[verifier::external_body]
fn unix_time_now() -> i64 {
    time::now_utc().to_timespec().sec
}

/// Whether `text` holds the character `wanted`.
fn contains_char(text: &str, wanted: char) -> (r: bool)
    ensures
        r == text@.contains(wanted),
{
    broadcast use vstd::string::group_string_axioms;

    for c in it: text.chars()
        invariant
            it.seq() == text@,
            !text@.take(it.index()).contains(wanted),
    {
        if c == wanted {
            assert(text@[it.index()] == wanted);
            return true;
        }
        assert(text@.take(it.index() + 1) == text@.take(it.index()).push(c));
    }
    assert(text@.take(text@.len() as int) == text@);
    false
}

impl HttpRequest {
    /// The GET request for `url`.
    pub fn get(url: String) -> (r: HttpRequest)
        ensures
            r@ == request_for(url@),
    {
        let mut origin = String::new();
        origin.append(HEADER_ORIGIN_SCHEME);
        origin.append("://");
        origin.append(HEADER_ORIGIN_HOST);
        let mut referer = String::new();
        referer.append(URL_EMBED);
        referer.append("/");
        referer.append(REFERAL_TRACK);
        let mut user_agent = String::new();
        user_agent.append(HEADER_UA);
        HttpRequest { url, user_agent, origin, referer }
    }
}

/// The view of an optional text.
pub open spec fn text_view(text: Option<&str>) -> Option<Seq<char>> {
    match text {
        Some(text) => Some(text@),
        None => None,
    }
}

/// Builds the URL of a request made at `timestamp`: `base`, a slash and
/// `query`; the delimiter and the empty `ref` and `cors` pair; the timestamp;
/// the tokens that are given; the extra parameters in their order.
pub fn build_url(
    base: &str,
    query: &str,
    oauth: Option<&str>,
    csrf: Option<&str>,
    params: &Option<Vec<String>>,
    timestamp: i64,
) -> (r: String)
    ensures
        r@ == request_url(base@, query@, text_view(oauth), text_view(csrf), params_of(*params), timestamp),
{
    let mut url = String::new();
    url.append(base);
    url.append("/");
    url.append(query);
    if contains_char(query, '?') {
        url.append("&");
    } else {
        url.append("?");
    }
    url.append("ref=&cors=");
    url.append("&_=");
    assert(url@ == url_head(base@, query@));
    push_decimal(&mut url, timestamp);
    let ghost stem = url@;
    match oauth {
        Some(token) => {
            url.append("&oauth=");
            url.append(token);
        },
        None => {},
    }
    let ghost with_oauth = url@;
    match csrf {
        Some(token) => {
            url.append("&csrf=");
            url.append(token);
        },
        None => {},
    }
    let ghost with_tokens = url@;
    assert(with_tokens == stem + url_tail(text_view(oauth), text_view(csrf), Seq::empty()));
    match params {
        Some(list) => {
            let mut i: usize = 0;
            while i < list.len()
                invariant
                    i <= list.len(),
                    url@ == with_tokens + params_text(texts(list@).take(i as int)),
                decreases list.len() - i,
            {
                url.append("&");
                url.append(list[i].as_str());
                assert(texts(list@).take(i + 1).drop_last() == texts(list@).take(i as int));
                assert(texts(list@).take(i + 1).last() == list@[i as int]@);
                i += 1;
            }
            assert(texts(list@).take(list@.len() as int) == texts(list@));
        },
        None => {},
    }
    url
}

/// The address of the local client on `port`.
pub open spec fn local_url(port: int) -> Seq<char> {
    URL_LOCAL@ + ":"@ + decimal(port)
}

/// Builds the address of the local client on `port`.
pub fn local_url_for(port: i32) -> (r: String)
    ensures
        r@ == local_url(port as int),
{
    let mut url = String::new();
    url.append(URL_LOCAL);
    url.append(":");
    push_decimal(&mut url, port as i64);
    url
}

/// What a reply holds as JSON: the document that its body is read as, or
/// the error that stands for the failure.
pub open spec fn reply_json(reply: Reply) -> Result<JsonNode, InternalSpotifyError> {
    match reply {
        Reply::Body(text) => match document_of(text@) {
            Ok(json) => Ok(json),
            Err(error) => Err(InternalSpotifyError::JSONParseError(error)),
        },
        Reply::ReqwestError(message) => Err(InternalSpotifyError::ReqwestError(message)),
        Reply::IOError(message) => Err(InternalSpotifyError::IOError(message)),
    }
}

/// The bearer token in the document of a token response: the member `t`,
/// which must be a string.
pub open spec fn oauth_token_in(json: JsonNode) -> Result<Seq<char>, InternalSpotifyError> {
    match json.spec_field("t"@).spec_as_str() {
        Some(token) => Ok(token),
        None => Err(InternalSpotifyError::InvalidOAuthToken),
    }
}

/// The anti-forgery token in the document of a token response: the member
/// `token`, which must be a string.
pub open spec fn csrf_token_in(json: JsonNode) -> Result<Seq<char>, InternalSpotifyError> {
    match json.spec_field("token"@).spec_as_str() {
        Some(token) => Ok(token),
        None => Err(InternalSpotifyError::InvalidCSRFToken),
    }
}

/// The bearer token that a reply to the token request holds.
pub open spec fn oauth_token_of(reply: Reply) -> Result<Seq<char>, InternalSpotifyError> {
    match reply_json(reply) {
        Ok(json) => oauth_token_in(json),
        Err(error) => Err(error),
    }
}

/// The anti-forgery token that a reply to the token request holds.
pub open spec fn csrf_token_of(reply: Reply) -> Result<Seq<char>, InternalSpotifyError> {
    match reply_json(reply) {
        Ok(json) => csrf_token_in(json),
        Err(error) => Err(error),
    }
}

/// Whether the document of an open response says that the client runs.
pub open spec fn running_in(json: JsonNode) -> bool {
    json.spec_field("running"@).spec_is_true()
}

/// The request for the bearer token, made at `timestamp`.
pub open spec fn oauth_request(timestamp: i64) -> HttpRequestView {
    request_for(request_url(URL_TOKEN@, ""@, None, None, Seq::empty(), timestamp))
}

/// The request to the local client on `port` for `path`, made at
/// `timestamp`, with no token attached.
pub open spec fn unsigned_request(port: int, path: Seq<char>, timestamp: i64) -> HttpRequestView {
    request_for(request_url(local_url(port), path, None, None, Seq::empty(), timestamp))
}

/// One text against the view of a result that holds a string.
pub open spec fn token_result(
    r: Result<String, InternalSpotifyError>,
) -> Result<Seq<char>, InternalSpotifyError> {
    match r {
        Ok(token) => Ok(token@),
        Err(error) => Err(error),
    }
}

/// The `SpotifyConnector` struct: an established session.
#[derive(Debug, PartialEq, Eq)]
pub struct SpotifyConnector {
    /// The Spotify OAuth token.
    oauth_token: String,
    /// The Spotify CSRF token.
    csrf_token: String,
    /// The port used to connect to Spotify.
    port: i32,
}

/// A session as plain values: the port and the two tokens.
pub struct ConnectorView {
    pub oauth_token: Seq<char>,
    pub csrf_token: Seq<char>,
    pub port: i32,
}

impl View for SpotifyConnector {
    type V = ConnectorView;

    closed spec fn view(&self) -> ConnectorView {
        ConnectorView { oauth_token: self.oauth_token@, csrf_token: self.csrf_token@, port: self.port }
    }
}

/// The request that a session signs.
pub open spec fn signed_request(
    session: ConnectorView,
    base: Seq<char>,
    query: Seq<char>,
    with_oauth: bool,
    with_csrf: bool,
    params: Seq<Seq<char>>,
    timestamp: i64,
) -> HttpRequestView {
    request_for(
        request_url(
            base,
            query,
            if with_oauth {
                Some(session.oauth_token)
            } else {
                None
            },
            if with_csrf {
                Some(session.csrf_token)
            } else {
                None
            },
            params,
            timestamp,
        ),
    )
}

/// The status request of a session.
pub open spec fn status_request(session: ConnectorView, timestamp: i64) -> HttpRequestView {
    signed_request(
        session,
        local_url(session.port as int),
        REQUEST_STATUS@,
        true,
        true,
        Seq::empty(),
        timestamp,
    )
}

/// The request to play `track`.
pub open spec fn play_request(
    session: ConnectorView,
    track: Seq<char>,
    timestamp: i64,
) -> HttpRequestView {
    signed_request(
        session,
        local_url(session.port as int),
        REQUEST_PLAY@,
        true,
        true,
        seq!["uri="@ + track],
        timestamp,
    )
}

/// The request to pause or to resume.
pub open spec fn pause_request(session: ConnectorView, pause: bool, timestamp: i64) -> HttpRequestView {
    signed_request(
        session,
        local_url(session.port as int),
        REQUEST_PAUSE@,
        true,
        true,
        seq![
            if pause {
                "pause=true"@
            } else {
                "pause=false"@
            },
        ],
        timestamp,
    )
}

/// Implements `SpotifyConnector`.
impl SpotifyConnector {
    /// Begins the handshake that constructs a new `SpotifyConnector`: first
    /// the port is found, then the two tokens are fetched.
    pub fn connect_new() -> (r: Handshake)
        ensures
            r@ == (HandshakeView::Probing { port: PORT_START }),
    {
        Handshake::Probing { port: PORT_START }
    }

    /// The port of the local client.
    pub fn port(&self) -> (r: i32)
        ensures
            r == self@.port,
    {
        self.port
    }

    /// The bearer token of the session.
    pub fn oauth_token(&self) -> (r: &str)
        ensures
            r@ == self@.oauth_token,
    {
        self.oauth_token.as_str()
    }

    /// The anti-forgery token of the session.
    pub fn csrf_token(&self) -> (r: &str)
        ensures
            r@ == self@.csrf_token,
    {
        self.csrf_token.as_str()
    }

    /// Constructs the local Spotify url.
    pub fn get_local_url(&self) -> (r: String)
        ensures
            r@ == local_url(self@.port as int),
    {
        local_url_for(self.port)
    }

    /// The request that `start_spotify` reads the reply of: it asks the
    /// client on `port` to open.
    pub fn start_spotify_request(port: u16) -> (r: HttpRequest)
        ensures
            exists|timestamp: i64| r@ == unsigned_request(port as int, REQUEST_OPEN@, timestamp),
    {
        let timestamp = unix_time_now();
        let base = local_url_for(port as i32);
        let r = HttpRequest::get(build_url(base.as_str(), REQUEST_OPEN, None, None, &None, timestamp));
        assert(r@ == unsigned_request(port as int, REQUEST_OPEN@, timestamp));
        r
    }

    /// Whether the document of an open response says that the client runs.
    pub fn running_from(json: &JsonNode) -> (r: bool)
        ensures
            r == running_in(*json),
    {
        match json.member("running") {
            Some(node) => node.is_true(),
            None => false,
        }
    }

    /// Reads the reply to the open request: whether the client runs.
    pub fn start_spotify(reply: Reply) -> (r: Result<bool, InternalSpotifyError>)
        ensures
            r == match reply_json(reply) {
                Ok(json) => Ok::<bool, InternalSpotifyError>(running_in(json)),
                Err(error) => Err(error),
            },
    {
        match Self::read_reply(reply) {
            Ok(result) => {
                proof {
                    let named = reply_json(reply)->Ok_0;
                    lemma_agreeing_fields(result, named, "running"@);
                    lemma_agreeing_readings(
                        result.spec_field("running"@),
                        named.spec_field("running"@),
                    );
                }
                Ok(Self::running_from(&result))
            },
            Err(error) => Err(error),
        }
    }

    /// The bearer token in the document of a token response.
    pub fn oauth_token_from(json: &JsonNode) -> (r: Result<String, InternalSpotifyError>)
        ensures
            token_result(r) == oauth_token_in(*json),
    {
        match index(Some(json), "t") {
            Some(node) => match node.as_str() {
                Some(token) => Ok(token.to_owned()),
                None => Err(InternalSpotifyError::InvalidOAuthToken),
            },
            None => Err(InternalSpotifyError::InvalidOAuthToken),
        }
    }

    /// The anti-forgery token in the document of a token response.
    pub fn csrf_token_from(json: &JsonNode) -> (r: Result<String, InternalSpotifyError>)
        ensures
            token_result(r) == csrf_token_in(*json),
    {
        match index(Some(json), "token") {
            Some(node) => match node.as_str() {
                Some(token) => Ok(token.to_owned()),
                None => Err(InternalSpotifyError::InvalidCSRFToken),
            },
            None => Err(InternalSpotifyError::InvalidCSRFToken),
        }
    }

    /// Reads the OAuth token from the reply to the token request.
    pub fn fetch_oauth_token(reply: Reply) -> (r: Result<String, InternalSpotifyError>)
        ensures
            token_result(r) == oauth_token_of(reply),
    {
        match Self::read_reply(reply) {
            Ok(json) => {
                proof {
                    let named = reply_json(reply)->Ok_0;
                    lemma_agreeing_fields(json, named, "t"@);
                    lemma_agreeing_readings(json.spec_field("t"@), named.spec_field("t"@));
                }
                Self::oauth_token_from(&json)
            },
            Err(error) => Err(error),
        }
    }

    /// Reads the CSRF token from the reply to the token request.
    pub fn fetch_csrf_token(reply: Reply) -> (r: Result<String, InternalSpotifyError>)
        ensures
            token_result(r) == csrf_token_of(reply),
    {
        match Self::read_reply(reply) {
            Ok(json) => {
                proof {
                    let named = reply_json(reply)->Ok_0;
                    lemma_agreeing_fields(json, named, "token"@);
                    lemma_agreeing_readings(json.spec_field("token"@), named.spec_field("token"@));
                }
                Self::csrf_token_from(&json)
            },
            Err(error) => Err(error),
        }
    }

    /// The request for the current status.
    pub fn fetch_status_json(&self) -> (r: HttpRequest)
        ensures
            exists|timestamp: i64| r@ == status_request(self@, timestamp),
    {
        let timestamp = unix_time_now();
        let r = self.query_at(self.get_local_url().as_str(), REQUEST_STATUS, true, true, None, timestamp);
        assert(r@ == status_request(self@, timestamp));
        r
    }

    /// The parameter that names the track to play.
    pub fn play_params(track: &str) -> (r: Vec<String>)
        ensures
            texts(r@) == seq!["uri="@ + track@],
    {
        let mut param = String::new();
        param.append("uri=");
        param.append(track);
        let r = vec![param];
        assert(texts(r@) =~= seq!["uri="@ + track@]);
        r
    }

    /// The parameter that sets the pause flag.
    pub fn pause_params(pause: bool) -> (r: Vec<String>)
        ensures
            texts(r@) == seq![
                if pause {
                    "pause=true"@
                } else {
                    "pause=false"@
                },
            ],
    {
        let mut param = String::new();
        if pause {
            param.append("pause=true");
        } else {
            param.append("pause=false");
        }
        let r = vec![param];
        assert(texts(r@) =~= seq![
            if pause {
                "pause=true"@
            } else {
                "pause=false"@
            },
        ]);
        r
    }

    /// The request for a track to be played.
    pub fn request_play(&self, track: String) -> (r: HttpRequest)
        ensures
            exists|timestamp: i64| r@ == play_request(self@, track@, timestamp),
    {
        let timestamp = unix_time_now();
        let params = Self::play_params(track.as_str());
        let r = self.query_at(
            self.get_local_url().as_str(),
            REQUEST_PLAY,
            true,
            true,
            Some(params),
            timestamp,
        );
        assert(r@ == play_request(self@, track@, timestamp));
        r
    }

    /// The request for the currently playing track to be paused or resumed.
    pub fn request_pause(&self, pause: bool) -> (r: HttpRequest)
        ensures
            exists|timestamp: i64| r@ == pause_request(self@, pause, timestamp),
    {
        let timestamp = unix_time_now();
        let params = Self::pause_params(pause);
        let r = self.query_at(
            self.get_local_url().as_str(),
            REQUEST_PAUSE,
            true,
            true,
            Some(params),
            timestamp,
        );
        assert(r@ == pause_request(self@, pause, timestamp));
        r
    }

    /// The request that queries the specified base url with the specified
    /// query at `timestamp`. Includes the OAuth and/or CSRF token in the
    /// query where asked to.
    pub fn query_at(
        &self,
        base: &str,
        query: &str,
        with_oauth: bool,
        with_csrf: bool,
        params: Option<Vec<String>>,
        timestamp: i64,
    ) -> (r: HttpRequest)
        ensures
            r@ == signed_request(
                self@,
                base@,
                query@,
                with_oauth,
                with_csrf,
                params_of(params),
                timestamp,
            ),
    {
        let oauth = if with_oauth {
            Some(self.oauth_token.as_str())
        } else {
            None
        };
        let csrf = if with_csrf {
            Some(self.csrf_token.as_str())
        } else {
            None
        };
        HttpRequest::get(build_url(base, query, oauth, csrf, &params, timestamp))
    }

    /// The request that queries the specified base url with the specified
    /// query now: its timestamp is read from the clock.
    pub fn query(
        &self,
        base: &str,
        query: &str,
        with_oauth: bool,
        with_csrf: bool,
        params: Option<Vec<String>>,
    ) -> (r: HttpRequest)
        ensures
            exists|timestamp: i64|
                r@ == signed_request(
                    self@,
                    base@,
                    query@,
                    with_oauth,
                    with_csrf,
                    params_of(params),
                    timestamp,
                ),
    {
        let timestamp = unix_time_now();
        let r = self.query_at(base, query, with_oauth, with_csrf, params, timestamp);
        assert(r@ == signed_request(
            self@,
            base@,
            query@,
            with_oauth,
            with_csrf,
            params_of(params),
            timestamp,
        ));
        r
    }

    /// Reads what came back for a query: the JSON document of the body. The
    /// document is the one that the body is read as, but for
    /// single-precision bits that are not settled.
    pub fn read_reply(reply: Reply) -> (r: Result<JsonNode, InternalSpotifyError>)
        ensures
            reads_as(r, reply_json(reply)),
    {
        match reply {
            Reply::Body(response) => match JsonNode::parse(response.as_str()) {
                Ok(result) => Ok(result),
                Err(error) => Err(InternalSpotifyError::JSONParseError(error)),
            },
            Reply::ReqwestError(message) => Err(InternalSpotifyError::ReqwestError(message)),
            Reply::IOError(message) => Err(InternalSpotifyError::IOError(message)),
        }
    }

    /// Whether a query came back with a JSON document.
    pub fn succeeded(reply: Reply) -> (r: bool)
        ensures
            r == reply_json(reply) is Ok,
    {
        Self::read_reply(reply).is_ok()
    }
}

/// The handshake: from the search for the port to the session or the error
/// that ends it.
#[derive(Debug, PartialEq, Eq)]
pub enum Handshake {
    /// The ports before `port` are free; `port` is the next to probe.
    Probing { port: u16 },
    /// The client listens on `port`; the bearer token is to be fetched.
    Bearer { port: u16 },
    /// The bearer token is known; the anti-forgery token is to be fetched.
    AntiForgery { port: u16, oauth_token: String },
    /// Both tokens are known.
    Established { connector: SpotifyConnector },
    /// The handshake has failed.
    Failed { error: InternalSpotifyError },
}

/// A handshake as plain values.
pub enum HandshakeView {
    Probing { port: u16 },
    Bearer { port: u16 },
    AntiForgery { port: u16, oauth_token: Seq<char> },
    Established { session: ConnectorView },
    Failed { error: InternalSpotifyError },
}

/// What the handshake asks for next.
#[derive(Debug, PartialEq, Eq)]
pub enum HandshakeAction {
    /// Try to bind the loopback address on this port.
    Probe(u16),
    /// Send this request.
    Send(HttpRequest),
    /// Nothing: the handshake is over.
    Done,
}

/// What happened to the action that the handshake asked for.
#[derive(Debug, PartialEq, Eq)]
pub enum HandshakeEvent {
    /// The port was probed: `true` where the bind failed, the port being in
    /// use.
    Probed(bool),
    /// The request was sent.
    Replied(Reply),
}

impl View for Handshake {
    type V = HandshakeView;

    open spec fn view(&self) -> HandshakeView {
        match *self {
            Handshake::Probing { port } => HandshakeView::Probing { port },
            Handshake::Bearer { port } => HandshakeView::Bearer { port },
            Handshake::AntiForgery { port, oauth_token } => HandshakeView::AntiForgery {
                port,
                oauth_token: oauth_token@,
            },
            Handshake::Established { connector } => HandshakeView::Established { session: connector@ },
            Handshake::Failed { error } => HandshakeView::Failed { error },
        }
    }
}

/// The state that follows `state` on `event`. A probe that finds the port in
/// use ends the search; one that finds it free moves to the next port, or
/// fails behind the last. A reply yields the token of its stage or fails.
/// An event that the state did not ask for changes nothing.
pub open spec fn next_state(state: HandshakeView, event: HandshakeEvent) -> HandshakeView {
    match (state, event) {
        (HandshakeView::Probing { port }, HandshakeEvent::Probed(occupied)) => if occupied {
            HandshakeView::Bearer { port }
        } else if port < PORT_END {
            HandshakeView::Probing { port: (port + 1) as u16 }
        } else {
            HandshakeView::Failed { error: InternalSpotifyError::EndpointNotFound }
        },
        (HandshakeView::Bearer { port }, HandshakeEvent::Replied(reply)) => match oauth_token_of(
            reply,
        ) {
            Ok(oauth_token) => HandshakeView::AntiForgery { port, oauth_token },
            Err(error) => HandshakeView::Failed { error },
        },
        (
            HandshakeView::AntiForgery { port, oauth_token },
            HandshakeEvent::Replied(reply),
        ) => match csrf_token_of(reply) {
            Ok(csrf_token) => HandshakeView::Established {
                session: ConnectorView { oauth_token, csrf_token, port: port as i32 },
            },
            Err(error) => HandshakeView::Failed { error },
        },
        _ => state,
    }
}

/// What `state` asks for at `timestamp`.
pub open spec fn action_of(state: HandshakeView, timestamp: i64) -> HandshakeActionView {
    match state {
        HandshakeView::Probing { port } => HandshakeActionView::Probe(port),
        HandshakeView::Bearer { port } => HandshakeActionView::Send(oauth_request(timestamp)),
        HandshakeView::AntiForgery { port, oauth_token } => HandshakeActionView::Send(
            unsigned_request(port as int, REQUEST_CSRF@, timestamp),
        ),
        _ => HandshakeActionView::Done,
    }
}

/// An action as plain values.
pub enum HandshakeActionView {
    Probe(u16),
    Send(HttpRequestView),
    Done,
}

impl View for HandshakeAction {
    type V = HandshakeActionView;

    open spec fn view(&self) -> HandshakeActionView {
        match *self {
            HandshakeAction::Probe(port) => HandshakeActionView::Probe(port),
            HandshakeAction::Send(request) => HandshakeActionView::Send(request@),
            HandshakeAction::Done => HandshakeActionView::Done,
        }
    }
}

impl Handshake {
    /// What the handshake asks for at `timestamp`.
    pub fn action_at(&self, timestamp: i64) -> (r: HandshakeAction)
        ensures
            r@ == action_of(self@, timestamp),
    {
        match self {
            Handshake::Probing { port } => HandshakeAction::Probe(*port),
            Handshake::Bearer { port } => HandshakeAction::Send(
                HttpRequest::get(build_url(URL_TOKEN, "", None, None, &None, timestamp)),
            ),
            Handshake::AntiForgery { port, oauth_token } => {
                let base = local_url_for(*port as i32);
                HandshakeAction::Send(
                    HttpRequest::get(build_url(base.as_str(), REQUEST_CSRF, None, None, &None, timestamp)),
                )
            },
            _ => HandshakeAction::Done,
        }
    }

    /// What the handshake asks for now: a request carries the time that the
    /// clock shows.
    pub fn action(&self) -> (r: HandshakeAction)
        ensures
            exists|timestamp: i64| r@ == action_of(self@, timestamp),
    {
        let timestamp = unix_time_now();
        let r = self.action_at(timestamp);
        assert(r@ == action_of(self@, timestamp));
        r
    }

    /// Takes the handshake one step further.
    pub fn step(self, event: HandshakeEvent) -> (r: Handshake)
        ensures
            r@ == next_state(self@, event),
    {
        match (self, event) {
            (Handshake::Probing { port }, HandshakeEvent::Probed(occupied)) => if occupied {
                Handshake::Bearer { port }
            } else if port < PORT_END {
                Handshake::Probing { port: port + 1 }
            } else {
                Handshake::Failed { error: InternalSpotifyError::EndpointNotFound }
            },
            (Handshake::Bearer { port }, HandshakeEvent::Replied(reply)) => {
                match SpotifyConnector::fetch_oauth_token(reply) {
                    Ok(oauth_token) => Handshake::AntiForgery { port, oauth_token },
                    Err(error) => Handshake::Failed { error },
                }
            },
            (Handshake::AntiForgery { port, oauth_token }, HandshakeEvent::Replied(reply)) => {
                match SpotifyConnector::fetch_csrf_token(reply) {
                    Ok(csrf_token) => Handshake::Established {
                        connector: SpotifyConnector { oauth_token, csrf_token, port: port as i32 },
                    },
                    Err(error) => Handshake::Failed { error },
                }
            },
            (state, _) => state,
        }
    }

    /// Whether the handshake is over.
    pub fn is_done(&self) -> (r: bool)
        ensures
            r == (self@ is Established || self@ is Failed),
    {
        match self {
            Handshake::Established { .. } => true,
            Handshake::Failed { .. } => true,
            _ => false,
        }
    }

    /// The port that the search has settled on, once it has.
    pub fn resolved_port(&self) -> (r: Option<u16>)
        ensures
            r == match self@ {
                HandshakeView::Bearer { port } => Some(port),
                HandshakeView::AntiForgery { port, .. } => Some(port),
                _ => None,
            },
    {
        match self {
            Handshake::Bearer { port } => Some(*port),
            Handshake::AntiForgery { port, .. } => Some(*port),
            _ => None,
        }
    }

    /// The outcome of a handshake that is over: the session or the error.
    /// `None` while it is under way.
    pub fn finish(self) -> (r: Option<Result<SpotifyConnector, InternalSpotifyError>>)
        ensures
            match r {
                Some(Ok(connector)) => self@ == (HandshakeView::Established { session: connector@ }),
                Some(Err(error)) => self@ == (HandshakeView::Failed { error }),
                None => !(self@ is Established || self@ is Failed),
            },
    {
        match self {
            Handshake::Established { connector } => Some(Ok(connector)),
            Handshake::Failed { error } => Some(Err(error)),
            _ => None,
        }
    }
}

/// A handshake that asks the client to open: once, as soon as the port is
/// known and before any token is fetched. A failure of that request ends the
/// connection.
#[derive(Debug, PartialEq, Eq)]
pub struct Connection {
    handshake: Handshake,
    opened: bool,
}

/// A connection as plain values.
pub struct ConnectionView {
    pub handshake: HandshakeView,
    /// Whether the open request has been answered.
    pub opened: bool,
}

impl View for Connection {
    type V = ConnectionView;

    closed spec fn view(&self) -> ConnectionView {
        ConnectionView { handshake: self.handshake@, opened: self.opened }
    }
}

/// Whether the open request is what comes next: the port is known, no token
/// has been asked for, and the client has not been asked to open.
pub open spec fn open_is_due(connection: ConnectionView) -> bool {
    !connection.opened && connection.handshake is Bearer
}

/// What `connection` asks for at `timestamp`: the open request where it is
/// due, else what its handshake asks for.
pub open spec fn connection_action(connection: ConnectionView, timestamp: i64) -> HandshakeActionView {
    if open_is_due(connection) {
        HandshakeActionView::Send(
            unsigned_request(connection.handshake->Bearer_port as int, REQUEST_OPEN@, timestamp),
        )
    } else {
        action_of(connection.handshake, timestamp)
    }
}

/// The connection that follows `connection` on `event`. Where the open
/// request is due, a reply that holds a document marks the client as asked,
/// a reply that holds none ends the connection with its error, and an event
/// that was not asked for changes nothing. Else the handshake takes its step.
pub open spec fn connection_next(connection: ConnectionView, event: HandshakeEvent) -> ConnectionView {
    if open_is_due(connection) {
        match event {
            HandshakeEvent::Replied(reply) => match reply_json(reply) {
                Ok(_) => ConnectionView { opened: true, ..connection },
                Err(error) => ConnectionView {
                    handshake: HandshakeView::Failed { error },
                    ..connection
                },
            },
            _ => connection,
        }
    } else {
        ConnectionView { handshake: next_state(connection.handshake, event), ..connection }
    }
}

impl Connection {
    /// The connection that `handshake` begins. The client has not been
    /// asked to open.
    pub fn begin(handshake: Handshake) -> (r: Connection)
        ensures
            r@ == (ConnectionView { handshake: handshake@, opened: false }),
    {
        Connection { handshake, opened: false }
    }

    /// What the connection asks for at `timestamp`.
    pub fn action_at(&self, timestamp: i64) -> (r: HandshakeAction)
        ensures
            r@ == connection_action(self@, timestamp),
    {
        match &self.handshake {
            Handshake::Bearer { port } => {
                if self.opened {
                    self.handshake.action_at(timestamp)
                } else {
                    let base = local_url_for(*port as i32);
                    HandshakeAction::Send(
                        HttpRequest::get(
                            build_url(base.as_str(), REQUEST_OPEN, None, None, &None, timestamp),
                        ),
                    )
                }
            },
            _ => self.handshake.action_at(timestamp),
        }
    }

    /// What the connection asks for now: a request carries the time that the
    /// clock shows.
    pub fn action(&self) -> (r: HandshakeAction)
        ensures
            exists|timestamp: i64| r@ == connection_action(self@, timestamp),
    {
        let timestamp = unix_time_now();
        let r = self.action_at(timestamp);
        assert(r@ == connection_action(self@, timestamp));
        r
    }

    /// Takes the connection one step further.
    pub fn step(self, event: HandshakeEvent) -> (r: Connection)
        ensures
            r@ == connection_next(self@, event),
    {
        let due = !self.opened && match &self.handshake {
            Handshake::Bearer { .. } => true,
            _ => false,
        };
        if due {
            match event {
                HandshakeEvent::Replied(reply) => match SpotifyConnector::start_spotify(reply) {
                    Ok(_) => Connection { handshake: self.handshake, opened: true },
                    Err(error) => Connection {
                        handshake: Handshake::Failed { error },
                        opened: self.opened,
                    },
                },
                _ => self,
            }
        } else {
            Connection { handshake: self.handshake.step(event), opened: self.opened }
        }
    }

    /// Whether the connection is over.
    pub fn is_done(&self) -> (r: bool)
        ensures
            r == (self@.handshake is Established || self@.handshake is Failed),
    {
        self.handshake.is_done()
    }

    /// The outcome of a connection that is over: the session or the error.
    /// `None` while it is under way.
    pub fn finish(self) -> (r: Option<Result<SpotifyConnector, InternalSpotifyError>>)
        ensures
            match r {
                Some(Ok(connector)) => self@.handshake == (HandshakeView::Established {
                    session: connector@,
                }),
                Some(Err(error)) => self@.handshake == (HandshakeView::Failed { error }),
                None => !(self@.handshake is Established || self@.handshake is Failed),
            },
    {
        self.handshake.finish()
    }
}

/// The client is asked to open before any token is asked for: while the
/// open request is due, the connection asks for nothing else, and no event
/// gets it past the stage of the bearer token but into failure.
pub proof fn lemma_open_comes_before_the_tokens(
    connection: ConnectionView,
    event: HandshakeEvent,
    timestamp: i64,
)
    requires
        open_is_due(connection),
    ensures
        connection_action(connection, timestamp) == HandshakeActionView::Send(
            unsigned_request(connection.handshake->Bearer_port as int, REQUEST_OPEN@, timestamp),
        ),
        connection_next(connection, event).handshake == connection.handshake || connection_next(
            connection,
            event,
        ).handshake is Failed,
        !connection_next(connection, event).opened ==> connection_next(connection, event).handshake
            is Failed || connection_next(connection, event) == connection,
{
}

/// A handshake that is over stays as it is, whatever happens.
pub proof fn lemma_finished_handshake_stays(state: HandshakeView, event: HandshakeEvent)
    requires
        state is Established || state is Failed,
    ensures
        next_state(state, event) == state,
{
}

/// No session comes about with a token missing: a step that establishes the
/// session starts from a known bearer token and takes in a reply that holds
/// the anti-forgery token, and the session carries exactly these two and the
/// port that was found.
pub proof fn lemma_session_holds_both_tokens(state: HandshakeView, event: HandshakeEvent)
    requires
        !(state is Established),
        next_state(state, event) is Established,
    ensures
        state is AntiForgery,
        event is Replied,
        csrf_token_of(event->Replied_0) is Ok,
        next_state(state, event)->session == (ConnectorView {
            oauth_token: state->AntiForgery_oauth_token,
            csrf_token: csrf_token_of(event->Replied_0)->Ok_0,
            port: state->AntiForgery_port as i32,
        }),
{
}

/// Where the search for the port ends, when it starts at `port` and the
/// ports in `bound` are those in use: the state that `next_state` leads to
/// once it leaves the search.
pub open spec fn scan(bound: Set<u16>, port: u16) -> HandshakeView
    decreases PORT_END - port,
{
    let next = next_state(
        HandshakeView::Probing { port },
        HandshakeEvent::Probed(bound.contains(port)),
    );
    if next is Probing && port < PORT_END {
        scan(bound, (port + 1) as u16)
    } else {
        next
    }
}

/// The search settles on the first port of the range that is in use.
pub proof fn lemma_scan_finds_first_bound_port(bound: Set<u16>, from: u16, port: u16)
    requires
        from <= port <= PORT_END,
        bound.contains(port),
        forall|q: u16| from <= q < port ==> !bound.contains(q),
    ensures
        scan(bound, from) == (HandshakeView::Bearer { port }),
    decreases port - from,
{
    if from < port {
        lemma_scan_finds_first_bound_port(bound, (from + 1) as u16, port);
    }
}

/// Where no port from `from` to the last is in use, the search fails.
pub proof fn lemma_scan_fails_on_free_range(bound: Set<u16>, from: u16)
    requires
        from <= PORT_END,
        forall|q: u16| from <= q <= PORT_END ==> !bound.contains(q),
    ensures
        scan(bound, from) == (HandshakeView::Failed { error: InternalSpotifyError::EndpointNotFound }),
    decreases PORT_END - from,
{
    if from < PORT_END {
        lemma_scan_fails_on_free_range(bound, (from + 1) as u16);
    }
}

/// Where exactly one port of the range is in use, the search settles on it.
pub proof fn lemma_scan_finds_only_bound_port(bound: Set<u16>, port: u16)
    requires
        PORT_START <= port <= PORT_END,
        forall|q: u16| PORT_START <= q <= PORT_END ==> (bound.contains(q) <==> q == port),
    ensures
        scan(bound, PORT_START) == (HandshakeView::Bearer { port }),
{
    lemma_scan_finds_first_bound_port(bound, PORT_START, port);
}

/// Two requests that differ in nothing but the time they are made at have
/// URLs that differ in nothing but the digits of the timestamp: what stands
/// before the digits is the same, and so is what stands behind them.
pub proof fn lemma_urls_differ_in_timestamp_only(
    base: Seq<char>,
    query: Seq<char>,
    oauth: Option<Seq<char>>,
    csrf: Option<Seq<char>>,
    params: Seq<Seq<char>>,
    first: i64,
    second: i64,
)
    ensures
        ({
            let a = request_url(base, query, oauth, csrf, params, first);
            let b = request_url(base, query, oauth, csrf, params, second);
            let head = url_head(base, query).len() as int;
            let a_digits = decimal(first as int).len() as int;
            let b_digits = decimal(second as int).len() as int;
            &&& a.subrange(0, head) == b.subrange(0, head)
            &&& a.subrange(head, head + a_digits) == decimal(first as int)
            &&& b.subrange(head, head + b_digits) == decimal(second as int)
            &&& a.skip(head + a_digits) == b.skip(head + b_digits)
            &&& first != second ==> a != b
        }),
{
    let a = request_url(base, query, oauth, csrf, params, first);
    let b = request_url(base, query, oauth, csrf, params, second);
    let head = url_head(base, query);
    let tail = url_tail(oauth, csrf, params);
    let start = head.len() as int;
    let a_end = start + decimal(first as int).len();
    let b_end = start + decimal(second as int).len();
    assert(a.subrange(0, start) == head);
    assert(b.subrange(0, start) == head);
    assert(a.subrange(start, a_end) == decimal(first as int));
    assert(b.subrange(start, b_end) == decimal(second as int));
    assert(a.skip(a_end) == tail);
    assert(b.skip(b_end) == tail);
    if a == b {
        assert(a_end == b_end);
        lemma_decimal_injective(first as int, second as int);
    }
}

} // verus!
