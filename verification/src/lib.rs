//! Client-side logic for the local control surface of the Spotify desktop
//! client: session handshake, request signing, status mapping, change
//! detection and the polling reactor.

pub mod connector;
pub mod json;
pub mod reactor;
pub mod single;
pub mod status;
pub mod text;
pub mod webhelper;
pub mod windows_process;

use crate::connector::{
    pause_request, play_request, reply_json, status_request, ConnectorView, Handshake,
    HandshakeView, HttpRequest, InternalSpotifyError, Reply, SpotifyConnector,
};
use crate::json::document_of;
use crate::reactor::{Reactor, ReactorState, ReactorView};
use crate::status::{
    lemma_agreeing_documents_read_alike, status_of, status_reads, SpotifyStatus, StatusView,
};
use crate::text::{
    chars_of, has_prefix, lemma_replaced_without_occurrence, lemma_trimmed_without_prefix, replace,
    replaced, starts_with, string_of, trim_start_matches, trimmed,
};
use crate::webhelper::{SpotifyWebHelper, WEBHELPER_PROCESS};
use crate::windows_process::ProcessEntry;
use vstd::prelude::*;

verus! {

/// The `SpotifyError` enum.
#[derive(Debug, PartialEq, Eq)]
pub enum SpotifyError {
    /// An internal error.
    InternalError(InternalSpotifyError),
    /// Indicates that the Spotify Client is not running.
    ClientNotRunning,
    /// Indicates that the SpotifyWebHelper process it not running.
    WebHelperNotRunning,
}

/// The Spotify API.
#[derive(Debug, PartialEq, Eq)]
pub struct Spotify {
    /// The Spotify connector.
    connector: SpotifyConnector,
}

impl View for Spotify {
    type V = ConnectorView;

    closed spec fn view(&self) -> ConnectorView {
        self.connector@
    }
}

/// The status that a reply to the status request holds: every JSON document
/// is a status, and nothing else is.
pub open spec fn status_in(reply: Reply) -> Result<StatusView, SpotifyError> {
    match reply_json(reply) {
        Ok(json) => Ok(status_of(json)),
        Err(error) => Err(SpotifyError::InternalError(error)),
    }
}

/// Whether `read` is what the reply holds, the status or the error: an error
/// is the error of the reply; a status is the one that the document of the
/// reply reads as, but for single-precision bits that are not settled.
pub open spec fn status_reads_as(read: Result<StatusView, SpotifyError>, reply: Reply) -> bool {
    match (read, reply_json(reply)) {
        (Ok(status), Ok(json)) => status_reads(status, json),
        (Err(error), Err(inner)) => error == SpotifyError::InternalError(inner),
        _ => false,
    }
}

/// The view of a result that holds a status.
pub open spec fn status_result(r: Result<SpotifyStatus, SpotifyError>) -> Result<
    StatusView,
    SpotifyError,
> {
    match r {
        Ok(status) => Ok(status@),
        Err(error) => Err(error),
    }
}

/// Reads the current status from the reply to the status request. It
/// succeeds on every reply whose body is a JSON document, and on no other.
pub fn get_status(reply: Reply) -> (r: Result<SpotifyStatus, SpotifyError>)
    ensures
        status_reads_as(status_result(r), reply),
{
    match SpotifyConnector::read_reply(reply) {
        Ok(result) => {
            proof {
                lemma_agreeing_documents_read_alike(result, reply_json(reply)->Ok_0);
            }
            Ok(SpotifyStatus::from(result))
        },
        Err(error) => Err(SpotifyError::InternalError(error)),
    }
}

/// A reply holds a status exactly when its body is read as a JSON document,
/// whatever members the document has or lacks; the status is the one that
/// the document reads as. Where the volume and the playing position are
/// settled, a status that is read from the reply is that status in every
/// field.
pub proof fn lemma_every_document_holds_a_status(text: String, read: StatusView)
    ensures
        status_in(Reply::Body(text)) is Ok <==> document_of(text@) is Ok,
        document_of(text@) matches Ok(json) ==> status_in(Reply::Body(text)) == Ok::<
            StatusView,
            SpotifyError,
        >(status_of(json)),
        ({
            let document = document_of(text@)->Ok_0;
            &&& document_of(text@) is Ok
            &&& status_reads(read, document)
            &&& document.spec_field("volume"@).single_is_settled()
            &&& document.spec_field("playing_position"@).single_is_settled()
        }) ==> read == status_of(document_of(text@)->Ok_0),
{
}

/// The canonical URI of a track reference. `https://` becomes `http://`
/// throughout; a leading protocol and a leading domain name are dropped;
/// every slash becomes a colon; leading colons are dropped; and `spotify:`
/// is put in front unless the text begins with it.
pub open spec fn track_uri(track: Seq<char>) -> Seq<char> {
    let plain = replaced(track, "https://"@, "http://"@);
    let path = trimmed(trimmed(plain, "http://"@), "open.spotify.com"@);
    let bare = trimmed(replaced(path, "/"@, ":"@), ":"@);
    if has_prefix(bare, "spotify:"@) {
        bare
    } else {
        "spotify:"@ + bare
    }
}

/// Whatever the reference, its canonical URI begins with `spotify:`.
pub proof fn lemma_track_uri_names_the_scheme(track: Seq<char>)
    ensures
        has_prefix(track_uri(track), "spotify:"@),
{
    let plain = replaced(track, "https://"@, "http://"@);
    let path = trimmed(trimmed(plain, "http://"@), "open.spotify.com"@);
    let bare = trimmed(replaced(path, "/"@, ":"@), ":"@);
    if !has_prefix(bare, "spotify:"@) {
        assert(("spotify:"@ + bare).subrange(0, "spotify:"@.len() as int) == "spotify:"@);
    }
}

/// A reference that begins with `spotify:` and holds no slash is canonical:
/// its URI is the reference itself.
pub proof fn lemma_track_uri_keeps_a_uri(track: Seq<char>)
    requires
        has_prefix(track, "spotify:"@),
        !track.contains('/'),
    ensures
        track_uri(track) == track,
{
    reveal_strlit("spotify:");
    reveal_strlit("https://");
    reveal_strlit("http://");
    reveal_strlit("open.spotify.com");
    reveal_strlit("/");
    reveal_strlit(":");
    assert(track.subrange(0, "spotify:"@.len() as int)[0] == track[0]);
    assert(track[0] == 's');
    assert("https://"@[6] == '/');
    assert("/"@[0] == '/');
    lemma_replaced_without_occurrence(track, "https://"@, "http://"@, '/');
    lemma_trimmed_without_prefix(track, "http://"@);
    lemma_trimmed_without_prefix(track, "open.spotify.com"@);
    lemma_replaced_without_occurrence(track, "/"@, ":"@, '/');
    lemma_trimmed_without_prefix(track, ":"@);
}

/// Whether a list of the running processes is given and the helper process
/// is not among them.
pub open spec fn helper_is_missing(snapshot: Option<&Vec<ProcessEntry>>) -> bool {
    match snapshot {
        Some(processes) => !exists|i: int|
            0 <= i < processes@.len() && (#[trigger] processes@[i]).exe_file@ == WEBHELPER_PROCESS@,
        None => false,
    }
}

/// Implements `Spotify`.
impl Spotify {
    /// Begins to connect to the local Spotify client. Where the platform has
    /// the helper process, `snapshot` lists the running processes, and the
    /// helper must be among them; elsewhere `snapshot` is `None` and nothing
    /// is tested.
    pub fn connect(snapshot: Option<&Vec<ProcessEntry>>) -> (r: Result<Handshake, SpotifyError>)
        ensures
            match r {
                Ok(handshake) => handshake@ == (HandshakeView::Probing { port: connector::PORT_START }),
                Err(error) => error == SpotifyError::WebHelperNotRunning,
            },
            r is Err <==> helper_is_missing(snapshot),
    {
        match snapshot {
            Some(processes) => {
                if !Spotify::spotify_webhelper_alive(processes) {
                    return Err(SpotifyError::WebHelperNotRunning);
                }
            },
            None => {},
        }
        Ok(SpotifyConnector::connect_new())
    }

    /// Constructs a new `Result<Spotify>` from the outcome of the handshake.
    pub fn new_unchecked(outcome: Result<SpotifyConnector, InternalSpotifyError>) -> (r: Result<
        Spotify,
        SpotifyError,
    >)
        ensures
            match r {
                Ok(spotify) => outcome matches Ok(connector) && spotify@ == connector@,
                Err(error) => outcome matches Err(inner) && error == SpotifyError::InternalError(inner),
            },
    {
        match outcome {
            Ok(result) => Ok(Spotify { connector: result }),
            Err(error) => Err(SpotifyError::InternalError(error)),
        }
    }

    /// Hands `self` to a reactor that polls the client status. The reactor
    /// has not started and has seen no status.
    pub fn poll(self) -> (r: Reactor)
        ensures
            r@ == (ReactorView {
                session: self@,
                state: ReactorState::Idle,
                last: None,
                interval_ms: reactor::POLL_INTERVAL_MS,
            }),
    {
        Reactor::new(self)
    }

    /// The request for the current status of the client.
    pub fn status(&self) -> (r: HttpRequest)
        ensures
            exists|timestamp: i64| r@ == status_request(self@, timestamp),
    {
        let r = self.connector.fetch_status_json();
        proof {
            let timestamp = choose|timestamp: i64| r@ == status_request(self.connector@, timestamp);
            assert(r@ == status_request(self@, timestamp));
        }
        r
    }

    /// Fixes a broken track reference: a web address, a path or a bare
    /// identifier becomes a `spotify:` URI.
    pub fn fix_track_uri(track: &str) -> (r: String)
        ensures
            r@ == track_uri(track@),
    {
        let track = chars_of(track);
        let slash = chars_of("/");
        let colon = chars_of(":");
        let http = chars_of("http://");
        let track = replace(&track, &chars_of("https://"), &http);  // https -> http
        let track = trim_start_matches(&track, &http);  // get rid of protocol
        let track = trim_start_matches(&track, &chars_of("open.spotify.com"));  // get rid of domain name
        let track = replace(&track, &slash, &colon);  // turn all / into :
        let track = trim_start_matches(&track, &colon);  // get rid of : at the beginning
        let scheme = chars_of("spotify:");
        if starts_with(&track, &scheme) {
            string_of(&track)
        } else {
            let mut fixed = string_of(&scheme);  // prepend proper protocol
            fixed.append(string_of(&track).as_str());
            fixed
        }
    }

    /// The request that plays a track.
    pub fn play(&self, track: String) -> (r: HttpRequest)
        ensures
            exists|timestamp: i64| r@ == play_request(self@, track_uri(track@), timestamp),
    {
        // Try to fix broken track URIs
        // In: https://open.spotify.com/track/1pGZIV8olkbRMjyHWoEXyt
        // In: open.spotify.com/track/1pGZIV8olkbRMjyHWoEXyt
        // In: track/1pGZIV8olkbRMjyHWoEXyt
        // In: track:1pGZIV8olkbRMjyHWoEXyt
        // Out: spotify:track:1pGZIV8olkbRMjyHWoEXyt
        let fixed = Self::fix_track_uri(track.as_str());
        // Play the track
        let r = self.connector.request_play(fixed);
        proof {
            let timestamp = choose|timestamp: i64|
                r@ == play_request(self.connector@, fixed@, timestamp);
            assert(r@ == play_request(self@, track_uri(track@), timestamp));
        }
        r
    }

    /// The request that pauses the currently playing track.
    /// Has no effect if the track is already paused.
    pub fn pause(&self) -> (r: HttpRequest)
        ensures
            exists|timestamp: i64| r@ == pause_request(self@, true, timestamp),
    {
        let r = self.connector.request_pause(true);
        proof {
            let timestamp = choose|timestamp: i64|
                r@ == pause_request(self.connector@, true, timestamp);
            assert(r@ == pause_request(self@, true, timestamp));
        }
        r
    }

    /// The request that resumes the currently paused track.
    /// Has no effect if the track is already playing.
    pub fn resume(&self) -> (r: HttpRequest)
        ensures
            exists|timestamp: i64| r@ == pause_request(self@, false, timestamp),
    {
        let r = self.connector.request_pause(false);
        proof {
            let timestamp = choose|timestamp: i64|
                r@ == pause_request(self.connector@, false, timestamp);
            assert(r@ == pause_request(self@, false, timestamp));
        }
        r
    }

    /// Tests whether the SpotifyWebHelper process is running.
    pub fn spotify_webhelper_alive(snapshot: &Vec<ProcessEntry>) -> (r: bool)
        ensures
            r == exists|i: int|
                0 <= i < snapshot@.len() && (#[trigger] snapshot@[i]).exe_file@ == WEBHELPER_PROCESS@,
    {
        SpotifyWebHelper::is_alive(snapshot)
    }

    /// The session of this client.
    pub fn connector(&self) -> (r: &SpotifyConnector)
        ensures
            r@ == self@,
    {
        &self.connector
    }
}

} // verus!
