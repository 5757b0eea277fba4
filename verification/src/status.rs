//! Status snapshots of the client, how they are read from a JSON response,
//! and the field-by-field comparison of two snapshots.

use crate::json::{
    agree, index, lemma_agreeing_fields, lemma_agreeing_readings, or_null, JsonNode,
};
use crate::single;
use vstd::prelude::*;

verus! {

/// A change in the Spotify status: one flag per field of `SpotifyStatus`.
#[derive(Debug, Clone, Copy, PartialEq, Eq)]
pub struct SpotifyStatusChange {
    /// Indicates a change in the volume.
    pub volume: bool,
    /// Indicates a change in the online status.
    pub online: bool,
    /// Indicates a change in the protocol version.
    pub version: bool,
    /// Indicates a change in the running state.
    pub running: bool,
    /// Indicates a change in the playing state.
    pub playing: bool,
    /// Indicates a change in the shuffle mode.
    pub shuffle: bool,
    /// Indicates a change in the server time.
    pub server_time: bool,
    /// Indicates a change in the play enabled state.
    pub play_enabled: bool,
    /// Indicates a change in the prev enabled state.
    pub prev_enabled: bool,
    /// Indicates a change in the next enabled state.
    pub next_enabled: bool,
    /// Indicates a change in the client version.
    pub client_version: bool,
    /// Indicates a change in the playing position.
    pub playing_position: bool,
    /// Indicates a change in the open graph data.
    pub open_graph_state: bool,
    /// Indicates a change in the track.
    pub track: bool,
}

/// A Spotify Open Graph state.
#[derive(Debug, Clone, Copy, PartialEq, Eq)]
pub struct OpenGraphState {
    /// Whether the current session is private.
    pub private_session: bool,
    /// Whether posting is disabled.
    pub posting_disabled: bool,
}

/// A Spotify resource location.
#[derive(Debug, PartialEq, Eq)]
pub struct ResourceLocation {
    /// The online resource url.
    pub og: String,
}

/// A Spotify resource.
#[derive(Debug, PartialEq, Eq)]
pub struct Resource {
    /// The internal resource uri.
    pub uri: String,
    /// The name.
    pub name: String,
    /// The location.
    pub location: ResourceLocation,
}

/// A Spotify track.
#[derive(Debug, PartialEq, Eq)]
pub struct Track {
    /// The track.
    pub track: Resource,
    /// The album.
    pub album: Resource,
    /// The artist.
    pub artist: Resource,
    /// The length in full seconds.
    pub length: i32,
    /// The track type.
    pub track_type: String,
}

/// A simple track: only the names of the track, its album and its artist.
#[derive(Debug, PartialEq, Eq)]
pub struct SimpleTrack {
    /// The track name.
    pub name: String,
    /// The album name.
    pub album: String,
    /// The artist name.
    pub artist: String,
}

/// A Spotify status.
#[derive(Debug)]
pub struct SpotifyStatus {
    /// The volume, as the bits of a single-precision value in [0.0, 1.0].
    volume: u32,
    /// Whether the client is online.
    online: bool,
    /// The protocol version.
    version: i32,
    /// Whether the client is running.
    running: bool,
    /// Whether a track is currently playing.
    playing: bool,
    /// Whether shuffle mode is activated.
    shuffle: bool,
    /// The server time as a unix timestamp.
    server_time: i64,
    /// Whether playing a track is enabled.
    play_enabled: bool,
    /// Whether playing the previous track is enabled.
    prev_enabled: bool,
    /// Whether playing the next track is enabled.
    next_enabled: bool,
    /// The client version.
    client_version: String,
    /// The current playing position, as the bits of a single-precision
    /// number of seconds.
    playing_position: u32,
    /// The Open Graph state.
    open_graph_state: OpenGraphState,
    /// The currently playing track, if there is one.
    track: Option<Track>,
}

/// A resource location as text.
pub struct ResourceLocationView {
    pub og: Seq<char>,
}

/// A resource as texts.
pub struct ResourceView {
    pub uri: Seq<char>,
    pub name: Seq<char>,
    pub location: ResourceLocationView,
}

/// A track as plain values.
pub struct TrackView {
    pub track: ResourceView,
    pub album: ResourceView,
    pub artist: ResourceView,
    pub length: i32,
    pub track_type: Seq<char>,
}

/// A simple track as texts.
pub struct SimpleTrackView {
    pub name: Seq<char>,
    pub album: Seq<char>,
    pub artist: Seq<char>,
}

/// A status as plain values. The two single-precision fields are held as
/// bits.
pub struct StatusView {
    pub volume: u32,
    pub online: bool,
    pub version: i32,
    pub running: bool,
    pub playing: bool,
    pub shuffle: bool,
    pub server_time: i64,
    pub play_enabled: bool,
    pub prev_enabled: bool,
    pub next_enabled: bool,
    pub client_version: Seq<char>,
    pub playing_position: u32,
    pub open_graph_state: OpenGraphState,
    pub track: Option<TrackView>,
}

impl View for ResourceLocation {
    type V = ResourceLocationView;

    open spec fn view(&self) -> ResourceLocationView {
        ResourceLocationView { og: self.og@ }
    }
}

impl View for Resource {
    type V = ResourceView;

    open spec fn view(&self) -> ResourceView {
        ResourceView { uri: self.uri@, name: self.name@, location: self.location@ }
    }
}

impl View for Track {
    type V = TrackView;

    open spec fn view(&self) -> TrackView {
        TrackView {
            track: self.track@,
            album: self.album@,
            artist: self.artist@,
            length: self.length,
            track_type: self.track_type@,
        }
    }
}

impl View for SimpleTrack {
    type V = SimpleTrackView;

    open spec fn view(&self) -> SimpleTrackView {
        SimpleTrackView { name: self.name@, album: self.album@, artist: self.artist@ }
    }
}

/// The view of an optional track.
pub open spec fn track_view(track: Option<Track>) -> Option<TrackView> {
    match track {
        Some(track) => Some(track@),
        None => None,
    }
}

impl View for SpotifyStatus {
    type V = StatusView;

    closed spec fn view(&self) -> StatusView {
        StatusView {
            volume: self.volume,
            online: self.online,
            version: self.version,
            running: self.running,
            playing: self.playing,
            shuffle: self.shuffle,
            server_time: self.server_time,
            play_enabled: self.play_enabled,
            prev_enabled: self.prev_enabled,
            next_enabled: self.next_enabled,
            client_version: self.client_version@,
            playing_position: self.playing_position,
            open_graph_state: self.open_graph_state,
            track: track_view(self.track),
        }
    }
}

/// A timestamp broken down into calendar fields of coordinated universal
/// time, as the `time` crate gives them.
#[derive(Debug, Clone, Copy, PartialEq, Eq)]
pub struct UtcTime {
    /// Seconds after the minute.
    pub sec: i32,
    /// Minutes after the hour.
    pub min: i32,
    /// Hours after midnight.
    pub hour: i32,
    /// Day of the month.
    pub mday: i32,
    /// Months since January.
    pub mon: i32,
    /// Years since 1900.
    pub year: i32,
    /// Days since Sunday.
    pub wday: i32,
    /// Days since January 1.
    pub yday: i32,
    /// Daylight saving time flag.
    pub isdst: i32,
    /// Seconds east of UTC.
    pub utcoff: i32,
    /// Nanoseconds after the second.
    pub nsec: i32,
}

/// The last timestamp that is broken down: the last second of the year 9999.
pub const LAST_TIMESTAMP: i64 = 253_402_300_799;

/// Calls `time::at_utc` on the timestamp and copies the fields of the `Tm`
/// that comes back. Nothing is claimed of the fields: the crate has them
/// from the platform, and not every platform computes every field alike.
/// Timestamps before 1970 and behind the year 9999 are left out: `at_utc`
/// panics where the platform cannot break a timestamp down.
#[verifier::external_body]
fn utc_time(seconds: i64) -> UtcTime
    requires
        0 <= seconds <= LAST_TIMESTAMP,
{
    let tm = time::at_utc(time::Timespec::new(seconds, 0));
    UtcTime {
        sec: tm.tm_sec, min: tm.tm_min, hour: tm.tm_hour,
        mday: tm.tm_mday, mon: tm.tm_mon, year: tm.tm_year,
        wday: tm.tm_wday, yday: tm.tm_yday, isdst: tm.tm_isdst,
        utcoff: tm.tm_utcoff, nsec: tm.tm_nsec,
    }
}

/// A string field: the text of a JSON string, empty for anything else.
pub open spec fn text_or_empty(json: JsonNode) -> Seq<char> {
    match json.spec_as_str() {
        Some(text) => text,
        None => Seq::empty(),
    }
}

/// A 32-bit integer field: the number where it is one, zero otherwise.
pub open spec fn i32_or_zero(json: JsonNode) -> i32 {
    match json.spec_as_i32() {
        Some(value) => value,
        None => 0,
    }
}

/// A 64-bit integer field: the number where it is one, zero otherwise.
pub open spec fn i64_or_zero(json: JsonNode) -> i64 {
    match json.spec_as_i64() {
        Some(value) => value,
        None => 0,
    }
}

/// A single-precision field: the bits of the number, those of 0.0 for
/// anything that is not a number.
pub open spec fn single_or_zero(json: JsonNode) -> u32 {
    match json.spec_as_single() {
        Some(bits) => bits,
        None => 0,
    }
}

/// The resource location that a JSON value describes.
pub open spec fn location_of(json: JsonNode) -> ResourceLocationView {
    ResourceLocationView { og: text_or_empty(json.spec_field("og"@)) }
}

/// The resource that a JSON value describes.
pub open spec fn resource_of(json: JsonNode) -> ResourceView {
    ResourceView {
        uri: text_or_empty(json.spec_field("uri"@)),
        name: text_or_empty(json.spec_field("name"@)),
        location: location_of(json.spec_field("location"@)),
    }
}

/// The track that a JSON value describes. Its type is read from the `uri`
/// member of the track object itself.
pub open spec fn track_of(json: JsonNode) -> TrackView {
    TrackView {
        track: resource_of(json.spec_field("track_resource"@)),
        album: resource_of(json.spec_field("album_resource"@)),
        artist: resource_of(json.spec_field("artist_resource"@)),
        length: i32_or_zero(json.spec_field("length"@)),
        track_type: text_or_empty(json.spec_field("uri"@)),
    }
}

/// The Open Graph state that a JSON value describes.
pub open spec fn open_graph_of(json: JsonNode) -> OpenGraphState {
    OpenGraphState {
        private_session: json.spec_field("private_session"@).spec_is_true(),
        posting_disabled: json.spec_field("posting_disabled"@).spec_is_true(),
    }
}

/// The status that a JSON response describes. A member that is missing or
/// of another type reads as the zero value of its field; the track is absent
/// where the `track` member is null or missing.
pub open spec fn status_of(json: JsonNode) -> StatusView {
    StatusView {
        volume: single_or_zero(json.spec_field("volume"@)),
        online: json.spec_field("online"@).spec_is_true(),
        version: i32_or_zero(json.spec_field("version"@)),
        running: json.spec_field("running"@).spec_is_true(),
        playing: json.spec_field("playing"@).spec_is_true(),
        shuffle: json.spec_field("shuffle"@).spec_is_true(),
        server_time: i64_or_zero(json.spec_field("server_time"@)),
        play_enabled: json.spec_field("play_enabled"@).spec_is_true(),
        prev_enabled: json.spec_field("prev_enabled"@).spec_is_true(),
        next_enabled: json.spec_field("next_enabled"@).spec_is_true(),
        client_version: text_or_empty(json.spec_field("client_version"@)),
        playing_position: single_or_zero(json.spec_field("playing_position"@)),
        open_graph_state: open_graph_of(json.spec_field("open_graph_state"@)),
        track: if json.spec_field("track"@) is Null {
            None
        } else {
            Some(track_of(json.spec_field("track"@)))
        },
    }
}

/// Transforms a JSON value into an owned String.
fn get_json_str(json: Option<&JsonNode>) -> (r: String)
    ensures
        r@ == text_or_empty(or_null(json)),
{
    match json {
        Some(node) => match node.as_str() {
            Some(val) => val.to_owned(),
            None => String::new(),
        },
        None => String::new(),
    }
}

fn get_json_bool(json: Option<&JsonNode>) -> (r: bool)
    ensures
        r == or_null(json).spec_is_true(),
{
    match json {
        Some(node) => node.is_true(),
        None => false,
    }
}

fn get_json_i32(json: Option<&JsonNode>) -> (r: i32)
    ensures
        r == i32_or_zero(or_null(json)),
{
    match json {
        Some(node) => match node.as_i32() {
            Some(value) => value,
            None => 0,
        },
        None => 0,
    }
}

fn get_json_i64(json: Option<&JsonNode>) -> (r: i64)
    ensures
        r == i64_or_zero(or_null(json)),
{
    match json {
        Some(node) => match node.as_i64() {
            Some(value) => value,
            None => 0,
        },
        None => 0,
    }
}

fn get_json_single(json: Option<&JsonNode>) -> (r: u32)
    ensures
        r == single_or_zero(or_null(json)),
{
    match json {
        Some(node) => match node.as_single() {
            Some(bits) => bits,
            None => 0,
        },
        None => 0,
    }
}

fn location_from(json: Option<&JsonNode>) -> (r: ResourceLocation)
    ensures
        r@ == location_of(or_null(json)),
{
    ResourceLocation { og: get_json_str(index(json, "og")) }
}

fn resource_from(json: Option<&JsonNode>) -> (r: Resource)
    ensures
        r@ == resource_of(or_null(json)),
{
    Resource {
        uri: get_json_str(index(json, "uri")),
        name: get_json_str(index(json, "name")),
        location: location_from(index(json, "location")),
    }
}

fn track_from(json: Option<&JsonNode>) -> (r: Track)
    ensures
        r@ == track_of(or_null(json)),
{
    Track {
        track_type: get_json_str(index(json, "uri")),
        track: resource_from(index(json, "track_resource")),
        album: resource_from(index(json, "album_resource")),
        artist: resource_from(index(json, "artist_resource")),
        length: get_json_i32(index(json, "length")),
    }
}

fn open_graph_from(json: Option<&JsonNode>) -> (r: OpenGraphState)
    ensures
        r == open_graph_of(or_null(json)),
{
    OpenGraphState {
        private_session: get_json_bool(index(json, "private_session")),
        posting_disabled: get_json_bool(index(json, "posting_disabled")),
    }
}

impl ResourceLocation {
    /// Reads a resource location from its JSON object.
    pub fn from(json: &JsonNode) -> (r: ResourceLocation)
        ensures
            r@ == location_of(*json),
    {
        location_from(Some(json))
    }
}

impl Resource {
    /// Reads a resource from its JSON object.
    pub fn from(json: &JsonNode) -> (r: Resource)
        ensures
            r@ == resource_of(*json),
    {
        resource_from(Some(json))
    }
}

impl Track {
    /// Reads a track from its JSON object.
    pub fn from(json: &JsonNode) -> (r: Track)
        ensures
            r@ == track_of(*json),
    {
        track_from(Some(json))
    }
}

impl OpenGraphState {
    /// Reads an Open Graph state from its JSON object.
    pub fn from(json: &JsonNode) -> (r: OpenGraphState)
        ensures
            r == open_graph_of(*json),
    {
        open_graph_from(Some(json))
    }
}

impl SpotifyStatus {
    /// Reads a status from the JSON document of a status response. No
    /// document is refused.
    pub fn from(json: JsonNode) -> (r: SpotifyStatus)
        ensures
            r@ == status_of(json),
    {
        let root = Some(&json);
        let track = match index(root, "track") {
            Some(node) => if node.is_null() {
                None
            } else {
                Some(Track::from(node))
            },
            None => None,
        };
        SpotifyStatus {
            volume: get_json_single(index(root, "volume")),
            online: get_json_bool(index(root, "online")),
            version: get_json_i32(index(root, "version")),
            running: get_json_bool(index(root, "running")),
            playing: get_json_bool(index(root, "playing")),
            shuffle: get_json_bool(index(root, "shuffle")),
            server_time: get_json_i64(index(root, "server_time")),
            play_enabled: get_json_bool(index(root, "play_enabled")),
            prev_enabled: get_json_bool(index(root, "prev_enabled")),
            next_enabled: get_json_bool(index(root, "next_enabled")),
            client_version: get_json_str(index(root, "client_version")),
            playing_position: get_json_single(index(root, "playing_position")),
            open_graph_state: open_graph_from(index(root, "open_graph_state")),
            track,
        }
    }
}

impl Clone for ResourceLocation {
    fn clone(&self) -> (r: Self)
        ensures
            r == *self,
    {
        ResourceLocation { og: self.og.clone() }
    }
}

impl Clone for Resource {
    fn clone(&self) -> (r: Self)
        ensures
            r == *self,
    {
        Resource { uri: self.uri.clone(), name: self.name.clone(), location: self.location.clone() }
    }
}

impl Clone for Track {
    fn clone(&self) -> (r: Self)
        ensures
            r == *self,
    {
        Track {
            track: self.track.clone(),
            album: self.album.clone(),
            artist: self.artist.clone(),
            length: self.length,
            track_type: self.track_type.clone(),
        }
    }
}

impl Clone for SimpleTrack {
    fn clone(&self) -> (r: Self)
        ensures
            r == *self,
    {
        SimpleTrack { name: self.name.clone(), album: self.album.clone(), artist: self.artist.clone() }
    }
}

impl Clone for SpotifyStatus {
    fn clone(&self) -> (r: Self)
        ensures
            r == *self,
    {
        let track = match &self.track {
            Some(track) => Some(track.clone()),
            None => None,
        };
        SpotifyStatus {
            volume: self.volume,
            online: self.online,
            version: self.version,
            running: self.running,
            playing: self.playing,
            shuffle: self.shuffle,
            server_time: self.server_time,
            play_enabled: self.play_enabled,
            prev_enabled: self.prev_enabled,
            next_enabled: self.next_enabled,
            client_version: self.client_version.clone(),
            playing_position: self.playing_position,
            open_graph_state: self.open_graph_state,
            track,
        }
    }
}

impl ResourceLocation {
    /// Whether two locations hold the same text.
    pub fn same_as(&self, other: &ResourceLocation) -> (r: bool)
        ensures
            r == (self@ == other@),
    {
        self.og == other.og
    }
}

impl Resource {
    /// Whether two resources agree in every field.
    pub fn same_as(&self, other: &Resource) -> (r: bool)
        ensures
            r == (self@ == other@),
    {
        self.uri == other.uri && self.name == other.name && self.location.same_as(&other.location)
    }

    /// The resource that a null JSON value reads as.
    pub fn empty() -> (r: Resource)
        ensures
            r@ == resource_of(JsonNode::Null),
    {
        Resource { uri: String::new(), name: String::new(), location: ResourceLocation { og: String::new() } }
    }
}

impl Track {
    /// Whether two tracks agree in every field.
    pub fn same_as(&self, other: &Track) -> (r: bool)
        ensures
            r == (self@ == other@),
    {
        self.track.same_as(&other.track) && self.album.same_as(&other.album) && self.artist.same_as(
            &other.artist,
        ) && self.length == other.length && self.track_type == other.track_type
    }

    /// The track that a null JSON value reads as: empty texts and length 0.
    pub fn empty() -> (r: Track)
        ensures
            r@ == track_of(JsonNode::Null),
    {
        Track {
            track: Resource::empty(),
            album: Resource::empty(),
            artist: Resource::empty(),
            length: 0,
            track_type: String::new(),
        }
    }
}

/// Whether two optional tracks are both absent or agree in every field.
fn same_track(a: &Option<Track>, b: &Option<Track>) -> (r: bool)
    ensures
        r == (track_view(*a) == track_view(*b)),
{
    match (a, b) {
        (Some(a), Some(b)) => a.same_as(b),
        (None, None) => true,
        _ => false,
    }
}

/// The names of a track.
pub open spec fn simple_track_of(track: TrackView) -> SimpleTrackView {
    SimpleTrackView { name: track.track.name, album: track.album.name, artist: track.artist.name }
}

/// How a simple track is displayed: artist, then name.
pub open spec fn simple_track_text(track: SimpleTrackView) -> Seq<char> {
    track.artist + " - "@ + track.name
}

impl SimpleTrack {
    /// The names of `track`, its album and its artist.
    pub fn from(track: &Track) -> (r: SimpleTrack)
        ensures
            r@ == simple_track_of(track@),
    {
        SimpleTrack {
            name: track.track.name.clone(),
            album: track.album.name.clone(),
            artist: track.artist.name.clone(),
        }
    }

    /// The names of the track that `status` holds.
    pub fn from_status(status: &SpotifyStatus) -> (r: SimpleTrack)
        ensures
            r@ == simple_track_of(status.spec_full_track()),
    {
        status.track()
    }

    /// The display text, `artist - name`.
    pub fn to_string(&self) -> (r: String)
        ensures
            r@ == simple_track_text(self@),
    {
        let mut text = self.artist.clone();
        text.append(" - ");
        text.append(self.name.as_str());
        text
    }
}

/// Implements `SpotifyStatus`.
impl SpotifyStatus {
    /// The track of the status, or the track of empty fields where it has
    /// none.
    pub open spec fn spec_full_track(&self) -> TrackView {
        match self@.track {
            Some(track) => track,
            None => track_of(JsonNode::Null),
        }
    }

    /// Whether the status holds a track.
    pub fn has_track(&self) -> (r: bool)
        ensures
            r == self@.track is Some,
    {
        self.track.is_some()
    }

    /// Gets an easy-to-work-with abstraction over
    /// the currently playing track, containing only
    /// the names of the track, album and artist.
    pub fn track(&self) -> (r: SimpleTrack)
        ensures
            r@ == simple_track_of(self.spec_full_track()),
    {
        match &self.track {
            Some(track) => SimpleTrack::from(track),
            None => SimpleTrack { name: String::new(), album: String::new(), artist: String::new() },
        }
    }

    /// Gets all information regarding the
    /// currently playing track.
    pub fn full_track(&self) -> (r: Track)
        ensures
            r@ == self.spec_full_track(),
    {
        match &self.track {
            Some(track) => track.clone(),
            None => Track::empty(),
        }
    }

    /// Gets the client version.
    pub fn version(&self) -> (r: String)
        ensures
            r@ == self@.client_version,
    {
        self.client_version.clone()
    }

    /// Gets the protocol version.
    pub fn protocol_version(&self) -> (r: i32)
        ensures
            r == self@.version,
    {
        self.version
    }

    /// Gets the volume as the bits of a single-precision value.
    pub fn volume_bits(&self) -> (r: u32)
        ensures
            r == self@.volume,
    {
        self.volume
    }

    /// Gets the playing position as the bits of a single-precision number
    /// of seconds.
    pub fn playing_position_bits(&self) -> (r: u32)
        ensures
            r == self@.playing_position,
    {
        self.playing_position
    }

    /// Gets the server timestamp.
    pub fn timestamp(&self) -> (r: i64)
        ensures
            r == self@.server_time,
    {
        self.server_time
    }

    /// Gets the coordinated universal server time: the timestamp broken
    /// down into calendar fields. A timestamp before 1970 or behind the year
    /// 9999 is not broken down.
    pub fn time_utc(&self) -> (r: Option<UtcTime>)
        ensures
            r is Some <==> 0 <= self@.server_time <= LAST_TIMESTAMP,
    {
        if 0 <= self.server_time && self.server_time <= LAST_TIMESTAMP {
            Some(utc_time(self.server_time))
        } else {
            None
        }
    }

    /// Gets a value indicating whether shuffling is enabled.
    pub fn shuffle_enabled(&self) -> (r: bool)
        ensures
            r == self@.shuffle,
    {
        self.shuffle
    }

    /// Gets a value indicating whether the client is
    /// currently connected to the Internet.
    pub fn is_online(&self) -> (r: bool)
        ensures
            r == self@.online,
    {
        self.online
    }

    /// Gets a value indicating whether the client is running.
    pub fn is_running(&self) -> (r: bool)
        ensures
            r == self@.running,
    {
        self.running
    }

    /// Gets a value indicating whether a track is playing.
    pub fn is_playing(&self) -> (r: bool)
        ensures
            r == self@.playing,
    {
        self.playing
    }

    /// Gets a value indicating whether the current
    /// session is a private session.
    pub fn is_private_session(&self) -> (r: bool)
        ensures
            r == self@.open_graph_state.private_session,
    {
        self.open_graph_state.private_session
    }
}

/// Implements `SpotifyStatusChange`.
impl SpotifyStatusChange {
    /// The change whose every flag is `value`.
    pub open spec fn all(value: bool) -> SpotifyStatusChange {
        SpotifyStatusChange {
            volume: value,
            online: value,
            version: value,
            running: value,
            playing: value,
            shuffle: value,
            server_time: value,
            play_enabled: value,
            prev_enabled: value,
            next_enabled: value,
            client_version: value,
            playing_position: value,
            open_graph_state: value,
            track: value,
        }
    }

    /// The change between two statuses: a flag is set where the field of
    /// that name differs. Single-precision fields are compared as values,
    /// texts and the track by their content.
    pub open spec fn between(curr: StatusView, last: StatusView) -> SpotifyStatusChange {
        SpotifyStatusChange {
            volume: !single::same_value(curr.volume, last.volume),
            online: curr.online != last.online,
            version: curr.version != last.version,
            running: curr.running != last.running,
            playing: curr.playing != last.playing,
            shuffle: curr.shuffle != last.shuffle,
            server_time: curr.server_time != last.server_time,
            play_enabled: curr.play_enabled != last.play_enabled,
            prev_enabled: curr.prev_enabled != last.prev_enabled,
            next_enabled: curr.next_enabled != last.next_enabled,
            client_version: curr.client_version != last.client_version,
            playing_position: !single::same_value(curr.playing_position, last.playing_position),
            open_graph_state: curr.open_graph_state != last.open_graph_state,
            track: curr.track != last.track,
        }
    }

    /// Constructs a new `SpotifyStatusChange` with all fields set to true.
    pub fn new_true() -> (r: SpotifyStatusChange)
        ensures
            r == Self::all(true),
    {
        SpotifyStatusChange {
            volume: true,
            online: true,
            version: true,
            running: true,
            playing: true,
            shuffle: true,
            server_time: true,
            play_enabled: true,
            prev_enabled: true,
            next_enabled: true,
            client_version: true,
            playing_position: true,
            open_graph_state: true,
            track: true,
        }
    }

    /// Compares `curr` with `last`, field by field.
    pub fn diff(curr: &SpotifyStatus, last: &SpotifyStatus) -> (r: SpotifyStatusChange)
        ensures
            r == Self::between(curr@, last@),
    {
        SpotifyStatusChange {
            volume: !single::equal(curr.volume, last.volume),
            online: curr.online != last.online,
            version: curr.version != last.version,
            running: curr.running != last.running,
            playing: curr.playing != last.playing,
            shuffle: curr.shuffle != last.shuffle,
            server_time: curr.server_time != last.server_time,
            play_enabled: curr.play_enabled != last.play_enabled,
            prev_enabled: curr.prev_enabled != last.prev_enabled,
            next_enabled: curr.next_enabled != last.next_enabled,
            client_version: curr.client_version != last.client_version,
            playing_position: !single::equal(curr.playing_position, last.playing_position),
            open_graph_state: curr.open_graph_state.private_session
                != last.open_graph_state.private_session
                || curr.open_graph_state.posting_disabled != last.open_graph_state.posting_disabled,
            track: !same_track(&curr.track, &last.track),
        }
    }

    /// The change from `set.1`, the earlier status, to `set.0`, the current
    /// one.
    pub fn from(set: (SpotifyStatus, SpotifyStatus)) -> (r: SpotifyStatusChange)
        ensures
            r == Self::between(set.0@, set.1@),
    {
        Self::diff(&set.0, &set.1)
    }
}

impl SpotifyStatus {
    /// Whether two statuses are equal: whether no field of one differs from
    /// the field of the other.
    pub fn same_as(&self, other: &SpotifyStatus) -> (r: bool)
        ensures
            r == (SpotifyStatusChange::between(self@, other@) == SpotifyStatusChange::all(false)),
    {
        let change = SpotifyStatusChange::diff(self, other);
        !(change.volume || change.online || change.version || change.running || change.playing
            || change.shuffle || change.server_time || change.play_enabled || change.prev_enabled
            || change.next_enabled || change.client_version || change.playing_position
            || change.open_graph_state || change.track)
    }
}

/// Whether `status` is what `json` reads as, but for single-precision bits
/// that are not settled: every other field is that of `status_of(json)`; the
/// volume and the playing position are, where the member is no number whose
/// exponent leaves its bits open.
pub open spec fn status_reads(status: StatusView, json: JsonNode) -> bool {
    &&& status == StatusView {
        volume: status.volume,
        playing_position: status.playing_position,
        ..status_of(json)
    }
    &&& json.spec_field("volume"@).single_is_settled() ==> status.volume == status_of(json).volume
    &&& json.spec_field("playing_position"@).single_is_settled() ==> status.playing_position
        == status_of(json).playing_position
}

/// Documents that agree describe the same resource.
pub proof fn lemma_agreeing_resources(a: JsonNode, b: JsonNode)
    requires
        agree(a, b),
    ensures
        resource_of(a) == resource_of(b),
{
    lemma_agreeing_fields(a, b, "uri"@);
    lemma_agreeing_readings(a.spec_field("uri"@), b.spec_field("uri"@));
    lemma_agreeing_fields(a, b, "name"@);
    lemma_agreeing_readings(a.spec_field("name"@), b.spec_field("name"@));
    lemma_agreeing_fields(a, b, "location"@);
    let a_location = a.spec_field("location"@);
    let b_location = b.spec_field("location"@);
    lemma_agreeing_fields(a_location, b_location, "og"@);
    lemma_agreeing_readings(a_location.spec_field("og"@), b_location.spec_field("og"@));
}

/// Documents that agree describe the same track.
pub proof fn lemma_agreeing_tracks(a: JsonNode, b: JsonNode)
    requires
        agree(a, b),
    ensures
        track_of(a) == track_of(b),
{
    lemma_agreeing_fields(a, b, "track_resource"@);
    lemma_agreeing_resources(a.spec_field("track_resource"@), b.spec_field("track_resource"@));
    lemma_agreeing_fields(a, b, "album_resource"@);
    lemma_agreeing_resources(a.spec_field("album_resource"@), b.spec_field("album_resource"@));
    lemma_agreeing_fields(a, b, "artist_resource"@);
    lemma_agreeing_resources(a.spec_field("artist_resource"@), b.spec_field("artist_resource"@));
    lemma_agreeing_fields(a, b, "length"@);
    lemma_agreeing_readings(a.spec_field("length"@), b.spec_field("length"@));
    lemma_agreeing_fields(a, b, "uri"@);
    lemma_agreeing_readings(a.spec_field("uri"@), b.spec_field("uri"@));
}

/// Documents that agree read as the same status, but for single-precision
/// bits that are not settled.
pub proof fn lemma_agreeing_documents_read_alike(a: JsonNode, b: JsonNode)
    requires
        agree(a, b),
    ensures
        status_reads(status_of(a), b),
{
    lemma_agreeing_fields(a, b, "volume"@);
    lemma_agreeing_readings(a.spec_field("volume"@), b.spec_field("volume"@));
    lemma_agreeing_fields(a, b, "online"@);
    lemma_agreeing_readings(a.spec_field("online"@), b.spec_field("online"@));
    lemma_agreeing_fields(a, b, "version"@);
    lemma_agreeing_readings(a.spec_field("version"@), b.spec_field("version"@));
    lemma_agreeing_fields(a, b, "running"@);
    lemma_agreeing_readings(a.spec_field("running"@), b.spec_field("running"@));
    lemma_agreeing_fields(a, b, "playing"@);
    lemma_agreeing_readings(a.spec_field("playing"@), b.spec_field("playing"@));
    lemma_agreeing_fields(a, b, "shuffle"@);
    lemma_agreeing_readings(a.spec_field("shuffle"@), b.spec_field("shuffle"@));
    lemma_agreeing_fields(a, b, "server_time"@);
    lemma_agreeing_readings(a.spec_field("server_time"@), b.spec_field("server_time"@));
    lemma_agreeing_fields(a, b, "play_enabled"@);
    lemma_agreeing_readings(a.spec_field("play_enabled"@), b.spec_field("play_enabled"@));
    lemma_agreeing_fields(a, b, "prev_enabled"@);
    lemma_agreeing_readings(a.spec_field("prev_enabled"@), b.spec_field("prev_enabled"@));
    lemma_agreeing_fields(a, b, "next_enabled"@);
    lemma_agreeing_readings(a.spec_field("next_enabled"@), b.spec_field("next_enabled"@));
    lemma_agreeing_fields(a, b, "client_version"@);
    lemma_agreeing_readings(a.spec_field("client_version"@), b.spec_field("client_version"@));
    lemma_agreeing_fields(a, b, "playing_position"@);
    lemma_agreeing_readings(a.spec_field("playing_position"@), b.spec_field("playing_position"@));
    lemma_agreeing_fields(a, b, "open_graph_state"@);
    let a_graph = a.spec_field("open_graph_state"@);
    let b_graph = b.spec_field("open_graph_state"@);
    lemma_agreeing_fields(a_graph, b_graph, "private_session"@);
    lemma_agreeing_readings(
        a_graph.spec_field("private_session"@),
        b_graph.spec_field("private_session"@),
    );
    lemma_agreeing_fields(a_graph, b_graph, "posting_disabled"@);
    lemma_agreeing_readings(
        a_graph.spec_field("posting_disabled"@),
        b_graph.spec_field("posting_disabled"@),
    );
    lemma_agreeing_fields(a, b, "track"@);
    lemma_agreeing_readings(a.spec_field("track"@), b.spec_field("track"@));
    lemma_agreeing_tracks(a.spec_field("track"@), b.spec_field("track"@));
}

/// The status whose every field holds its zero value and that has no track.
pub open spec fn zero_status() -> StatusView {
    StatusView {
        volume: 0,
        online: false,
        version: 0,
        running: false,
        playing: false,
        shuffle: false,
        server_time: 0,
        play_enabled: false,
        prev_enabled: false,
        next_enabled: false,
        client_version: Seq::empty(),
        playing_position: 0,
        open_graph_state: OpenGraphState { private_session: false, posting_disabled: false },
        track: None,
    }
}

/// A document without members, be it an empty object or no object at all,
/// reads as the zero status.
pub proof fn lemma_missing_members_read_as_zero(json: JsonNode)
    requires
        forall|key: Seq<char>| (#[trigger] json.spec_member(key)) is None,
    ensures
        status_of(json) == zero_status(),
{
}

/// A member of the wrong type reads as the zero value of its field: what is
/// no number as 0, what is no string as the empty text, what is no boolean
/// as `false`.
pub proof fn lemma_wrong_type_reads_as_zero(json: JsonNode)
    ensures
        !(json is Number) ==> single_or_zero(json) == 0 && i32_or_zero(json) == 0 && i64_or_zero(json)
            == 0,
        !(json is Text) ==> text_or_empty(json) == Seq::<char>::empty(),
        !(json is Boolean) ==> !json.spec_is_true(),
{
}

/// Comparing a status with itself reports no change, unless its volume or
/// its playing position is a NaN, which differs from itself.
pub proof fn lemma_diff_reflexive(a: StatusView)
    requires
        !single::is_nan(a.volume),
        !single::is_nan(a.playing_position),
    ensures
        SpotifyStatusChange::between(a, a) == SpotifyStatusChange::all(false),
{
}

/// The comparison does not depend on which status is named first.
pub proof fn lemma_diff_symmetric(a: StatusView, b: StatusView)
    ensures
        SpotifyStatusChange::between(a, b) == SpotifyStatusChange::between(b, a),
{
}

/// Each flag looks at the field of its name and at no other: two pairs of
/// statuses that agree in a field agree in its flag.
pub proof fn lemma_diff_is_fieldwise(a: StatusView, b: StatusView, c: StatusView, d: StatusView)
    ensures
        ({
            let first = SpotifyStatusChange::between(a, b);
            let second = SpotifyStatusChange::between(c, d);
            &&& a.volume == c.volume && b.volume == d.volume ==> first.volume == second.volume
            &&& a.online == c.online && b.online == d.online ==> first.online == second.online
            &&& a.version == c.version && b.version == d.version ==> first.version == second.version
            &&& a.running == c.running && b.running == d.running ==> first.running == second.running
            &&& a.playing == c.playing && b.playing == d.playing ==> first.playing == second.playing
            &&& a.shuffle == c.shuffle && b.shuffle == d.shuffle ==> first.shuffle == second.shuffle
            &&& a.server_time == c.server_time && b.server_time == d.server_time ==> first.server_time
                == second.server_time
            &&& a.play_enabled == c.play_enabled && b.play_enabled == d.play_enabled
                ==> first.play_enabled == second.play_enabled
            &&& a.prev_enabled == c.prev_enabled && b.prev_enabled == d.prev_enabled
                ==> first.prev_enabled == second.prev_enabled
            &&& a.next_enabled == c.next_enabled && b.next_enabled == d.next_enabled
                ==> first.next_enabled == second.next_enabled
            &&& a.client_version == c.client_version && b.client_version == d.client_version
                ==> first.client_version == second.client_version
            &&& a.playing_position == c.playing_position && b.playing_position == d.playing_position
                ==> first.playing_position == second.playing_position
            &&& a.open_graph_state == c.open_graph_state && b.open_graph_state == d.open_graph_state
                ==> first.open_graph_state == second.open_graph_state
            &&& a.track == c.track && b.track == d.track ==> first.track == second.track
        }),
{
}

/// The order in which a document lists its members is not seen: two
/// documents that hold the same value under every key read as the same
/// status.
pub proof fn lemma_member_order_is_not_seen(a: JsonNode, b: JsonNode)
    requires
        forall|key: Seq<char>| #[trigger] a.spec_member(key) == b.spec_member(key),
    ensures
        status_of(a) == status_of(b),
{
}

} // verus!
