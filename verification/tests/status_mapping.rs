use spotify::json::{JsonMember, JsonNode, JsonNumber};
use spotify::status::{
    OpenGraphState, Resource, ResourceLocation, SimpleTrack, SpotifyStatus, SpotifyStatusChange,
    Track, UtcTime, LAST_TIMESTAMP,
};

const FULL: &str = r#"{
  "version": 9,
  "client_version": "1.0.42.151.g19de0aa6",
  "playing": true,
  "shuffle": false,
  "repeat": false,
  "play_enabled": true,
  "prev_enabled": true,
  "next_enabled": true,
  "track": {
    "track_resource": {
      "name": "Never Gonna Give You Up",
      "uri": "spotify:track:4uLU6hMCjMI75M1A2tKUQC",
      "location": { "og": "https://open.spotify.com/track/4uLU6hMCjMI75M1A2tKUQC" }
    },
    "artist_resource": {
      "name": "Rick Astley",
      "uri": "spotify:artist:0gxyHStUsqpMadRV0Di1Qt",
      "location": { "og": "https://open.spotify.com/artist/0gxyHStUsqpMadRV0Di1Qt" }
    },
    "album_resource": {
      "name": "Whenever You Need Somebody",
      "uri": "spotify:album:6N9PS4QXF1D0OWPk0Sxtb4",
      "location": { "og": "https://open.spotify.com/album/6N9PS4QXF1D0OWPk0Sxtb4" }
    },
    "length": 213,
    "track_type": "normal",
    "uri": "spotify:track:4uLU6hMCjMI75M1A2tKUQC"
  },
  "context": {},
  "playing_position": 12.5,
  "server_time": 1478523690,
  "volume": 0.75,
  "online": true,
  "open_graph_state": { "private_session": true, "posting_disabled": false },
  "running": true
}"#;

fn status(text: &str) -> SpotifyStatus {
    SpotifyStatus::from(JsonNode::parse(text).unwrap())
}

fn all(value: bool) -> SpotifyStatusChange {
    SpotifyStatusChange {
        volume: value,
        online: value,
        version: value,
        running: value,
        playing: value,
        shuffle: value,
        server_time: value,
        play_enabled: value,
        prev_enabled: value,
        next_enabled: value,
        client_version: value,
        playing_position: value,
        open_graph_state: value,
        track: value,
    }
}

fn resource(uri: &str, name: &str, og: &str) -> Resource {
    Resource {
        uri: uri.to_string(),
        name: name.to_string(),
        location: ResourceLocation { og: og.to_string() },
    }
}

#[test]
fn status_reads_every_field_of_a_full_response() {
    let s = status(FULL);
    assert_eq!(s.volume_bits(), 0.75f32.to_bits());
    assert!(s.is_online());
    assert_eq!(s.protocol_version(), 9);
    assert!(s.is_running());
    assert!(s.is_playing());
    assert!(!s.shuffle_enabled());
    assert_eq!(s.timestamp(), 1478523690);
    assert_eq!(s.version(), "1.0.42.151.g19de0aa6");
    assert_eq!(s.playing_position_bits(), 12.5f32.to_bits());
    assert!(s.is_private_session());
    assert!(s.has_track());
    assert_eq!(
        s.full_track(),
        Track {
            track: resource(
                "spotify:track:4uLU6hMCjMI75M1A2tKUQC",
                "Never Gonna Give You Up",
                "https://open.spotify.com/track/4uLU6hMCjMI75M1A2tKUQC"
            ),
            album: resource(
                "spotify:album:6N9PS4QXF1D0OWPk0Sxtb4",
                "Whenever You Need Somebody",
                "https://open.spotify.com/album/6N9PS4QXF1D0OWPk0Sxtb4"
            ),
            artist: resource(
                "spotify:artist:0gxyHStUsqpMadRV0Di1Qt",
                "Rick Astley",
                "https://open.spotify.com/artist/0gxyHStUsqpMadRV0Di1Qt"
            ),
            length: 213,
            track_type: "spotify:track:4uLU6hMCjMI75M1A2tKUQC".to_string(),
        }
    );
    assert_eq!(
        s.track(),
        SimpleTrack {
            name: "Never Gonna Give You Up".to_string(),
            album: "Whenever You Need Somebody".to_string(),
            artist: "Rick Astley".to_string(),
        }
    );
}

#[test]
fn status_of_an_empty_object_holds_zero_values() {
    let s = status("{}");
    assert_eq!(s.volume_bits(), 0);
    assert_eq!(f32::from_bits(s.volume_bits()), 0.0);
    assert!(!s.is_online());
    assert_eq!(s.protocol_version(), 0);
    assert!(!s.is_running());
    assert!(!s.is_playing());
    assert!(!s.shuffle_enabled());
    assert_eq!(s.timestamp(), 0);
    assert_eq!(s.version(), "");
    assert_eq!(s.playing_position_bits(), 0);
    assert!(!s.is_private_session());
    assert!(!s.has_track());
}

#[test]
fn status_of_a_document_that_is_no_object_holds_zero_values() {
    for text in ["null", "[1, 2]", "\"status\"", "17", "true"] {
        let s = status(text);
        assert_eq!(SpotifyStatusChange::diff(&s, &status("{}")), all(false), "{}", text);
        assert!(!s.has_track());
    }
}

#[test]
fn status_substitutes_zero_for_fields_of_the_wrong_type() {
    let s = status(
        r#"{"volume": "loud", "online": 1, "version": "9", "running": "true",
            "playing": null, "shuffle": [], "server_time": 1.5, "play_enabled": 0,
            "prev_enabled": {}, "next_enabled": "yes", "client_version": 42,
            "playing_position": true, "open_graph_state": 7, "track": null}"#,
    );
    assert_eq!(SpotifyStatusChange::diff(&s, &status("{}")), all(false));
    assert_eq!(s.version(), "");
    assert_eq!(s.timestamp(), 0);
    assert!(!s.has_track());
}

#[test]
fn status_reads_an_integer_only_from_a_number_without_exponent() {
    assert_eq!(status(r#"{"version": 9}"#).protocol_version(), 9);
    assert_eq!(status(r#"{"version": -3}"#).protocol_version(), -3);
    assert_eq!(status(r#"{"version": 9.0}"#).protocol_version(), 0);
    assert_eq!(status(r#"{"version": 9e0}"#).protocol_version(), 9);
    assert_eq!(status(r#"{"version": 9e1}"#).protocol_version(), 0);
    assert_eq!(status(r#"{"version": 2147483648}"#).protocol_version(), 0);
    assert_eq!(status(r#"{"server_time": 2147483648}"#).timestamp(), 2147483648);
    assert_eq!(status(r#"{"server_time": -9223372036854775807}"#).timestamp(), -i64::MAX);
}

#[test]
fn status_reads_the_lowest_server_time_without_failing() {
    assert_eq!(status(r#"{"server_time": -9223372036854775808}"#).timestamp(), i64::MIN);
}

#[test]
fn status_has_no_track_where_the_member_is_null_or_missing() {
    assert!(!status(r#"{"track": null}"#).has_track());
    assert!(!status(r#"{"volume": 1}"#).has_track());
    assert!(status(r#"{"track": {}}"#).has_track());
    assert!(status(r#"{"track": 5}"#).has_track());
}

#[test]
fn status_without_a_track_hands_out_an_empty_track() {
    let s = status("{}");
    let empty = Track {
        track: resource("", "", ""),
        album: resource("", "", ""),
        artist: resource("", "", ""),
        length: 0,
        track_type: String::new(),
    };
    assert_eq!(s.full_track(), empty);
    assert_eq!(Track::empty(), empty);
    assert_eq!(Resource::empty(), resource("", "", ""));
    assert_eq!(
        s.track(),
        SimpleTrack { name: String::new(), album: String::new(), artist: String::new() }
    );
}

#[test]
fn track_type_is_read_from_the_uri_member() {
    let json = JsonNode::parse(r#"{"uri": "spotify:track:X", "track_type": "normal", "length": 3}"#)
        .unwrap();
    let track = Track::from(&json);
    assert_eq!(track.track_type, "spotify:track:X");
    assert_eq!(track.length, 3);
    assert_eq!(track.track, resource("", "", ""));
}

#[test]
fn resource_and_location_read_their_members() {
    let json =
        JsonNode::parse(r#"{"uri": "u", "name": "n", "location": {"og": "o"}}"#).unwrap();
    assert_eq!(Resource::from(&json), resource("u", "n", "o"));
    let location = JsonNode::parse(r#"{"og": "o"}"#).unwrap();
    assert_eq!(ResourceLocation::from(&location), ResourceLocation { og: "o".to_string() });
    assert_eq!(ResourceLocation::from(&JsonNode::Null), ResourceLocation { og: String::new() });
}

#[test]
fn open_graph_state_reads_its_flags() {
    let json = JsonNode::parse(r#"{"private_session": true, "posting_disabled": "no"}"#).unwrap();
    assert_eq!(
        OpenGraphState::from(&json),
        OpenGraphState { private_session: true, posting_disabled: false }
    );
}

#[test]
fn status_can_be_read_from_a_document_written_by_hand() {
    let json = JsonNode::Object(vec![
        JsonMember::new("online", JsonNode::Boolean(true)),
        JsonMember::new(
            "version",
            JsonNode::Number(JsonNumber { positive: true, mantissa: 9, exponent: 0, single: 0 }),
        ),
        JsonMember::new(
            "volume",
            JsonNode::Number(JsonNumber {
                positive: true,
                mantissa: 5,
                exponent: -1,
                single: 0.5f32.to_bits(),
            }),
        ),
    ]);
    let s = SpotifyStatus::from(json);
    assert!(s.is_online());
    assert_eq!(s.protocol_version(), 9);
    assert_eq!(f32::from_bits(s.volume_bits()), 0.5);
}

#[test]
fn simple_track_is_displayed_as_artist_and_name() {
    let s = status(FULL);
    assert_eq!(s.track().to_string(), "Rick Astley - Never Gonna Give You Up");
    assert_eq!(SimpleTrack::from_status(&s), s.track());
    assert_eq!(SimpleTrack::from(&s.full_track()), s.track());
    assert_eq!(status("{}").track().to_string(), " - ");
}

#[test]
fn new_true_sets_every_flag() {
    assert_eq!(SpotifyStatusChange::new_true(), all(true));
}

#[test]
fn diff_of_a_status_with_itself_is_all_false() {
    for text in [FULL, "{}", r#"{"volume": 0.3, "track": {"length": 5}}"#] {
        let a = status(text);
        assert_eq!(SpotifyStatusChange::diff(&a, &a), all(false));
        assert_eq!(SpotifyStatusChange::diff(&a, &a.clone()), all(false));
        assert_eq!(SpotifyStatusChange::from((a.clone(), a)), all(false));
    }
}

#[test]
fn diff_does_not_depend_on_the_order_of_the_members() {
    let a = status(r#"{"volume": 0.5, "online": true, "version": 9, "track": {"length": 1, "uri": "x"}}"#);
    let b = status(r#"{"track": {"uri": "x", "length": 1}, "version": 9, "online": true, "volume": 0.5}"#);
    assert_eq!(SpotifyStatusChange::diff(&a, &b), all(false));
    let c = status(r#"{"version": 8, "volume": 0.5}"#);
    assert_eq!(SpotifyStatusChange::diff(&a, &c), SpotifyStatusChange::diff(&b, &c));
    assert_eq!(SpotifyStatusChange::diff(&a, &c), SpotifyStatusChange::diff(&c, &a));
}

#[test]
fn diff_flags_exactly_the_field_that_differs() {
    let base = status(FULL);
    let cases: Vec<(&str, &str, SpotifyStatusChange)> = vec![
        ("\"volume\": 0.75", "\"volume\": 0.5", SpotifyStatusChange { volume: true, ..all(false) }),
        ("\"online\": true", "\"online\": false", SpotifyStatusChange { online: true, ..all(false) }),
        ("\"version\": 9", "\"version\": 10", SpotifyStatusChange { version: true, ..all(false) }),
        ("\"running\": true", "\"running\": false", SpotifyStatusChange { running: true, ..all(false) }),
        ("\"playing\": true", "\"playing\": false", SpotifyStatusChange { playing: true, ..all(false) }),
        ("\"shuffle\": false", "\"shuffle\": true", SpotifyStatusChange { shuffle: true, ..all(false) }),
        (
            "\"server_time\": 1478523690",
            "\"server_time\": 1478523691",
            SpotifyStatusChange { server_time: true, ..all(false) },
        ),
        (
            "\"play_enabled\": true",
            "\"play_enabled\": false",
            SpotifyStatusChange { play_enabled: true, ..all(false) },
        ),
        (
            "\"prev_enabled\": true",
            "\"prev_enabled\": false",
            SpotifyStatusChange { prev_enabled: true, ..all(false) },
        ),
        (
            "\"next_enabled\": true",
            "\"next_enabled\": false",
            SpotifyStatusChange { next_enabled: true, ..all(false) },
        ),
        (
            "\"client_version\": \"1.0.42.151.g19de0aa6\"",
            "\"client_version\": \"1.0.43\"",
            SpotifyStatusChange { client_version: true, ..all(false) },
        ),
        (
            "\"playing_position\": 12.5",
            "\"playing_position\": 12.75",
            SpotifyStatusChange { playing_position: true, ..all(false) },
        ),
        (
            "\"posting_disabled\": false",
            "\"posting_disabled\": true",
            SpotifyStatusChange { open_graph_state: true, ..all(false) },
        ),
        ("\"length\": 213", "\"length\": 214", SpotifyStatusChange { track: true, ..all(false) }),
        (
            "\"og\": \"https://open.spotify.com/album/6N9PS4QXF1D0OWPk0Sxtb4\"",
            "\"og\": \"\"",
            SpotifyStatusChange { track: true, ..all(false) },
        ),
    ];
    for (from, to, expected) in cases {
        assert!(FULL.contains(from), "{}", from);
        let changed = status(&FULL.replace(from, to));
        assert_eq!(SpotifyStatusChange::diff(&changed, &base), expected, "{}", from);
        assert_eq!(SpotifyStatusChange::diff(&base, &changed), expected, "{}", from);
    }
}

#[test]
fn diff_tells_an_absent_track_from_an_empty_one() {
    let absent = status(r#"{"track": null}"#);
    let empty = status(r#"{"track": {}}"#);
    assert_eq!(
        SpotifyStatusChange::diff(&empty, &absent),
        SpotifyStatusChange { track: true, ..all(false) }
    );
}

#[test]
fn diff_compares_single_precision_fields_by_value() {
    let zero = status(r#"{"volume": 0}"#);
    let minus_zero = status(r#"{"volume": -0.0}"#);
    assert_ne!(zero.volume_bits(), minus_zero.volume_bits());
    assert_eq!(SpotifyStatusChange::diff(&zero, &minus_zero), all(false));
    let one = status(r#"{"volume": 1}"#);
    let ten_tenths = status(r#"{"volume": 10e-1}"#);
    assert_eq!(SpotifyStatusChange::diff(&one, &ten_tenths), all(false));
}

#[test]
fn diff_of_a_nan_volume_with_itself_reports_a_change() {
    let nan = status(r#"{"volume": 0e999}"#);
    assert!(f32::from_bits(nan.volume_bits()).is_nan());
    assert_eq!(
        SpotifyStatusChange::diff(&nan, &nan),
        SpotifyStatusChange { volume: true, ..all(false) }
    );
}

#[test]
fn clone_keeps_every_field() {
    let s = status(FULL);
    let t = s.clone();
    assert_eq!(t.full_track(), s.full_track());
    assert_eq!(t.version(), s.version());
    assert_eq!(SpotifyStatusChange::diff(&s, &t), all(false));
    let track = s.full_track();
    assert_eq!(track.clone(), track);
    assert!(track.same_as(&track.clone()));
    assert!(!track.same_as(&Track::empty()));
    assert!(track.album.same_as(&track.album.clone()));
    assert!(!track.album.same_as(&track.artist));
    assert!(track.album.location.same_as(&track.album.location.clone()));
    assert_eq!(s.track().clone(), s.track());
}

#[test]
fn same_as_is_equality_of_every_field() {
    let a = status(FULL);
    assert!(a.same_as(&a.clone()));
    assert!(a.same_as(&status(FULL)));
    assert!(!a.same_as(&status("{}")));
    assert!(!a.same_as(&status(&FULL.replace("\"length\": 213", "\"length\": 214"))));
    assert!(status(r#"{"volume": 0}"#).same_as(&status(r#"{"volume": -0.0}"#)));
    let nan = status(r#"{"volume": 0e999}"#);
    assert!(!nan.same_as(&nan));
}

#[test]
fn time_utc_breaks_the_server_time_down() {
    assert_eq!(
        status(FULL).time_utc(),
        Some(UtcTime {
            sec: 30,
            min: 1,
            hour: 13,
            mday: 7,
            mon: 10,
            year: 116,
            wday: 1,
            yday: 311,
            isdst: 0,
            utcoff: 0,
            nsec: 0,
        })
    );
    let epoch = status("{}").time_utc().unwrap();
    assert_eq!((epoch.year, epoch.mon, epoch.mday, epoch.hour, epoch.wday), (70, 0, 1, 0, 4));
    let last = status(r#"{"server_time": 253402300799}"#).time_utc().unwrap();
    assert_eq!((last.year, last.mon, last.mday, last.hour, last.min, last.sec), (8099, 11, 31, 23, 59, 59));
}

#[test]
fn time_utc_is_given_from_1970_through_9999() {
    assert_eq!(LAST_TIMESTAMP, 253402300799);
    assert!(status(r#"{"server_time": 0}"#).time_utc().is_some());
    assert!(status(r#"{"server_time": -1}"#).time_utc().is_none());
    assert!(status(r#"{"server_time": 253402300800}"#).time_utc().is_none());
    assert!(status(r#"{"server_time": 9223372036854775807}"#).time_utc().is_none());
    assert!(status(r#"{"server_time": -9223372036854775808}"#).time_utc().is_none());
}
