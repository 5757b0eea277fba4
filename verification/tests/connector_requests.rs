use spotify::connector::{
    build_url, local_url_for, Connection, Handshake, HandshakeAction, HandshakeEvent, HttpRequest,
    InternalSpotifyError, Reply, SpotifyConnector, HEADER_UA, PORT_END, PORT_START,
};
use spotify::json::{JsonError, JsonNode};

fn body(text: &str) -> Reply {
    Reply::Body(text.to_string())
}

fn replied(text: &str) -> HandshakeEvent {
    HandshakeEvent::Replied(body(text))
}

fn probe_until(port: u16) -> Handshake {
    let mut handshake = SpotifyConnector::connect_new();
    for _ in PORT_START..port {
        handshake = handshake.step(HandshakeEvent::Probed(false));
    }
    handshake.step(HandshakeEvent::Probed(true))
}

fn session(port: u16, oauth: &str, csrf: &str) -> SpotifyConnector {
    let handshake = probe_until(port)
        .step(replied(&format!("{{\"t\": \"{}\"}}", oauth)))
        .step(replied(&format!("{{\"token\": \"{}\"}}", csrf)));
    match handshake.finish() {
        Some(Ok(connector)) => connector,
        other => panic!("no session: {:?}", other),
    }
}

fn split_at_timestamp(url: &str) -> (String, i64, String) {
    let start = url.find("&_=").expect("no timestamp") + 3;
    let digits: String = url[start..].chars().take_while(|c| c.is_ascii_digit()).collect();
    assert!(!digits.is_empty());
    (url[..start].to_string(), digits.parse().unwrap(), url[start + digits.len()..].to_string())
}

#[test]
fn build_url_of_a_path_without_question_mark() {
    assert_eq!(
        build_url("http://host:4370", "remote/status.json", None, None, &None, 1478523690),
        "http://host:4370/remote/status.json?ref=&cors=&_=1478523690"
    );
}

#[test]
fn build_url_of_a_path_with_question_mark() {
    assert_eq!(
        build_url("http://host", "a.json?x=1", None, None, &None, 5),
        "http://host/a.json?x=1&ref=&cors=&_=5"
    );
}

#[test]
fn build_url_attaches_the_tokens_that_are_given() {
    assert_eq!(
        build_url("b", "q", Some("BEARER"), None, &None, 0),
        "b/q?ref=&cors=&_=0&oauth=BEARER"
    );
    assert_eq!(build_url("b", "q", None, Some("CSRF"), &None, 0), "b/q?ref=&cors=&_=0&csrf=CSRF");
    assert_eq!(
        build_url("b", "q", Some("BEARER"), Some("CSRF"), &None, 0),
        "b/q?ref=&cors=&_=0&oauth=BEARER&csrf=CSRF"
    );
}

#[test]
fn build_url_appends_the_extra_parameters_in_order() {
    let params = Some(vec!["z=1".to_string(), "a=2".to_string(), "m".to_string()]);
    assert_eq!(
        build_url("b", "q", Some("O"), Some("C"), &params, 12),
        "b/q?ref=&cors=&_=12&oauth=O&csrf=C&z=1&a=2&m"
    );
    assert_eq!(build_url("b", "q", None, None, &Some(vec![]), 12), "b/q?ref=&cors=&_=12");
}

#[test]
fn build_url_of_an_empty_path() {
    assert_eq!(
        build_url("https://open.spotify.com/token", "", None, None, &None, 7),
        "https://open.spotify.com/token/?ref=&cors=&_=7"
    );
}

#[test]
fn build_url_writes_a_negative_timestamp_with_its_sign() {
    assert_eq!(build_url("b", "q", None, None, &None, -3), "b/q?ref=&cors=&_=-3");
}

#[test]
fn urls_one_second_apart_differ_only_in_the_timestamp() {
    let params = Some(vec!["uri=spotify:track:X".to_string()]);
    let first = build_url("http://h:4371", "remote/play.json", Some("O"), Some("C"), &params, 1478523699);
    let second = build_url("http://h:4371", "remote/play.json", Some("O"), Some("C"), &params, 1478523700);
    assert_ne!(first, second);
    let (head_a, time_a, tail_a) = split_at_timestamp(&first);
    let (head_b, time_b, tail_b) = split_at_timestamp(&second);
    assert_eq!(head_a, head_b);
    assert_eq!(tail_a, tail_b);
    assert_eq!(time_a, 1478523699);
    assert_eq!(time_b, 1478523700);
}

#[test]
fn local_url_names_the_port() {
    assert_eq!(local_url_for(4371), "http://spotifyrs.spotilocal.com:4371");
    assert_eq!(session(4380, "o", "c").get_local_url(), "http://spotifyrs.spotilocal.com:4380");
}

#[test]
fn every_request_carries_the_fixed_headers() {
    let request = HttpRequest::get("http://x/".to_string());
    assert_eq!(
        request,
        HttpRequest {
            url: "http://x/".to_string(),
            user_agent: "Mozilla/5.0 (Windows; rv:50.0) Gecko/20100101 Firefox/50.0".to_string(),
            origin: "https://embed.spotify.com".to_string(),
            referer: "https://embed.spotify.com/track/4uLU6hMCjMI75M1A2tKUQC".to_string(),
        }
    );
    assert_eq!(request.user_agent, HEADER_UA);
}

#[test]
fn query_at_signs_with_the_tokens_of_the_session() {
    let connector = session(4370, "BEARER", "CSRF");
    assert_eq!(connector.port(), 4370);
    assert_eq!(connector.oauth_token(), "BEARER");
    assert_eq!(connector.csrf_token(), "CSRF");
    let signed = connector.query_at("http://h", "p.json", true, true, None, 99);
    assert_eq!(signed, HttpRequest::get("http://h/p.json?ref=&cors=&_=99&oauth=BEARER&csrf=CSRF".to_string()));
    let bare = connector.query_at("http://h", "p.json", false, false, Some(vec!["k=v".to_string()]), 99);
    assert_eq!(bare.url, "http://h/p.json?ref=&cors=&_=99&k=v");
    let half = connector.query_at("http://h", "p.json", false, true, None, 99);
    assert_eq!(half.url, "http://h/p.json?ref=&cors=&_=99&csrf=CSRF");
}

#[test]
fn query_stamps_the_request_with_the_current_time() {
    let connector = session(4370, "BEARER", "CSRF");
    let request = connector.query("http://h", "p.json", true, false, None);
    let (head, time, tail) = split_at_timestamp(&request.url);
    assert_eq!(head, "http://h/p.json?ref=&cors=&_=");
    assert_eq!(tail, "&oauth=BEARER");
    assert!(time > 1_478_000_000);
    assert_eq!(request, connector.query_at("http://h", "p.json", true, false, None, time));
}

#[test]
fn fetch_status_json_asks_the_status_path_with_both_tokens() {
    let connector = session(4371, "BEARER", "CSRF");
    let request = connector.fetch_status_json();
    let (head, time, tail) = split_at_timestamp(&request.url);
    assert_eq!(head, "http://spotifyrs.spotilocal.com:4371/remote/status.json?ref=&cors=&_=");
    assert_eq!(tail, "&oauth=BEARER&csrf=CSRF");
    assert!(time > 1_478_000_000);
    assert_eq!(request.origin, "https://embed.spotify.com");
}

#[test]
fn request_play_names_the_track() {
    let connector = session(4371, "BEARER", "CSRF");
    let request = connector.request_play("spotify:track:ABC123".to_string());
    let (head, _, tail) = split_at_timestamp(&request.url);
    assert_eq!(head, "http://spotifyrs.spotilocal.com:4371/remote/play.json?ref=&cors=&_=");
    assert_eq!(tail, "&oauth=BEARER&csrf=CSRF&uri=spotify:track:ABC123");
    assert_eq!(SpotifyConnector::play_params("x"), vec!["uri=x".to_string()]);
}

#[test]
fn request_pause_sets_the_pause_flag() {
    let connector = session(4371, "BEARER", "CSRF");
    let (head, _, tail) = split_at_timestamp(&connector.request_pause(true).url);
    assert_eq!(head, "http://spotifyrs.spotilocal.com:4371/remote/pause.json?ref=&cors=&_=");
    assert_eq!(tail, "&oauth=BEARER&csrf=CSRF&pause=true");
    let (_, _, tail) = split_at_timestamp(&connector.request_pause(false).url);
    assert_eq!(tail, "&oauth=BEARER&csrf=CSRF&pause=false");
    assert_eq!(SpotifyConnector::pause_params(true), vec!["pause=true".to_string()]);
    assert_eq!(SpotifyConnector::pause_params(false), vec!["pause=false".to_string()]);
}

#[test]
fn read_reply_parses_the_body() {
    assert_eq!(SpotifyConnector::read_reply(body("true")), Ok(JsonNode::Boolean(true)));
    assert!(SpotifyConnector::succeeded(body("{}")));
}

#[test]
fn read_reply_reports_a_body_that_is_not_json() {
    assert_eq!(
        SpotifyConnector::read_reply(body("<html>")),
        Err(InternalSpotifyError::JSONParseError(JsonError::UnexpectedCharacter {
            ch: '<',
            line: 1,
            column: 1
        }))
    );
    assert_eq!(
        SpotifyConnector::read_reply(body("")),
        Err(InternalSpotifyError::JSONParseError(JsonError::UnexpectedEndOfJson))
    );
    assert!(!SpotifyConnector::succeeded(body("not json")));
}

#[test]
fn read_reply_hands_on_the_failure_of_the_transport() {
    assert_eq!(
        SpotifyConnector::read_reply(Reply::ReqwestError("refused".to_string())),
        Err(InternalSpotifyError::ReqwestError("refused".to_string()))
    );
    assert_eq!(
        SpotifyConnector::read_reply(Reply::IOError("cut".to_string())),
        Err(InternalSpotifyError::IOError("cut".to_string()))
    );
    assert!(!SpotifyConnector::succeeded(Reply::ReqwestError("refused".to_string())));
    assert!(!SpotifyConnector::succeeded(Reply::IOError("cut".to_string())));
}

#[test]
fn oauth_token_is_the_string_member_t() {
    assert_eq!(SpotifyConnector::fetch_oauth_token(body(r#"{"t": "abc"}"#)), Ok("abc".to_string()));
    assert_eq!(SpotifyConnector::fetch_oauth_token(body(r#"{"t": ""}"#)), Ok(String::new()));
    for text in [r#"{}"#, r#"{"t": null}"#, r#"{"t": 5}"#, r#"{"token": "abc"}"#, "[]", "\"abc\""] {
        assert_eq!(
            SpotifyConnector::fetch_oauth_token(body(text)),
            Err(InternalSpotifyError::InvalidOAuthToken),
            "{}",
            text
        );
    }
    assert_eq!(
        SpotifyConnector::fetch_oauth_token(Reply::ReqwestError("down".to_string())),
        Err(InternalSpotifyError::ReqwestError("down".to_string()))
    );
    assert_eq!(
        SpotifyConnector::fetch_oauth_token(body("{")),
        Err(InternalSpotifyError::JSONParseError(JsonError::UnexpectedEndOfJson))
    );
    let json = JsonNode::parse(r#"{"t": "abc"}"#).unwrap();
    assert_eq!(SpotifyConnector::oauth_token_from(&json), Ok("abc".to_string()));
    assert_eq!(
        SpotifyConnector::oauth_token_from(&JsonNode::Null),
        Err(InternalSpotifyError::InvalidOAuthToken)
    );
}

#[test]
fn csrf_token_is_the_string_member_token() {
    assert_eq!(SpotifyConnector::fetch_csrf_token(body(r#"{"token": "xyz"}"#)), Ok("xyz".to_string()));
    for text in [r#"{}"#, r#"{"token": false}"#, r#"{"t": "abc"}"#, "null"] {
        assert_eq!(
            SpotifyConnector::fetch_csrf_token(body(text)),
            Err(InternalSpotifyError::InvalidCSRFToken),
            "{}",
            text
        );
    }
    assert_eq!(
        SpotifyConnector::fetch_csrf_token(Reply::IOError("cut".to_string())),
        Err(InternalSpotifyError::IOError("cut".to_string()))
    );
    let json = JsonNode::parse(r#"{"token": "xyz"}"#).unwrap();
    assert_eq!(SpotifyConnector::csrf_token_from(&json), Ok("xyz".to_string()));
    assert_eq!(
        SpotifyConnector::csrf_token_from(&JsonNode::Boolean(true)),
        Err(InternalSpotifyError::InvalidCSRFToken)
    );
}

#[test]
fn start_spotify_reads_the_running_flag() {
    assert_eq!(SpotifyConnector::start_spotify(body(r#"{"running": true}"#)), Ok(true));
    assert_eq!(SpotifyConnector::start_spotify(body(r#"{"running": false}"#)), Ok(false));
    assert_eq!(SpotifyConnector::start_spotify(body(r#"{"running": "true"}"#)), Ok(false));
    assert_eq!(SpotifyConnector::start_spotify(body(r#"{}"#)), Ok(false));
    assert_eq!(
        SpotifyConnector::start_spotify(Reply::ReqwestError("down".to_string())),
        Err(InternalSpotifyError::ReqwestError("down".to_string()))
    );
    let request = SpotifyConnector::start_spotify_request(4372);
    let (head, _, tail) = split_at_timestamp(&request.url);
    assert_eq!(head, "http://spotifyrs.spotilocal.com:4372/remote/open.json?ref=&cors=&_=");
    assert_eq!(tail, "");
}

#[test]
fn handshake_begins_by_probing_the_first_port() {
    let handshake = SpotifyConnector::connect_new();
    assert_eq!(handshake, Handshake::Probing { port: 4370 });
    assert_eq!(handshake.action(), HandshakeAction::Probe(4370));
    assert!(!handshake.is_done());
    assert_eq!(handshake.resolved_port(), None);
    assert_eq!(handshake.finish(), None);
}

#[test]
fn handshake_settles_on_the_only_bound_port() {
    for bound in [PORT_START, 4371, 4385, PORT_END] {
        let mut handshake = SpotifyConnector::connect_new();
        let mut probed = Vec::new();
        while let HandshakeAction::Probe(port) = handshake.action() {
            probed.push(port);
            handshake = handshake.step(HandshakeEvent::Probed(port == bound));
        }
        assert_eq!(handshake, Handshake::Bearer { port: bound });
        assert_eq!(handshake.resolved_port(), Some(bound));
        assert_eq!(probed, (PORT_START..=bound).collect::<Vec<u16>>());
    }
}

#[test]
fn handshake_settles_on_the_first_of_several_bound_ports() {
    let mut handshake = SpotifyConnector::connect_new();
    while let HandshakeAction::Probe(port) = handshake.action() {
        handshake = handshake.step(HandshakeEvent::Probed(port == 4375 || port == 4390));
    }
    assert_eq!(handshake, Handshake::Bearer { port: 4375 });
}

#[test]
fn handshake_fails_where_no_port_is_bound() {
    let mut handshake = SpotifyConnector::connect_new();
    let mut probes = 0;
    while let HandshakeAction::Probe(_) = handshake.action() {
        probes += 1;
        handshake = handshake.step(HandshakeEvent::Probed(false));
    }
    assert_eq!(probes, 30);
    assert_eq!(handshake, Handshake::Failed { error: InternalSpotifyError::EndpointNotFound });
    assert!(handshake.is_done());
    assert_eq!(handshake.action(), HandshakeAction::Done);
    assert_eq!(handshake.finish(), Some(Err(InternalSpotifyError::EndpointNotFound)));
}

#[test]
fn handshake_asks_for_the_bearer_token_without_port_or_tokens() {
    let handshake = probe_until(4373);
    assert_eq!(
        handshake.action_at(1478523690),
        HandshakeAction::Send(HttpRequest::get(
            "https://open.spotify.com/token/?ref=&cors=&_=1478523690".to_string()
        ))
    );
    match handshake.action() {
        HandshakeAction::Send(request) => {
            let (head, _, tail) = split_at_timestamp(&request.url);
            assert_eq!(head, "https://open.spotify.com/token/?ref=&cors=&_=");
            assert_eq!(tail, "");
        }
        other => panic!("unexpected: {:?}", other),
    }
}

#[test]
fn handshake_asks_the_local_client_for_the_anti_forgery_token_unsigned() {
    let handshake = probe_until(4373).step(replied(r#"{"t": "BEARER"}"#));
    assert_eq!(handshake, Handshake::AntiForgery { port: 4373, oauth_token: "BEARER".to_string() });
    assert_eq!(handshake.resolved_port(), Some(4373));
    assert_eq!(
        handshake.action_at(12),
        HandshakeAction::Send(HttpRequest::get(
            "http://spotifyrs.spotilocal.com:4373/simplecsrf/token.json?ref=&cors=&_=12".to_string()
        ))
    );
}

#[test]
fn handshake_yields_the_session_once_both_tokens_are_known() {
    let handshake = probe_until(4373)
        .step(replied(r#"{"t": "BEARER"}"#))
        .step(replied(r#"{"token": "CSRF"}"#));
    assert!(handshake.is_done());
    assert_eq!(handshake.action(), HandshakeAction::Done);
    assert_eq!(handshake.resolved_port(), None);
    match handshake.finish() {
        Some(Ok(connector)) => {
            assert_eq!(connector.port(), 4373);
            assert_eq!(connector.oauth_token(), "BEARER");
            assert_eq!(connector.csrf_token(), "CSRF");
        }
        other => panic!("unexpected: {:?}", other),
    }
}

#[test]
fn handshake_fails_without_a_bearer_token() {
    let handshake = probe_until(4370).step(replied(r#"{"x": 1}"#));
    assert_eq!(handshake, Handshake::Failed { error: InternalSpotifyError::InvalidOAuthToken });
    let later = handshake.step(replied(r#"{"token": "CSRF"}"#));
    assert_eq!(later, Handshake::Failed { error: InternalSpotifyError::InvalidOAuthToken });
}

#[test]
fn handshake_fails_without_an_anti_forgery_token() {
    let handshake = probe_until(4370).step(replied(r#"{"t": "B"}"#)).step(replied(r#"{"t": "B"}"#));
    assert_eq!(handshake, Handshake::Failed { error: InternalSpotifyError::InvalidCSRFToken });
    assert_eq!(handshake.finish(), Some(Err(InternalSpotifyError::InvalidCSRFToken)));
}

#[test]
fn handshake_fails_on_a_transport_failure_in_either_stage() {
    let first = probe_until(4370).step(HandshakeEvent::Replied(Reply::ReqwestError("down".to_string())));
    assert_eq!(
        first,
        Handshake::Failed { error: InternalSpotifyError::ReqwestError("down".to_string()) }
    );
    let second = probe_until(4370)
        .step(replied(r#"{"t": "B"}"#))
        .step(HandshakeEvent::Replied(Reply::IOError("cut".to_string())));
    assert_eq!(second, Handshake::Failed { error: InternalSpotifyError::IOError("cut".to_string()) });
    let third = probe_until(4370).step(replied("oops"));
    assert_eq!(
        third,
        Handshake::Failed {
            error: InternalSpotifyError::JSONParseError(JsonError::UnexpectedCharacter {
                ch: 'o',
                line: 1,
                column: 1
            })
        }
    );
}

#[test]
fn handshake_ignores_an_event_it_did_not_ask_for() {
    let probing = SpotifyConnector::connect_new().step(replied(r#"{"t": "B"}"#));
    assert_eq!(probing, Handshake::Probing { port: 4370 });
    let bearer = probe_until(4371).step(HandshakeEvent::Probed(true));
    assert_eq!(bearer, Handshake::Bearer { port: 4371 });
    let established = probe_until(4371)
        .step(replied(r#"{"t": "B"}"#))
        .step(replied(r#"{"token": "C"}"#))
        .step(HandshakeEvent::Probed(false));
    assert!(matches!(established, Handshake::Established { .. }));
}

#[test]
fn handshake_does_not_probe_beyond_the_last_port() {
    let last = Handshake::Probing { port: PORT_END }.step(HandshakeEvent::Probed(false));
    assert_eq!(last, Handshake::Failed { error: InternalSpotifyError::EndpointNotFound });
    let beyond = Handshake::Probing { port: u16::MAX }.step(HandshakeEvent::Probed(false));
    assert_eq!(beyond, Handshake::Failed { error: InternalSpotifyError::EndpointNotFound });
}

fn connection_on(port: u16) -> Connection {
    Connection::begin(probe_until(port))
}

#[test]
fn connection_probes_like_its_handshake() {
    let mut connection = Connection::begin(SpotifyConnector::connect_new());
    assert_eq!(connection.action(), HandshakeAction::Probe(4370));
    connection = connection.step(HandshakeEvent::Probed(false));
    assert_eq!(connection.action(), HandshakeAction::Probe(4371));
    assert!(!connection.is_done());
    connection = connection.step(replied(r#"{"running": true}"#));
    assert_eq!(connection.action(), HandshakeAction::Probe(4371));
}

#[test]
fn connection_asks_the_client_to_open_once_the_port_is_known() {
    let connection = connection_on(4372);
    assert_eq!(
        connection.action_at(7),
        HandshakeAction::Send(HttpRequest::get(
            "http://spotifyrs.spotilocal.com:4372/remote/open.json?ref=&cors=&_=7".to_string()
        ))
    );
    match connection.action() {
        HandshakeAction::Send(request) => {
            let (head, _, tail) = split_at_timestamp(&request.url);
            assert_eq!(head, "http://spotifyrs.spotilocal.com:4372/remote/open.json?ref=&cors=&_=");
            assert_eq!(tail, "");
        }
        other => panic!("unexpected: {:?}", other),
    }
    let ignored = connection.step(HandshakeEvent::Probed(true));
    assert_eq!(ignored, connection_on(4372));
}

#[test]
fn connection_fetches_the_tokens_after_the_open_request() {
    let mut connection = connection_on(4372).step(replied(r#"{"running": false}"#));
    assert_eq!(
        connection.action_at(7),
        HandshakeAction::Send(HttpRequest::get(
            "https://open.spotify.com/token/?ref=&cors=&_=7".to_string()
        ))
    );
    connection = connection.step(replied(r#"{"t": "BEARER"}"#));
    assert_eq!(
        connection.action_at(8),
        HandshakeAction::Send(HttpRequest::get(
            "http://spotifyrs.spotilocal.com:4372/simplecsrf/token.json?ref=&cors=&_=8".to_string()
        ))
    );
    connection = connection.step(replied(r#"{"token": "CSRF"}"#));
    assert!(connection.is_done());
    assert_eq!(connection.action(), HandshakeAction::Done);
    match connection.finish() {
        Some(Ok(connector)) => {
            assert_eq!(connector.port(), 4372);
            assert_eq!(connector.oauth_token(), "BEARER");
            assert_eq!(connector.csrf_token(), "CSRF");
        }
        other => panic!("unexpected: {:?}", other),
    }
}

#[test]
fn connection_ends_when_the_open_request_fails() {
    let down = connection_on(4372).step(HandshakeEvent::Replied(Reply::ReqwestError("down".to_string())));
    assert!(down.is_done());
    assert_eq!(down.action(), HandshakeAction::Done);
    assert_eq!(down.finish(), Some(Err(InternalSpotifyError::ReqwestError("down".to_string()))));
    let garbled = connection_on(4372).step(replied("oops"));
    assert_eq!(
        garbled.finish(),
        Some(Err(InternalSpotifyError::JSONParseError(JsonError::UnexpectedCharacter {
            ch: 'o',
            line: 1,
            column: 1
        })))
    );
}

#[test]
fn connection_fails_where_no_port_is_bound() {
    let mut connection = Connection::begin(SpotifyConnector::connect_new());
    let mut sent = 0;
    loop {
        connection = match connection.action() {
            HandshakeAction::Probe(_) => connection.step(HandshakeEvent::Probed(false)),
            HandshakeAction::Send(_) => {
                sent += 1;
                connection.step(replied("{}"))
            }
            HandshakeAction::Done => break,
        };
    }
    assert_eq!(sent, 0);
    assert_eq!(connection.finish(), Some(Err(InternalSpotifyError::EndpointNotFound)));
}

#[test]
fn read_reply_refuses_a_body_with_too_long_a_number() {
    let mut text = String::from("{\"volume\": 0.");
    for _ in 0..33000 {
        text.push('0');
    }
    text.push('}');
    assert_eq!(
        SpotifyConnector::read_reply(body(&text)),
        Err(InternalSpotifyError::JSONParseError(JsonError::TooManyDigits))
    );
    assert!(!SpotifyConnector::succeeded(body(&text)));
}

#[test]
fn tokens_may_hold_any_run_of_digits() {
    let digits = "0".repeat(40000);
    let reply = body(&format!("{{\"t\": \"{}\"}}", digits));
    assert_eq!(SpotifyConnector::fetch_oauth_token(reply), Ok(digits.clone()));
    let reply = body(&format!("{{\"token\": \"0.{}\"}}", digits));
    assert_eq!(SpotifyConnector::fetch_csrf_token(reply), Ok(format!("0.{}", digits)));
    assert!(SpotifyConnector::succeeded(body(&format!("{{\"n\": 1{}}}", "0".repeat(20000)))));
}
