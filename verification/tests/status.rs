use stream_notify::status::{
    bearer_header, classify, streams_url, ApiEntry, ApiPayload, ApiResponse, ClockTime,
    LiveResult, StreamSnapshot,
};

fn entry(started_at: &str) -> ApiEntry {
    ApiEntry {
        user_name: String::from("some_streamer"),
        title: String::from("Playing a game"),
        viewer_count: 321,
        started_at: String::from(started_at),
        language: String::from("en"),
        thumbnail_url: String::from("https://example.invalid/thumb.jpg"),
        tags: vec![String::from("English"), String::from("Gaming")],
    }
}

#[test]
fn request_failure_is_transport_error() {
    let r = classify(ApiResponse::RequestFailed);
    assert!(matches!(r, LiveResult::TransportError));
}

#[test]
fn error_status_is_transport_error() {
    let r = classify(ApiResponse::HttpError);
    assert!(matches!(r, LiveResult::TransportError));
}

#[test]
fn undecoded_body_is_parse_error() {
    let r = classify(ApiResponse::Body(None));
    assert!(matches!(r, LiveResult::ParseError));
}

#[test]
fn empty_data_is_offline() {
    let r = classify(ApiResponse::Body(Some(ApiPayload { entries: Vec::new() })));
    assert!(matches!(r, LiveResult::Offline));
}

#[test]
fn bad_timestamp_is_parse_error() {
    let r = classify(ApiResponse::Body(Some(ApiPayload {
        entries: vec![entry("yesterday evening")],
    })));
    assert!(matches!(r, LiveResult::ParseError));
}

#[test]
fn live_entry_becomes_snapshot() {
    let r = classify(ApiResponse::Body(Some(ApiPayload {
        entries: vec![entry("2024-05-01T17:30:05Z")],
    })));
    match r {
        LiveResult::Live(s) => {
            assert_eq!(s.broadcaster_name, "some_streamer");
            assert_eq!(s.title, "Playing a game");
            assert_eq!(s.viewer_count, 321);
            assert_eq!(s.started_at, ClockTime { hour: 17, minute: 30, second: 5 });
            assert_eq!(s.language, "en");
            assert_eq!(s.thumbnail_url, "https://example.invalid/thumb.jpg");
            assert_eq!(s.tags, vec![String::from("English"), String::from("Gaming")]);
        }
        _ => panic!("a valid live entry must classify as Live"),
    }
}

#[test]
fn only_first_entry_is_read() {
    let r = classify(ApiResponse::Body(Some(ApiPayload {
        entries: vec![entry("2024-05-01T00:00:59Z"), entry("not a timestamp")],
    })));
    match r {
        LiveResult::Live(s) => {
            assert_eq!(s.started_at, ClockTime { hour: 0, minute: 0, second: 59 });
        }
        _ => panic!("the first entry decides the result"),
    }
}

#[test]
fn render_pads_to_two_digits() {
    let t = ClockTime { hour: 1, minute: 2, second: 3 };
    assert_eq!(t.render(), "01:02:03");
}

#[test]
fn render_keeps_two_digit_fields() {
    let t = ClockTime { hour: 23, minute: 59, second: 40 };
    assert_eq!(t.render(), "23:59:40");
}

#[test]
fn url_appends_login() {
    assert_eq!(
        streams_url("some_streamer"),
        "https://api.twitch.tv/helix/streams?user_login=some_streamer"
    );
}

#[test]
fn bearer_header_prefixes_token() {
    assert_eq!(bearer_header("abc123"), "Bearer abc123");
}

#[test]
fn snapshot_fields_are_plain_values() {
    let s = StreamSnapshot {
        broadcaster_name: String::from("a"),
        title: String::from("b"),
        viewer_count: 0,
        started_at: ClockTime { hour: 0, minute: 0, second: 0 },
        language: String::from("en"),
        thumbnail_url: String::from("c"),
        tags: Vec::new(),
    };
    assert_eq!(s.started_at.render(), "00:00:00");
}
