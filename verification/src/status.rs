//! The status checker: reduce one observed response of the platform's
//! streams-by-login endpoint to a live/offline signal with a snapshot.

use vstd::prelude::*;
use vstd::string::StringExecFns;

verus! {

/// A time of day, as read from the `started_at` field of a stream entry.
#[derive(Clone, Copy, Debug, PartialEq, Eq, Structural)]
pub struct ClockTime {
    pub hour: u8,
    pub minute: u8,
    pub second: u8,
}

/// The time of day that the ISO 8601 parse of a `started_at` text yields,
/// or `None` where the text does not parse.
pub uninterp spec fn time_of_day(s: Seq<char>) -> Option<ClockTime>;

/// Relies on `chrono::NaiveDateTime::parse_from_str` with the ISO 8601 /
/// RFC 3339 format `%+`: whether a text parses, and the time of day it
/// carries, depend on the text alone, and `chrono`'s `Timelike` accessors
/// document an hour below 24 and a minute and second below 60.
#[verifier::external_body]
fn parse_started_at(s: &str) -> (r: Option<ClockTime>)
    ensures
        r == time_of_day(s@),
        r matches Some(t) ==> t.hour < 24 && t.minute < 60 && t.second < 60,
{
    match chrono::NaiveDateTime::parse_from_str(s, "%+") {
        Ok(dt) => {
            let t = chrono::NaiveDateTime::time(&dt);
            Some(ClockTime {
                hour: chrono::Timelike::hour(&t) as u8,
                minute: chrono::Timelike::minute(&t) as u8,
                second: chrono::Timelike::second(&t) as u8,
            })
        }
        Err(_) => None,
    }
}

impl ClockTime {
    /// A well-formed time of day: what the parse of a valid timestamp yields.
    pub open spec fn wf(self) -> bool {
        self.hour < 24 && self.minute < 60 && self.second < 60
    }

    /// The eight characters `HH:MM:SS`, each field zero-padded to two digits.
    pub open spec fn spec_render(self) -> Seq<char> {
        seq![
            digit_char(self.hour as int / 10),
            digit_char(self.hour as int % 10),
            ':',
            digit_char(self.minute as int / 10),
            digit_char(self.minute as int % 10),
            ':',
            digit_char(self.second as int / 10),
            digit_char(self.second as int % 10),
        ]
    }

    /// Format the time as `HH:MM:SS` for display.
    pub fn render(&self) -> (r: String)
        requires
            self.wf(),
        ensures
            r@ == self.spec_render(),
    {
        let colon = ":";
        proof {
            reveal_strlit(":");
        }
        let mut s = String::new();
        s.append(digit_str(self.hour / 10));
        s.append(digit_str(self.hour % 10));
        s.append(colon);
        s.append(digit_str(self.minute / 10));
        s.append(digit_str(self.minute % 10));
        s.append(colon);
        s.append(digit_str(self.second / 10));
        s.append(digit_str(self.second % 10));
        proof {
            assert(s@ =~= self.spec_render());
        }
        s
    }
}

/// One entry of the response's `data` array, as plain values.
pub struct ApiEntry {
    pub user_name: String,
    pub title: String,
    pub viewer_count: u32,
    pub started_at: String,
    pub language: String,
    pub thumbnail_url: String,
    pub tags: Vec<String>,
}

/// The decoded body of a successful response: its `data` array.
pub struct ApiPayload {
    pub entries: Vec<ApiEntry>,
}

/// One observed exchange with the streams endpoint: the request failed
/// outright, the status was not a success, or the body arrived and either
/// decoded to the expected shape or did not.
pub enum ApiResponse {
    RequestFailed,
    HttpError,
    Body(Option<ApiPayload>),
}

/// A snapshot of a live stream, built fresh from one successful poll.
pub struct StreamSnapshot {
    pub broadcaster_name: String,
    pub title: String,
    pub viewer_count: u32,
    pub started_at: ClockTime,
    pub language: String,
    pub thumbnail_url: String,
    pub tags: Vec<String>,
}

/// What one status check concludes.
pub enum LiveResult {
    Live(StreamSnapshot),
    Offline,
    TransportError,
    ParseError,
}

/// The snapshot `s` carries exactly the fields of entry `e`, with `t` as the
/// parsed start time.
pub open spec fn snapshot_of(e: ApiEntry, t: ClockTime, s: StreamSnapshot) -> bool {
    &&& s.broadcaster_name@ == e.user_name@
    &&& s.title@ == e.title@
    &&& s.viewer_count == e.viewer_count
    &&& s.started_at == t
    &&& s.language@ == e.language@
    &&& s.thumbnail_url@ == e.thumbnail_url@
    &&& s.tags.deep_view() == e.tags.deep_view()
}

/// Reduce one observed response to a live/offline signal: a failed request or
/// an error status is a transport error; a body that did not decode, or whose
/// first entry carries an unparseable `started_at`, is a parse error; an empty
/// `data` array is offline; otherwise the first entry becomes a snapshot.
pub fn classify(resp: ApiResponse) -> (r: LiveResult)
    ensures
        resp is RequestFailed || resp is HttpError ==> r is TransportError,
        resp matches ApiResponse::Body(body) ==> {
            &&& body is None ==> r is ParseError
            &&& body matches Some(p) ==> {
                &&& p.entries@.len() == 0 ==> r is Offline
                &&& p.entries@.len() > 0 ==> {
                    &&& time_of_day(p.entries@[0].started_at@) is None ==> r is ParseError
                    &&& time_of_day(p.entries@[0].started_at@) matches Some(t) ==> {
                        &&& r matches LiveResult::Live(s) && snapshot_of(p.entries@[0], t, s)
                        &&& t.wf()
                    }
                }
            }
        },
{
    match resp {
        ApiResponse::RequestFailed => LiveResult::TransportError,
        ApiResponse::HttpError => LiveResult::TransportError,
        ApiResponse::Body(None) => LiveResult::ParseError,
        ApiResponse::Body(Some(payload)) => {
            let mut entries = payload.entries;
            if entries.len() == 0 {
                LiveResult::Offline
            } else {
                let entry = entries.remove(0);
                match parse_started_at(entry.started_at.as_str()) {
                    None => LiveResult::ParseError,
                    Some(t) => LiveResult::Live(
                        StreamSnapshot {
                            broadcaster_name: entry.user_name,
                            title: entry.title,
                            viewer_count: entry.viewer_count,
                            started_at: t,
                            language: entry.language,
                            thumbnail_url: entry.thumbnail_url,
                            tags: entry.tags,
                        },
                    ),
                }
            }
        }
    }
}

/// The address of the streams-by-login query for one broadcaster.
pub fn streams_url(login: &str) -> (r: String)
    ensures
        r@ == "https://api.twitch.tv/helix/streams?user_login="@ + login@,
{
    let mut s = String::from_str("https://api.twitch.tv/helix/streams?user_login=");
    s.append(login);
    s
}

/// The value of the authorization header for a bearer token.
pub fn bearer_header(token: &str) -> (r: String)
    ensures
        r@ == "Bearer "@ + token@,
{
    let mut s = String::from_str("Bearer ");
    s.append(token);
    s
}

/// The decimal digit character for a value below ten.
pub open spec fn digit_char(d: int) -> char {
    if d == 0 {
        '0'
    } else if d == 1 {
        '1'
    } else if d == 2 {
        '2'
    } else if d == 3 {
        '3'
    } else if d == 4 {
        '4'
    } else if d == 5 {
        '5'
    } else if d == 6 {
        '6'
    } else if d == 7 {
        '7'
    } else if d == 8 {
        '8'
    } else {
        '9'
    }
}

/// The one-character text for a decimal digit.
fn digit_str(d: u8) -> (r: &'static str)
    requires
        d < 10,
    ensures
        r@ == seq![digit_char(d as int)],
{
    proof {
        reveal_strlit("0");
        reveal_strlit("1");
        reveal_strlit("2");
        reveal_strlit("3");
        reveal_strlit("4");
        reveal_strlit("5");
        reveal_strlit("6");
        reveal_strlit("7");
        reveal_strlit("8");
        reveal_strlit("9");
    }
    let r: &'static str = if d == 0 {
        "0"
    } else if d == 1 {
        "1"
    } else if d == 2 {
        "2"
    } else if d == 3 {
        "3"
    } else if d == 4 {
        "4"
    } else if d == 5 {
        "5"
    } else if d == 6 {
        "6"
    } else if d == 7 {
        "7"
    } else if d == 8 {
        "8"
    } else {
        "9"
    };
    proof {
        assert(r@ =~= seq![digit_char(d as int)]);
    }
    r
}

} // verus!
