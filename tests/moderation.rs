use helix_moderation::body::CheckAutoModStatusBody;
use helix_moderation::decode::{DecodeError, DecodeMode, FaultKind};
use helix_moderation::endpoints::{
    CheckAutoModStatusRequest, GetBannedEventsRequest, GetBannedUsersRequest,
    GetModeratorEventsRequest, GetModeratorsRequest,
};
use helix_moderation::query::encode_value;
use helix_moderation::request::{decimal_text, scopes_of, Method, Response};

fn body_of(data: &[u8]) -> Vec<u8> {
    http::Response::builder().body(data.to_vec()).unwrap().into_body()
}

const BAN_EVENTS: &[u8] = br#"
{
    "data": [
    {
        "id": "1IPFqAb0p0JncbPSTEPhx8JF1Sa",
        "event_type": "moderation.user.ban",
        "event_timestamp": "2019-03-13T15:55:14Z",
        "version": "1.0",
        "event_data": {
        "broadcaster_id": "198704263",
        "broadcaster_name": "aan22209",
        "user_id": "424596340",
        "user_name": "quotrok",
        "expires_at": ""
        }
    },
    {
        "id": "1IPFsDv5cs4mxfJ1s2O9Q5flf4Y",
        "event_type": "moderation.user.unban",
        "event_timestamp": "2019-03-13T15:55:30Z",
        "version": "1.0",
        "event_data": {
        "broadcaster_id": "198704263",
        "broadcaster_name": "aan22209",
        "user_id": "424596340",
        "user_name": "quotrok",
        "expires_at": ""
        }
    },
    {
        "id": "1IPFqmlu9W2q4mXXjULyM8zX0rb",
        "event_type": "moderation.user.ban",
        "event_timestamp": "2019-03-13T15:55:19Z",
        "version": "1.0",
        "event_data": {
        "broadcaster_id": "198704263",
        "broadcaster_name": "aan22209",
        "user_id": "424596340",
        "user_name": "quotrok",
        "expires_at": ""
        }
    }
    ],
    "pagination": {
    "cursor": "eyJiIjpudWxsLCJhIjp7IkN1cnNvciI6IjE5OTYwNDI2MzoyMDIxMjA1MzE6MUlQRnFtbHU5VzJxNG1YWGpVTHlNOHpYMHJiIn19"
    }
}
"#;

const CURSOR: &str = "eyJiIjpudWxsLCJhIjp7IkN1cnNvciI6IjEwMDQ3MzA2NDo4NjQwNjU3MToxSVZCVDFKMnY5M1BTOXh3d1E0dUdXMkJOMFcifX0";

fn entry<'a>(pairs: &'a [(String, String)], key: &str) -> Option<&'a str> {
    pairs.iter().find(|p| p.0 == key).map(|p| p.1.as_str())
}

#[test]
fn moderation_test_request() {
    let req = GetModeratorsRequest::new("198704263".to_string());
    let data = br#"
{
    "data": [
        {
            "user_id": "424596340",
            "user_name": "quotrok"
        },
        {
            "user_id": "424596340",
            "user_name": "quotrok"
        }
    ],
    "pagination": {
        "cursor": "eyJiIjpudWxsLCJhIjp7IkN1cnNvciI6IjEwMDQ3MzA2NDo4NjQwNjU3MToxSVZCVDFKMnY5M1BTOXh3d1E0dUdXMkJOMFcifX0"
    }
}
"#;
    let uri = req.get_uri().unwrap();
    assert_eq!(
        uri.to_string(),
        "https://api.twitch.tv/helix/moderation/moderators?broadcaster_id=198704263"
    );
    let resp = req.parse_response(&body_of(data), DecodeMode::Strict).unwrap();
    assert_eq!(resp.data.len(), 2);
    assert_eq!(resp.data[0].user_id, "424596340");
    assert_eq!(resp.data[1].user_name, "quotrok");
    assert_eq!(resp.cursor.as_deref(), Some(CURSOR));
}

#[test]
fn moderator_events_test_request() {
    let req = GetModeratorEventsRequest::new("198704263".to_string());
    let data = br#"
{
    "data": [
        {
        "id": "1IVBTnDSUDApiBQW4UBcVTK4hPr",
        "event_type": "moderation.moderator.remove",
        "event_timestamp": "2019-03-15T18:18:14Z",
        "version": "1.0",
        "event_data": {
            "broadcaster_id": "198704263",
            "broadcaster_name": "aan22209",
            "user_id": "423374343",
            "user_name": "glowillig"
        }
        },
        {
        "id": "1IVIPQdYIEnD8nJ376qkASDzsj7",
        "event_type": "moderation.moderator.add",
        "event_timestamp": "2019-03-15T19:15:13Z",
        "version": "1.0",
        "event_data": {
            "broadcaster_id": "198704263",
            "broadcaster_name": "aan22209",
            "user_id": "423374343",
            "user_name": "glowillig"
        }
        },
        {
        "id": "1IVBTP7gG61oXLMu7fvnRhrpsro",
        "event_type": "moderation.moderator.remove",
        "event_timestamp": "2019-03-15T18:18:11Z",
        "version": "1.0",
        "event_data": {
            "broadcaster_id": "198704263",
            "broadcaster_name": "aan22209",
            "user_id": "424596340",
            "user_name": "quotrok"
        }
        }
    ],
    "pagination": {
        "cursor": "eyJiIjpudWxsLCJhIjp7IkN1cnNvciI6IjEwMDQ3MzA2NDo4NjQwNjU3MToxSVZCVDFKMnY5M1BTOXh3d1E0dUdXMkJOMFcifX0"
    }
}
"#;
    let uri = req.get_uri().unwrap();
    assert_eq!(
        uri.to_string(),
        "https://api.twitch.tv/helix/moderation/moderators/events?broadcaster_id=198704263"
    );
    let resp = req.parse_response(&body_of(data), DecodeMode::Strict).unwrap();
    assert_eq!(resp.data.len(), 3);
    assert_eq!(resp.data[1].event_type, "moderation.moderator.add");
    assert_eq!(entry(&resp.data[2].event_data, "user_name"), Some("quotrok"));
    assert_eq!(resp.data[2].event_data.len(), 4);
    assert_eq!(resp.cursor.as_deref(), Some(CURSOR));
}

#[test]
fn banned_users_test_request() {
    let req = GetBannedUsersRequest::new("198704263".to_string());
    let data = br#"
{
    "data": [
        {
        "user_id": "423374343",
        "user_name": "glowillig",
        "expires_at": "2019-03-15T02:00:28Z"
        },
        {
        "user_id": "424596340",
        "user_name": "quotrok",
        "expires_at": "2018-08-07T02:07:55Z"
        }
    ],
    "pagination": {
        "cursor": "eyJiIjpudWxsLCJhIjp7IkN1cnNvciI6IjEwMDQ3MzA2NDo4NjQwNjU3MToxSVZCVDFKMnY5M1BTOXh3d1E0dUdXMkJOMFcifX0"
    }
}
"#;
    let uri = req.get_uri().unwrap();
    assert_eq!(
        uri.to_string(),
        "https://api.twitch.tv/helix/moderation/banned?broadcaster_id=198704263"
    );
    let resp = req.parse_response(&body_of(data), DecodeMode::Strict).unwrap();
    assert_eq!(resp.data.len(), 2);
    assert_eq!(resp.data[0].expires_at.as_deref(), Some("2019-03-15T02:00:28Z"));
    assert_eq!(resp.data[1].user_id, "424596340");
    assert_eq!(resp.cursor.as_deref(), Some(CURSOR));
}

#[test]
fn banned_events_test_request() {
    let req = GetBannedEventsRequest::new("198704263".to_string());
    let uri = req.get_uri().unwrap();
    assert_eq!(
        uri.to_string(),
        "https://api.twitch.tv/helix/moderation/banned/events?broadcaster_id=198704263"
    );
    let resp = req.parse_response(&body_of(BAN_EVENTS), DecodeMode::Strict).unwrap();
    assert_eq!(resp.data.len(), 3);
}

#[test]
fn check_automod_status_test_request() {
    let req = CheckAutoModStatusRequest::new("198704263".to_string());
    let data = br#"
{
   "data": [
     {
       "msg_id": "123",
       "is_permitted": true
     },
     {
       "msg_id": "393",
       "is_permitted": false
     }
   ]
}
"#;
    let uri = req.get_uri().unwrap();
    assert_eq!(
        uri.to_string(),
        "https://api.twitch.tv/helix/moderation/enforcements/status?broadcaster_id=198704263"
    );
    let resp = req.parse_response(&body_of(data), DecodeMode::Strict).unwrap();
    assert_eq!(resp.data.len(), 2);
    assert_eq!(resp.data[0].msg_id, "123");
    assert!(resp.data[0].is_permitted);
    assert!(!resp.data[1].is_permitted);
    assert_eq!(resp.cursor, None);
}

#[test]
fn ban_events_sample_in_order() {
    let req = GetBannedEventsRequest::new("198704263".to_string());
    let resp = req.parse_response(BAN_EVENTS, DecodeMode::Strict).unwrap();
    let types: Vec<&str> = resp.data.iter().map(|e| e.event_type.as_str()).collect();
    assert_eq!(
        types,
        vec!["moderation.user.ban", "moderation.user.unban", "moderation.user.ban"]
    );
    assert_eq!(resp.data[0].id, "1IPFqAb0p0JncbPSTEPhx8JF1Sa");
    assert_eq!(resp.data[2].id, "1IPFqmlu9W2q4mXXjULyM8zX0rb");
    for e in &resp.data {
        assert_eq!(entry(&e.event_data, "expires_at"), Some(""));
    }
    assert!(resp.cursor.as_deref().unwrap().starts_with("eyJi"));
}

#[test]
fn user_ids_are_repeated_in_order() {
    let mut req = GetBannedUsersRequest::new("1".to_string());
    req.user_id = vec!["2".to_string(), "3".to_string()];
    assert_eq!(
        req.uri_string(),
        "https://api.twitch.tv/helix/moderation/banned?broadcaster_id=1&user_id=2&user_id=3"
    );
    let mut ev = GetBannedEventsRequest::new("1".to_string());
    ev.user_id = vec!["9".to_string(), "4".to_string()];
    ev.after = Some("abc".to_string());
    ev.first = Some(100);
    assert_eq!(
        ev.uri_string(),
        "https://api.twitch.tv/helix/moderation/banned/events?broadcaster_id=1&user_id=9&user_id=4&after=abc&first=100"
    );
    let mut me = GetModeratorEventsRequest::new("5".to_string());
    me.user_id = vec!["7".to_string()];
    assert_eq!(
        me.uri_with_base("http://localhost/"),
        "http://localhost/moderation/moderators/events?broadcaster_id=5&user_id=7"
    );
}

#[test]
fn query_values_are_form_encoded() {
    assert_eq!(encode_value("a b&c=d/é*-._~"), "a+b%26c%3Dd%2F%C3%A9*-._%7E");
    assert_eq!(encode_value(""), "");
    let req = GetModeratorsRequest::new("x y".to_string());
    assert_eq!(
        req.uri_string(),
        "https://api.twitch.tv/helix/moderation/moderators?broadcaster_id=x+y"
    );
}

#[test]
fn decimal_counts() {
    assert_eq!(decimal_text(0), "0");
    assert_eq!(decimal_text(20), "20");
    assert_eq!(decimal_text(18446744073709551615), "18446744073709551615");
}

#[test]
fn next_page_follows_cursor() {
    let mut req = GetBannedEventsRequest::new("1".to_string());
    req.user_id = vec!["2".to_string()];
    req.first = Some(5);
    let resp: Response<u8> = Response { data: vec![], cursor: Some("next".to_string()) };
    let next = req.clone().next_page(&resp).unwrap();
    assert_eq!(next.after.as_deref(), Some("next"));
    assert_eq!(next.broadcaster_id, "1");
    assert_eq!(next.user_id, vec!["2".to_string()]);
    assert_eq!(next.first, Some(5));
}

#[test]
fn next_page_stops_when_exhausted() {
    let req = GetModeratorsRequest::new("1".to_string());
    let none: Response<u8> = Response { data: vec![], cursor: None };
    assert!(req.clone().next_page(&none).is_none());
    let empty: Response<u8> = Response { data: vec![], cursor: Some(String::new()) };
    assert!(req.next_page(&empty).is_none());
}

#[test]
fn set_pagination_replaces_cursor() {
    let mut req = GetModeratorEventsRequest::new("1".to_string());
    req.set_pagination(Some("c1".to_string()));
    assert_eq!(req.after.as_deref(), Some("c1"));
    req.set_pagination(None);
    assert_eq!(req.after, None);
    assert_eq!(req.broadcaster_id, "1");
}

#[test]
fn strict_refuses_unknown_field_lenient_ignores_it() {
    let req = GetModeratorsRequest::new("1".to_string());
    let extra = br#"{"data":[{"user_id":"1","user_name":"a","colour":"red"}]}"#;
    let plain = br#"{"data":[{"user_id":"1","user_name":"a"}]}"#;
    match req.parse_response(extra, DecodeMode::Strict) {
        Err(DecodeError::Record { index, kind, field }) => {
            assert_eq!(index, 0);
            assert_eq!(kind, FaultKind::Unknown);
            assert_eq!(field, "colour");
        }
        other => panic!("unexpected {:?}", other.map(|r| r.data.len())),
    }
    let lenient = req.parse_response(extra, DecodeMode::Lenient).unwrap();
    let strict = req.parse_response(plain, DecodeMode::Strict).unwrap();
    assert_eq!(lenient.data.len(), strict.data.len());
    assert_eq!(lenient.data[0].user_id, strict.data[0].user_id);
    assert_eq!(lenient.data[0].user_name, strict.data[0].user_name);
    assert_eq!(lenient.cursor, strict.cursor);
}

#[test]
fn decode_errors() {
    let req = GetBannedUsersRequest::new("1".to_string());
    assert!(matches!(req.parse_response(b"{not json", DecodeMode::Strict), Err(DecodeError::Syntax)));
    assert!(matches!(req.parse_response(b"[1]", DecodeMode::Strict), Err(DecodeError::NotObject)));
    match req.parse_response(b"{}", DecodeMode::Strict) {
        Err(DecodeError::Envelope { kind, field }) => {
            assert_eq!(kind, FaultKind::Missing);
            assert_eq!(field, "data");
        }
        _ => panic!("expected a missing data member"),
    }
    match req.parse_response(br#"{"data":{}}"#, DecodeMode::Strict) {
        Err(DecodeError::Envelope { kind, field }) => {
            assert_eq!(kind, FaultKind::WrongType);
            assert_eq!(field, "data");
        }
        _ => panic!("expected a mistyped data member"),
    }
    assert!(matches!(
        req.parse_response(br#"{"data":[{"user_id":"1","user_name":"a"},3]}"#, DecodeMode::Strict),
        Err(DecodeError::RecordNotObject { index: 1 })
    ));
    match req.parse_response(br#"{"data":[{"user_id":"1"}]}"#, DecodeMode::Strict) {
        Err(DecodeError::Record { index, kind, field }) => {
            assert_eq!(index, 0);
            assert_eq!(kind, FaultKind::Missing);
            assert_eq!(field, "user_name");
        }
        _ => panic!("expected a missing field"),
    }
    match req.parse_response(br#"{"data":[{"user_id":1,"user_name":"a"}]}"#, DecodeMode::Lenient) {
        Err(DecodeError::Record { kind, field, .. }) => {
            assert_eq!(kind, FaultKind::WrongType);
            assert_eq!(field, "user_id");
        }
        _ => panic!("expected a mistyped field"),
    }
    match req.parse_response(br#"{"data":[],"pagination":{"cursor":5}}"#, DecodeMode::Strict) {
        Err(DecodeError::Envelope { kind, field }) => {
            assert_eq!(kind, FaultKind::WrongType);
            assert_eq!(field, "cursor");
        }
        _ => panic!("expected a mistyped cursor"),
    }
    match req.parse_response(br#"{"data":[],"pagination":"x"}"#, DecodeMode::Strict) {
        Err(DecodeError::Envelope { field, .. }) => assert_eq!(field, "pagination"),
        _ => panic!("expected a mistyped pagination"),
    }
}

#[test]
fn absent_pagination_and_optional_fields() {
    let req = GetBannedUsersRequest::new("1".to_string());
    let resp = req
        .parse_response(
            br#"{"data":[{"user_id":"1","user_name":"a","expires_at":null},{"user_id":"2","user_name":"b"}],"pagination":{}}"#,
            DecodeMode::Strict,
        )
        .unwrap();
    assert_eq!(resp.data.len(), 2);
    assert_eq!(resp.data[0].expires_at, None);
    assert_eq!(resp.data[1].expires_at, None);
    assert_eq!(resp.cursor, None);
    let empty = req.parse_response(br#"{"data":[]}"#, DecodeMode::Strict).unwrap();
    assert_eq!(empty.data.len(), 0);
    assert_eq!(empty.cursor, None);
}

#[test]
fn automod_body_is_wrapped_in_data() {
    let req = CheckAutoModStatusRequest::new("1".to_string());
    let items = vec![
        CheckAutoModStatusBody::new(
            "test1".to_string(),
            "automod please approve this!".to_string(),
            "1234".to_string(),
        ),
        CheckAutoModStatusBody::new("2".to_string(), "say \"hi\"".to_string(), "5".to_string()),
    ];
    assert_eq!(
        req.body(&items).unwrap(),
        r#"{"data":[{"msg_id":"test1","msg_text":"automod please approve this!","user_id":"1234"},{"msg_id":"2","msg_text":"say \"hi\"","user_id":"5"}]}"#
    );
    assert_eq!(req.body(&vec![]).unwrap(), r#"{"data":[]}"#);
}

#[test]
fn moderation_scope_is_required() {
    let tokens = GetModeratorsRequest::required_scopes();
    assert_eq!(tokens, vec!["moderation:read".to_string()]);
    let scopes = scopes_of(&tokens);
    assert_eq!(scopes, vec![twitch_oauth2::Scope::ModerationRead]);
    assert_eq!(CheckAutoModStatusRequest::required_scopes(), tokens);
}

#[test]
fn methods_of_endpoints() {
    assert_eq!(GetModeratorsRequest::method(), Method::Get);
    assert_eq!(GetBannedEventsRequest::method(), Method::Get);
    assert_eq!(CheckAutoModStatusRequest::method(), Method::Post);
}
