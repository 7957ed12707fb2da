//! The records of the moderation endpoints' responses.
use vstd::prelude::*;
use vstd::string::StringExecFns;
use crate::json::{Json, lemma_field_push};
use crate::decode::{
    FieldError, Record, bool_fault, bool_is, either, get_bool, get_opt_str, get_str,
    get_text_map, names_view, opt_str_fault, opt_str_is, str_fault, str_is, text_map_fault,
    text_map_is,
};

verus! {

/// A moderator of a channel.
#[derive(Debug, Clone)]
pub struct Moderator {
    /// User ID of the moderator.
    pub user_id: String,
    /// Display name of the moderator.
    pub user_name: String,
}

impl Record for Moderator {
    open spec fn names() -> Seq<Seq<char>> {
        seq!["user_id"@, "user_name"@]
    }

    open spec fn check(obj: Seq<(String, Json)>) -> Option<(crate::decode::FaultKind, Seq<char>)> {
        either(str_fault(obj, "user_id"@), str_fault(obj, "user_name"@))
    }

    open spec fn decodes(obj: Seq<(String, Json)>, r: Self) -> bool {
        &&& str_is(obj, "user_id"@, r.user_id)
        &&& str_is(obj, "user_name"@, r.user_name)
    }

    proof fn lemma_other_member(obj: Seq<(String, Json)>, e: (String, Json)) {
        assert(Self::names()[0] == "user_id"@);
        lemma_field_push(obj, e, "user_id"@);
        assert(Self::names()[1] == "user_name"@);
        lemma_field_push(obj, e, "user_name"@);
    }

    fn field_names() -> (r: Vec<String>) {
        let mut v = Vec::new();
        v.push(String::from_str("user_id"));
        v.push(String::from_str("user_name"));
        assert(names_view(v@) =~= Self::names());
        v
    }

    fn decode_object(obj: &Vec<(String, Json)>) -> (r: Result<Self, FieldError>) {
        let user_id = match get_str(obj, "user_id") {
            Ok(x) => x,
            Err(e) => return Err(e),
        };
        let user_name = match get_str(obj, "user_name") {
            Ok(x) => x,
            Err(e) => return Err(e),
        };
        Ok(Moderator { user_id, user_name })
    }
}

/// A user added or removed as moderator.
#[derive(Debug, Clone)]
pub struct ModeratorEvent {
    /// Event ID.
    pub id: String,
    /// `moderation.moderator.add` or `moderation.moderator.remove`.
    pub event_type: String,
    /// RFC3339 timestamp of the event.
    pub event_timestamp: String,
    /// Version of the endpoint.
    pub version: String,
    /// `broadcaster_id`, `broadcaster_name`, `user_id`, `user_name` and the like, in the order of the parsed object.
    pub event_data: Vec<(String, String)>,
}

impl Record for ModeratorEvent {
    open spec fn names() -> Seq<Seq<char>> {
        seq!["id"@, "event_type"@, "event_timestamp"@, "version"@, "event_data"@]
    }

    open spec fn check(obj: Seq<(String, Json)>) -> Option<(crate::decode::FaultKind, Seq<char>)> {
        either(str_fault(obj, "id"@), either(str_fault(obj, "event_type"@), either(str_fault(obj, "event_timestamp"@), either(str_fault(obj, "version"@), text_map_fault(obj, "event_data"@)))))
    }

    open spec fn decodes(obj: Seq<(String, Json)>, r: Self) -> bool {
        &&& str_is(obj, "id"@, r.id)
        &&& str_is(obj, "event_type"@, r.event_type)
        &&& str_is(obj, "event_timestamp"@, r.event_timestamp)
        &&& str_is(obj, "version"@, r.version)
        &&& text_map_is(obj, "event_data"@, r.event_data@)
    }

    proof fn lemma_other_member(obj: Seq<(String, Json)>, e: (String, Json)) {
        assert(Self::names()[0] == "id"@);
        lemma_field_push(obj, e, "id"@);
        assert(Self::names()[1] == "event_type"@);
        lemma_field_push(obj, e, "event_type"@);
        assert(Self::names()[2] == "event_timestamp"@);
        lemma_field_push(obj, e, "event_timestamp"@);
        assert(Self::names()[3] == "version"@);
        lemma_field_push(obj, e, "version"@);
        assert(Self::names()[4] == "event_data"@);
        lemma_field_push(obj, e, "event_data"@);
    }

    fn field_names() -> (r: Vec<String>) {
        let mut v = Vec::new();
        v.push(String::from_str("id"));
        v.push(String::from_str("event_type"));
        v.push(String::from_str("event_timestamp"));
        v.push(String::from_str("version"));
        v.push(String::from_str("event_data"));
        assert(names_view(v@) =~= Self::names());
        v
    }

    fn decode_object(obj: &Vec<(String, Json)>) -> (r: Result<Self, FieldError>) {
        let id = match get_str(obj, "id") {
            Ok(x) => x,
            Err(e) => return Err(e),
        };
        let event_type = match get_str(obj, "event_type") {
            Ok(x) => x,
            Err(e) => return Err(e),
        };
        let event_timestamp = match get_str(obj, "event_timestamp") {
            Ok(x) => x,
            Err(e) => return Err(e),
        };
        let version = match get_str(obj, "version") {
            Ok(x) => x,
            Err(e) => return Err(e),
        };
        let event_data = match get_text_map(obj, "event_data") {
            Ok(x) => x,
            Err(e) => return Err(e),
        };
        Ok(ModeratorEvent { id, event_type, event_timestamp, version, event_data })
    }
}

/// A banned or timed-out user of a channel.
#[derive(Debug, Clone)]
pub struct BannedUser {
    /// User ID of the banned user.
    pub user_id: String,
    /// Display name of the banned user.
    pub user_name: String,
    /// RFC3339 timestamp for timeouts; empty text for bans.
    pub expires_at: Option<String>,
}

impl Record for BannedUser {
    open spec fn names() -> Seq<Seq<char>> {
        seq!["user_id"@, "user_name"@, "expires_at"@]
    }

    open spec fn check(obj: Seq<(String, Json)>) -> Option<(crate::decode::FaultKind, Seq<char>)> {
        either(str_fault(obj, "user_id"@), either(str_fault(obj, "user_name"@), opt_str_fault(obj, "expires_at"@)))
    }

    open spec fn decodes(obj: Seq<(String, Json)>, r: Self) -> bool {
        &&& str_is(obj, "user_id"@, r.user_id)
        &&& str_is(obj, "user_name"@, r.user_name)
        &&& opt_str_is(obj, "expires_at"@, r.expires_at)
    }

    proof fn lemma_other_member(obj: Seq<(String, Json)>, e: (String, Json)) {
        assert(Self::names()[0] == "user_id"@);
        lemma_field_push(obj, e, "user_id"@);
        assert(Self::names()[1] == "user_name"@);
        lemma_field_push(obj, e, "user_name"@);
        assert(Self::names()[2] == "expires_at"@);
        lemma_field_push(obj, e, "expires_at"@);
    }

    fn field_names() -> (r: Vec<String>) {
        let mut v = Vec::new();
        v.push(String::from_str("user_id"));
        v.push(String::from_str("user_name"));
        v.push(String::from_str("expires_at"));
        assert(names_view(v@) =~= Self::names());
        v
    }

    fn decode_object(obj: &Vec<(String, Json)>) -> (r: Result<Self, FieldError>) {
        let user_id = match get_str(obj, "user_id") {
            Ok(x) => x,
            Err(e) => return Err(e),
        };
        let user_name = match get_str(obj, "user_name") {
            Ok(x) => x,
            Err(e) => return Err(e),
        };
        let expires_at = match get_opt_str(obj, "expires_at") {
            Ok(x) => x,
            Err(e) => return Err(e),
        };
        Ok(BannedUser { user_id, user_name, expires_at })
    }
}

/// A user banned or unbanned.
#[derive(Debug, Clone)]
pub struct BannedEvent {
    /// Event ID.
    pub id: String,
    /// `moderation.user.ban` or `moderation.user.unban`.
    pub event_type: String,
    /// RFC3339 timestamp of the event.
    pub event_timestamp: String,
    /// Version of the endpoint.
    pub version: String,
    /// `broadcaster_id`, `broadcaster_name`, `user_id`, `user_name` and `expires_at`, in the order of the parsed object.
    pub event_data: Vec<(String, String)>,
}

impl Record for BannedEvent {
    open spec fn names() -> Seq<Seq<char>> {
        seq!["id"@, "event_type"@, "event_timestamp"@, "version"@, "event_data"@]
    }

    open spec fn check(obj: Seq<(String, Json)>) -> Option<(crate::decode::FaultKind, Seq<char>)> {
        either(str_fault(obj, "id"@), either(str_fault(obj, "event_type"@), either(str_fault(obj, "event_timestamp"@), either(str_fault(obj, "version"@), text_map_fault(obj, "event_data"@)))))
    }

    open spec fn decodes(obj: Seq<(String, Json)>, r: Self) -> bool {
        &&& str_is(obj, "id"@, r.id)
        &&& str_is(obj, "event_type"@, r.event_type)
        &&& str_is(obj, "event_timestamp"@, r.event_timestamp)
        &&& str_is(obj, "version"@, r.version)
        &&& text_map_is(obj, "event_data"@, r.event_data@)
    }

    proof fn lemma_other_member(obj: Seq<(String, Json)>, e: (String, Json)) {
        assert(Self::names()[0] == "id"@);
        lemma_field_push(obj, e, "id"@);
        assert(Self::names()[1] == "event_type"@);
        lemma_field_push(obj, e, "event_type"@);
        assert(Self::names()[2] == "event_timestamp"@);
        lemma_field_push(obj, e, "event_timestamp"@);
        assert(Self::names()[3] == "version"@);
        lemma_field_push(obj, e, "version"@);
        assert(Self::names()[4] == "event_data"@);
        lemma_field_push(obj, e, "event_data"@);
    }

    fn field_names() -> (r: Vec<String>) {
        let mut v = Vec::new();
        v.push(String::from_str("id"));
        v.push(String::from_str("event_type"));
        v.push(String::from_str("event_timestamp"));
        v.push(String::from_str("version"));
        v.push(String::from_str("event_data"));
        assert(names_view(v@) =~= Self::names());
        v
    }

    fn decode_object(obj: &Vec<(String, Json)>) -> (r: Result<Self, FieldError>) {
        let id = match get_str(obj, "id") {
            Ok(x) => x,
            Err(e) => return Err(e),
        };
        let event_type = match get_str(obj, "event_type") {
            Ok(x) => x,
            Err(e) => return Err(e),
        };
        let event_timestamp = match get_str(obj, "event_timestamp") {
            Ok(x) => x,
            Err(e) => return Err(e),
        };
        let version = match get_str(obj, "version") {
            Ok(x) => x,
            Err(e) => return Err(e),
        };
        let event_data = match get_text_map(obj, "event_data") {
            Ok(x) => x,
            Err(e) => return Err(e),
        };
        Ok(BannedEvent { id, event_type, event_timestamp, version, event_data })
    }
}

/// Whether one message meets the channel's AutoMod requirements.
#[derive(Debug, Clone)]
pub struct CheckAutoModStatus {
    /// The `msg_id` passed in the request body.
    pub msg_id: String,
    /// Whether the message meets AutoMod requirements.
    pub is_permitted: bool,
}

impl Record for CheckAutoModStatus {
    open spec fn names() -> Seq<Seq<char>> {
        seq!["msg_id"@, "is_permitted"@]
    }

    open spec fn check(obj: Seq<(String, Json)>) -> Option<(crate::decode::FaultKind, Seq<char>)> {
        either(str_fault(obj, "msg_id"@), bool_fault(obj, "is_permitted"@))
    }

    open spec fn decodes(obj: Seq<(String, Json)>, r: Self) -> bool {
        &&& str_is(obj, "msg_id"@, r.msg_id)
        &&& bool_is(obj, "is_permitted"@, r.is_permitted)
    }

    proof fn lemma_other_member(obj: Seq<(String, Json)>, e: (String, Json)) {
        assert(Self::names()[0] == "msg_id"@);
        lemma_field_push(obj, e, "msg_id"@);
        assert(Self::names()[1] == "is_permitted"@);
        lemma_field_push(obj, e, "is_permitted"@);
    }

    fn field_names() -> (r: Vec<String>) {
        let mut v = Vec::new();
        v.push(String::from_str("msg_id"));
        v.push(String::from_str("is_permitted"));
        assert(names_view(v@) =~= Self::names());
        v
    }

    fn decode_object(obj: &Vec<(String, Json)>) -> (r: Result<Self, FieldError>) {
        let msg_id = match get_str(obj, "msg_id") {
            Ok(x) => x,
            Err(e) => return Err(e),
        };
        let is_permitted = match get_bool(obj, "is_permitted") {
            Ok(x) => x,
            Err(e) => return Err(e),
        };
        Ok(CheckAutoModStatus { msg_id, is_permitted })
    }
}

} // verus!
