//! The request descriptors of the moderation endpoints: their paths,
//! queries, URIs, scopes, decoding of their responses and pagination.
use vstd::prelude::*;
use crate::query::{build_uri, encode_text, pairs_view, query_text, uri_text};
use crate::request::{
    HELIX_URL, Method, Response, UriError, has_next, list_pairs, moderation_scopes, opt_count_pair,
    opt_pair, push_count_pair, push_list_pairs, push_opt_pair, to_http_uri,
};
use crate::decode::{DecodeError, DecodeMode, bytes_decoded_as, decode_bytes};
use crate::records::{BannedEvent, BannedUser, CheckAutoModStatus, ModeratorEvent, Moderator};

verus! {

/// Resource path of `GetModeratorsRequest`.
pub const GET_MODERATORS_PATH: &'static str = "moderation/moderators";

/// Query of Get Moderators: all moderators of a channel.
#[derive(Debug, Clone)]
pub struct GetModeratorsRequest {
    /// The channel; must match the user of the bearer token.
    pub broadcaster_id: String,
    /// Cursor for forward pagination, from the previous response.
    pub after: Option<String>,
}

impl GetModeratorsRequest {
    /// A query for one channel, with every optional field unset.
    pub fn new(broadcaster_id: String) -> (r: Self)
        ensures
            r.broadcaster_id == broadcaster_id,
            r.after is None,
    {
        GetModeratorsRequest { broadcaster_id, after: None }
    }

    /// The query pairs, in declaration order; absent fields give none.
    pub open spec fn query_model(&self) -> Seq<(Seq<char>, Seq<char>)> {
        seq![("broadcaster_id"@, self.broadcaster_id@)]
            + opt_pair("after"@, self.after)
    }

    /// The URI of this query under `base`.
    pub open spec fn uri_model(&self, base: Seq<char>) -> Seq<char> {
        uri_text(base, GET_MODERATORS_PATH@, self.query_model())
    }

    /// The query pairs, in declaration order.
    pub fn query_pairs(&self) -> (r: Vec<(String, String)>)
        ensures
            pairs_view(r@) == self.query_model(),
    {
        let mut v: Vec<(String, String)> = Vec::new();
        v.push((String::from_str("broadcaster_id"), self.broadcaster_id.clone()));
        assert(pairs_view(v@) =~= seq![("broadcaster_id"@, self.broadcaster_id@)]);
        push_opt_pair(&mut v, "after", &self.after);
        v
    }

    /// The URI text of this query under an explicit base.
    pub fn uri_with_base(&self, base: &str) -> (r: String)
        ensures
            r@ == self.uri_model(base@),
    {
        let pairs = self.query_pairs();
        build_uri(base, GET_MODERATORS_PATH, &pairs)
    }

    /// The URI text of this query on the Helix API.
    pub fn uri_string(&self) -> (r: String)
        ensures
            r@ == self.uri_model(HELIX_URL@),
    {
        self.uri_with_base(HELIX_URL)
    }

    /// The URI of this query on the Helix API, parsed by the HTTP library.
    pub fn get_uri(&self) -> (r: Result<http::Uri, UriError>)
        ensures
            r is Ok <==> crate::request::uri_accepted(self.uri_model(HELIX_URL@)),
            r matches Err(e) ==> e.text@ == self.uri_model(HELIX_URL@),
    {
        to_http_uri(self.uri_string())
    }

    /// The HTTP method of the endpoint.
    pub fn method() -> (r: Method)
        ensures
            r == Method::Get,
    {
        Method::Get
    }

    /// The scope tokens that the credential must hold.
    pub fn required_scopes() -> (r: Vec<String>)
        ensures
            r@.len() == 1,
            r@[0]@ == crate::request::MODERATION_READ@,
    {
        moderation_scopes()
    }

    /// Decodes the body of a response to this query.
    pub fn parse_response(&self, body: &[u8], mode: DecodeMode) -> (r: Result<Response<Moderator>, DecodeError>)
        ensures
            bytes_decoded_as::<Moderator>(body@, mode == DecodeMode::Strict, r),
    {
        decode_bytes::<Moderator>(body, mode)
    }

    /// With only the mandatory field set, the URI is the base, the path,
    /// `?`, and `broadcaster_id=` with the encoded identifier; nothing else.
    pub proof fn lemma_minimal_uri(&self, base: Seq<char>)
        requires
            self.after is None,
        ensures
            self.uri_model(base) == base + GET_MODERATORS_PATH@ + seq!['?'] + "broadcaster_id"@
                + seq!['=']
                + encode_text(self.broadcaster_id@),
    {
        assert(self.query_model() =~= seq![("broadcaster_id"@, self.broadcaster_id@)]);
        assert(query_text(self.query_model()) == "broadcaster_id"@ + seq!['='] + encode_text(
            self.broadcaster_id@,
        ));
        assert(self.uri_model(base) =~= base + GET_MODERATORS_PATH@ + seq!['?'] + "broadcaster_id"@
            + seq!['=']
            + encode_text(self.broadcaster_id@));
    }

    /// Sets the cursor that the next request starts from.
    pub fn set_pagination(&mut self, cursor: Option<String>)
        ensures
            *final(self) == (GetModeratorsRequest { after: cursor, ..*old(self) }),
    {
        self.after = cursor;
    }

    /// The request for the next page: this one with the response's cursor,
    /// where the response carried a non-empty cursor; none otherwise.
    pub fn next_page<T>(self, response: &Response<T>) -> (r: Option<Self>)
        ensures
            has_next(response.cursor)
                ==> r == Some((GetModeratorsRequest { after: response.cursor, ..self })),
            !has_next(response.cursor) ==> r is None,
    {
        match &response.cursor {
            Some(c) => {
                if c.as_str().is_empty() {
                    None
                } else {
                    let mut next = self;
                    next.set_pagination(Some(c.clone()));
                    Some(next)
                }
            },
            None => None,
        }
    }
}

/// Resource path of `GetModeratorEventsRequest`.
pub const GET_MODERATOR_EVENTS_PATH: &'static str = "moderation/moderators/events";

/// Query of Get Moderator Events: users added and removed as moderators of a channel.
#[derive(Debug, Clone)]
pub struct GetModeratorEventsRequest {
    /// The channel; must match the user of the bearer token.
    pub broadcaster_id: String,
    /// Only users with one of these IDs; each is sent as its own `user_id` pair.
    pub user_id: Vec<String>,
    /// Cursor for forward pagination, from the previous response.
    pub after: Option<String>,
}

impl GetModeratorEventsRequest {
    /// A query for one channel, with every optional field unset.
    pub fn new(broadcaster_id: String) -> (r: Self)
        ensures
            r.broadcaster_id == broadcaster_id,
            r.user_id@.len() == 0,
            r.after is None,
    {
        GetModeratorEventsRequest { broadcaster_id, user_id: Vec::new(), after: None }
    }

    /// The query pairs, in declaration order; absent fields give none.
    pub open spec fn query_model(&self) -> Seq<(Seq<char>, Seq<char>)> {
        seq![("broadcaster_id"@, self.broadcaster_id@)]
            + list_pairs("user_id"@, self.user_id@)
            + opt_pair("after"@, self.after)
    }

    /// The URI of this query under `base`.
    pub open spec fn uri_model(&self, base: Seq<char>) -> Seq<char> {
        uri_text(base, GET_MODERATOR_EVENTS_PATH@, self.query_model())
    }

    /// The query pairs, in declaration order.
    pub fn query_pairs(&self) -> (r: Vec<(String, String)>)
        ensures
            pairs_view(r@) == self.query_model(),
    {
        let mut v: Vec<(String, String)> = Vec::new();
        v.push((String::from_str("broadcaster_id"), self.broadcaster_id.clone()));
        assert(pairs_view(v@) =~= seq![("broadcaster_id"@, self.broadcaster_id@)]);
        push_list_pairs(&mut v, "user_id", &self.user_id);
        push_opt_pair(&mut v, "after", &self.after);
        v
    }

    /// The URI text of this query under an explicit base.
    pub fn uri_with_base(&self, base: &str) -> (r: String)
        ensures
            r@ == self.uri_model(base@),
    {
        let pairs = self.query_pairs();
        build_uri(base, GET_MODERATOR_EVENTS_PATH, &pairs)
    }

    /// The URI text of this query on the Helix API.
    pub fn uri_string(&self) -> (r: String)
        ensures
            r@ == self.uri_model(HELIX_URL@),
    {
        self.uri_with_base(HELIX_URL)
    }

    /// The URI of this query on the Helix API, parsed by the HTTP library.
    pub fn get_uri(&self) -> (r: Result<http::Uri, UriError>)
        ensures
            r is Ok <==> crate::request::uri_accepted(self.uri_model(HELIX_URL@)),
            r matches Err(e) ==> e.text@ == self.uri_model(HELIX_URL@),
    {
        to_http_uri(self.uri_string())
    }

    /// The HTTP method of the endpoint.
    pub fn method() -> (r: Method)
        ensures
            r == Method::Get,
    {
        Method::Get
    }

    /// The scope tokens that the credential must hold.
    pub fn required_scopes() -> (r: Vec<String>)
        ensures
            r@.len() == 1,
            r@[0]@ == crate::request::MODERATION_READ@,
    {
        moderation_scopes()
    }

    /// Decodes the body of a response to this query.
    pub fn parse_response(&self, body: &[u8], mode: DecodeMode) -> (r: Result<Response<ModeratorEvent>, DecodeError>)
        ensures
            bytes_decoded_as::<ModeratorEvent>(body@, mode == DecodeMode::Strict, r),
    {
        decode_bytes::<ModeratorEvent>(body, mode)
    }

    /// With only the mandatory field set, the URI is the base, the path,
    /// `?`, and `broadcaster_id=` with the encoded identifier; nothing else.
    pub proof fn lemma_minimal_uri(&self, base: Seq<char>)
        requires
            self.user_id@.len() == 0,
            self.after is None,
        ensures
            self.uri_model(base) == base + GET_MODERATOR_EVENTS_PATH@ + seq!['?'] + "broadcaster_id"@
                + seq!['=']
                + encode_text(self.broadcaster_id@),
    {
        assert(list_pairs("user_id"@, self.user_id@) =~= Seq::empty());
        assert(self.query_model() =~= seq![("broadcaster_id"@, self.broadcaster_id@)]);
        assert(query_text(self.query_model()) == "broadcaster_id"@ + seq!['='] + encode_text(
            self.broadcaster_id@,
        ));
        assert(self.uri_model(base) =~= base + GET_MODERATOR_EVENTS_PATH@ + seq!['?'] + "broadcaster_id"@
            + seq!['=']
            + encode_text(self.broadcaster_id@));
    }

    /// Each user ID stands as a `user_id` pair of its own, in the order of
    /// the list, right after the broadcaster.
    pub proof fn lemma_repeated_user_ids(&self)
        ensures
            self.query_model()[0] == ("broadcaster_id"@, self.broadcaster_id@),
            forall|i: int|
                0 <= i < self.user_id@.len() ==> self.query_model()[i + 1] == (
                    "user_id"@,
                    #[trigger] self.user_id@[i]@,
                ),
    {
        assert forall|i: int| 0 <= i < self.user_id@.len() implies self.query_model()[i + 1] == (
            "user_id"@,
            #[trigger] self.user_id@[i]@,
        ) by {
            assert(list_pairs("user_id"@, self.user_id@)[i] == ("user_id"@, self.user_id@[i]@));
        }
    }

    /// Sets the cursor that the next request starts from.
    pub fn set_pagination(&mut self, cursor: Option<String>)
        ensures
            *final(self) == (GetModeratorEventsRequest { after: cursor, ..*old(self) }),
    {
        self.after = cursor;
    }

    /// The request for the next page: this one with the response's cursor,
    /// where the response carried a non-empty cursor; none otherwise.
    pub fn next_page<T>(self, response: &Response<T>) -> (r: Option<Self>)
        ensures
            has_next(response.cursor)
                ==> r == Some((GetModeratorEventsRequest { after: response.cursor, ..self })),
            !has_next(response.cursor) ==> r is None,
    {
        match &response.cursor {
            Some(c) => {
                if c.as_str().is_empty() {
                    None
                } else {
                    let mut next = self;
                    next.set_pagination(Some(c.clone()));
                    Some(next)
                }
            },
            None => None,
        }
    }
}

/// Resource path of `GetBannedUsersRequest`.
pub const GET_BANNED_USERS_PATH: &'static str = "moderation/banned";

/// Query of Get Banned Users: all banned and timed-out users of a channel.
#[derive(Debug, Clone)]
pub struct GetBannedUsersRequest {
    /// The channel; must match the user of the bearer token.
    pub broadcaster_id: String,
    /// Only users with one of these IDs; each is sent as its own `user_id` pair.
    pub user_id: Vec<String>,
    /// Cursor for forward pagination, from the previous response.
    pub after: Option<String>,
}

impl GetBannedUsersRequest {
    /// A query for one channel, with every optional field unset.
    pub fn new(broadcaster_id: String) -> (r: Self)
        ensures
            r.broadcaster_id == broadcaster_id,
            r.user_id@.len() == 0,
            r.after is None,
    {
        GetBannedUsersRequest { broadcaster_id, user_id: Vec::new(), after: None }
    }

    /// The query pairs, in declaration order; absent fields give none.
    pub open spec fn query_model(&self) -> Seq<(Seq<char>, Seq<char>)> {
        seq![("broadcaster_id"@, self.broadcaster_id@)]
            + list_pairs("user_id"@, self.user_id@)
            + opt_pair("after"@, self.after)
    }

    /// The URI of this query under `base`.
    pub open spec fn uri_model(&self, base: Seq<char>) -> Seq<char> {
        uri_text(base, GET_BANNED_USERS_PATH@, self.query_model())
    }

    /// The query pairs, in declaration order.
    pub fn query_pairs(&self) -> (r: Vec<(String, String)>)
        ensures
            pairs_view(r@) == self.query_model(),
    {
        let mut v: Vec<(String, String)> = Vec::new();
        v.push((String::from_str("broadcaster_id"), self.broadcaster_id.clone()));
        assert(pairs_view(v@) =~= seq![("broadcaster_id"@, self.broadcaster_id@)]);
        push_list_pairs(&mut v, "user_id", &self.user_id);
        push_opt_pair(&mut v, "after", &self.after);
        v
    }

    /// The URI text of this query under an explicit base.
    pub fn uri_with_base(&self, base: &str) -> (r: String)
        ensures
            r@ == self.uri_model(base@),
    {
        let pairs = self.query_pairs();
        build_uri(base, GET_BANNED_USERS_PATH, &pairs)
    }

    /// The URI text of this query on the Helix API.
    pub fn uri_string(&self) -> (r: String)
        ensures
            r@ == self.uri_model(HELIX_URL@),
    {
        self.uri_with_base(HELIX_URL)
    }

    /// The URI of this query on the Helix API, parsed by the HTTP library.
    pub fn get_uri(&self) -> (r: Result<http::Uri, UriError>)
        ensures
            r is Ok <==> crate::request::uri_accepted(self.uri_model(HELIX_URL@)),
            r matches Err(e) ==> e.text@ == self.uri_model(HELIX_URL@),
    {
        to_http_uri(self.uri_string())
    }

    /// The HTTP method of the endpoint.
    pub fn method() -> (r: Method)
        ensures
            r == Method::Get,
    {
        Method::Get
    }

    /// The scope tokens that the credential must hold.
    pub fn required_scopes() -> (r: Vec<String>)
        ensures
            r@.len() == 1,
            r@[0]@ == crate::request::MODERATION_READ@,
    {
        moderation_scopes()
    }

    /// Decodes the body of a response to this query.
    pub fn parse_response(&self, body: &[u8], mode: DecodeMode) -> (r: Result<Response<BannedUser>, DecodeError>)
        ensures
            bytes_decoded_as::<BannedUser>(body@, mode == DecodeMode::Strict, r),
    {
        decode_bytes::<BannedUser>(body, mode)
    }

    /// With only the mandatory field set, the URI is the base, the path,
    /// `?`, and `broadcaster_id=` with the encoded identifier; nothing else.
    pub proof fn lemma_minimal_uri(&self, base: Seq<char>)
        requires
            self.user_id@.len() == 0,
            self.after is None,
        ensures
            self.uri_model(base) == base + GET_BANNED_USERS_PATH@ + seq!['?'] + "broadcaster_id"@
                + seq!['=']
                + encode_text(self.broadcaster_id@),
    {
        assert(list_pairs("user_id"@, self.user_id@) =~= Seq::empty());
        assert(self.query_model() =~= seq![("broadcaster_id"@, self.broadcaster_id@)]);
        assert(query_text(self.query_model()) == "broadcaster_id"@ + seq!['='] + encode_text(
            self.broadcaster_id@,
        ));
        assert(self.uri_model(base) =~= base + GET_BANNED_USERS_PATH@ + seq!['?'] + "broadcaster_id"@
            + seq!['=']
            + encode_text(self.broadcaster_id@));
    }

    /// Each user ID stands as a `user_id` pair of its own, in the order of
    /// the list, right after the broadcaster.
    pub proof fn lemma_repeated_user_ids(&self)
        ensures
            self.query_model()[0] == ("broadcaster_id"@, self.broadcaster_id@),
            forall|i: int|
                0 <= i < self.user_id@.len() ==> self.query_model()[i + 1] == (
                    "user_id"@,
                    #[trigger] self.user_id@[i]@,
                ),
    {
        assert forall|i: int| 0 <= i < self.user_id@.len() implies self.query_model()[i + 1] == (
            "user_id"@,
            #[trigger] self.user_id@[i]@,
        ) by {
            assert(list_pairs("user_id"@, self.user_id@)[i] == ("user_id"@, self.user_id@[i]@));
        }
    }

    /// Sets the cursor that the next request starts from.
    pub fn set_pagination(&mut self, cursor: Option<String>)
        ensures
            *final(self) == (GetBannedUsersRequest { after: cursor, ..*old(self) }),
    {
        self.after = cursor;
    }

    /// The request for the next page: this one with the response's cursor,
    /// where the response carried a non-empty cursor; none otherwise.
    pub fn next_page<T>(self, response: &Response<T>) -> (r: Option<Self>)
        ensures
            has_next(response.cursor)
                ==> r == Some((GetBannedUsersRequest { after: response.cursor, ..self })),
            !has_next(response.cursor) ==> r is None,
    {
        match &response.cursor {
            Some(c) => {
                if c.as_str().is_empty() {
                    None
                } else {
                    let mut next = self;
                    next.set_pagination(Some(c.clone()));
                    Some(next)
                }
            },
            None => None,
        }
    }
}

/// Resource path of `GetBannedEventsRequest`.
pub const GET_BANNED_EVENTS_PATH: &'static str = "moderation/banned/events";

/// Query of Get Banned Events: bans and unbans in a channel.
#[derive(Debug, Clone)]
pub struct GetBannedEventsRequest {
    /// The channel; must match the user of the bearer token.
    pub broadcaster_id: String,
    /// Only users with one of these IDs; each is sent as its own `user_id` pair.
    pub user_id: Vec<String>,
    /// Cursor for forward pagination, from the previous response.
    pub after: Option<String>,
    /// Maximum number of objects to return.
    pub first: Option<usize>,
}

impl GetBannedEventsRequest {
    /// A query for one channel, with every optional field unset.
    pub fn new(broadcaster_id: String) -> (r: Self)
        ensures
            r.broadcaster_id == broadcaster_id,
            r.user_id@.len() == 0,
            r.after is None,
            r.first is None,
    {
        GetBannedEventsRequest { broadcaster_id, user_id: Vec::new(), after: None, first: None }
    }

    /// The query pairs, in declaration order; absent fields give none.
    pub open spec fn query_model(&self) -> Seq<(Seq<char>, Seq<char>)> {
        seq![("broadcaster_id"@, self.broadcaster_id@)]
            + list_pairs("user_id"@, self.user_id@)
            + opt_pair("after"@, self.after)
            + opt_count_pair("first"@, self.first)
    }

    /// The URI of this query under `base`.
    pub open spec fn uri_model(&self, base: Seq<char>) -> Seq<char> {
        uri_text(base, GET_BANNED_EVENTS_PATH@, self.query_model())
    }

    /// The query pairs, in declaration order.
    pub fn query_pairs(&self) -> (r: Vec<(String, String)>)
        ensures
            pairs_view(r@) == self.query_model(),
    {
        let mut v: Vec<(String, String)> = Vec::new();
        v.push((String::from_str("broadcaster_id"), self.broadcaster_id.clone()));
        assert(pairs_view(v@) =~= seq![("broadcaster_id"@, self.broadcaster_id@)]);
        push_list_pairs(&mut v, "user_id", &self.user_id);
        push_opt_pair(&mut v, "after", &self.after);
        push_count_pair(&mut v, "first", self.first);
        v
    }

    /// The URI text of this query under an explicit base.
    pub fn uri_with_base(&self, base: &str) -> (r: String)
        ensures
            r@ == self.uri_model(base@),
    {
        let pairs = self.query_pairs();
        build_uri(base, GET_BANNED_EVENTS_PATH, &pairs)
    }

    /// The URI text of this query on the Helix API.
    pub fn uri_string(&self) -> (r: String)
        ensures
            r@ == self.uri_model(HELIX_URL@),
    {
        self.uri_with_base(HELIX_URL)
    }

    /// The URI of this query on the Helix API, parsed by the HTTP library.
    pub fn get_uri(&self) -> (r: Result<http::Uri, UriError>)
        ensures
            r is Ok <==> crate::request::uri_accepted(self.uri_model(HELIX_URL@)),
            r matches Err(e) ==> e.text@ == self.uri_model(HELIX_URL@),
    {
        to_http_uri(self.uri_string())
    }

    /// The HTTP method of the endpoint.
    pub fn method() -> (r: Method)
        ensures
            r == Method::Get,
    {
        Method::Get
    }

    /// The scope tokens that the credential must hold.
    pub fn required_scopes() -> (r: Vec<String>)
        ensures
            r@.len() == 1,
            r@[0]@ == crate::request::MODERATION_READ@,
    {
        moderation_scopes()
    }

    /// Decodes the body of a response to this query.
    pub fn parse_response(&self, body: &[u8], mode: DecodeMode) -> (r: Result<Response<BannedEvent>, DecodeError>)
        ensures
            bytes_decoded_as::<BannedEvent>(body@, mode == DecodeMode::Strict, r),
    {
        decode_bytes::<BannedEvent>(body, mode)
    }

    /// With only the mandatory field set, the URI is the base, the path,
    /// `?`, and `broadcaster_id=` with the encoded identifier; nothing else.
    pub proof fn lemma_minimal_uri(&self, base: Seq<char>)
        requires
            self.user_id@.len() == 0,
            self.after is None,
            self.first is None,
        ensures
            self.uri_model(base) == base + GET_BANNED_EVENTS_PATH@ + seq!['?'] + "broadcaster_id"@
                + seq!['=']
                + encode_text(self.broadcaster_id@),
    {
        assert(list_pairs("user_id"@, self.user_id@) =~= Seq::empty());
        assert(self.query_model() =~= seq![("broadcaster_id"@, self.broadcaster_id@)]);
        assert(query_text(self.query_model()) == "broadcaster_id"@ + seq!['='] + encode_text(
            self.broadcaster_id@,
        ));
        assert(self.uri_model(base) =~= base + GET_BANNED_EVENTS_PATH@ + seq!['?'] + "broadcaster_id"@
            + seq!['=']
            + encode_text(self.broadcaster_id@));
    }

    /// Each user ID stands as a `user_id` pair of its own, in the order of
    /// the list, right after the broadcaster.
    pub proof fn lemma_repeated_user_ids(&self)
        ensures
            self.query_model()[0] == ("broadcaster_id"@, self.broadcaster_id@),
            forall|i: int|
                0 <= i < self.user_id@.len() ==> self.query_model()[i + 1] == (
                    "user_id"@,
                    #[trigger] self.user_id@[i]@,
                ),
    {
        assert forall|i: int| 0 <= i < self.user_id@.len() implies self.query_model()[i + 1] == (
            "user_id"@,
            #[trigger] self.user_id@[i]@,
        ) by {
            assert(list_pairs("user_id"@, self.user_id@)[i] == ("user_id"@, self.user_id@[i]@));
        }
    }

    /// Sets the cursor that the next request starts from.
    pub fn set_pagination(&mut self, cursor: Option<String>)
        ensures
            *final(self) == (GetBannedEventsRequest { after: cursor, ..*old(self) }),
    {
        self.after = cursor;
    }

    /// The request for the next page: this one with the response's cursor,
    /// where the response carried a non-empty cursor; none otherwise.
    pub fn next_page<T>(self, response: &Response<T>) -> (r: Option<Self>)
        ensures
            has_next(response.cursor)
                ==> r == Some((GetBannedEventsRequest { after: response.cursor, ..self })),
            !has_next(response.cursor) ==> r is None,
    {
        match &response.cursor {
            Some(c) => {
                if c.as_str().is_empty() {
                    None
                } else {
                    let mut next = self;
                    next.set_pagination(Some(c.clone()));
                    Some(next)
                }
            },
            None => None,
        }
    }
}

/// Resource path of `CheckAutoModStatusRequest`.
pub const CHECK_AUTOMOD_STATUS_PATH: &'static str = "moderation/enforcements/status";

/// Query of Check AutoMod Status: whether messages meet a channel's AutoMod requirements.
#[derive(Debug, Clone)]
pub struct CheckAutoModStatusRequest {
    /// The channel; must match the user of the bearer token.
    pub broadcaster_id: String,
}

impl CheckAutoModStatusRequest {
    /// A query for one channel, with every optional field unset.
    pub fn new(broadcaster_id: String) -> (r: Self)
        ensures
            r.broadcaster_id == broadcaster_id,
    {
        CheckAutoModStatusRequest { broadcaster_id }
    }

    /// The query pairs, in declaration order; absent fields give none.
    pub open spec fn query_model(&self) -> Seq<(Seq<char>, Seq<char>)> {
        seq![("broadcaster_id"@, self.broadcaster_id@)]
    }

    /// The URI of this query under `base`.
    pub open spec fn uri_model(&self, base: Seq<char>) -> Seq<char> {
        uri_text(base, CHECK_AUTOMOD_STATUS_PATH@, self.query_model())
    }

    /// The query pairs, in declaration order.
    pub fn query_pairs(&self) -> (r: Vec<(String, String)>)
        ensures
            pairs_view(r@) == self.query_model(),
    {
        let mut v: Vec<(String, String)> = Vec::new();
        v.push((String::from_str("broadcaster_id"), self.broadcaster_id.clone()));
        assert(pairs_view(v@) =~= seq![("broadcaster_id"@, self.broadcaster_id@)]);

        v
    }

    /// The URI text of this query under an explicit base.
    pub fn uri_with_base(&self, base: &str) -> (r: String)
        ensures
            r@ == self.uri_model(base@),
    {
        let pairs = self.query_pairs();
        build_uri(base, CHECK_AUTOMOD_STATUS_PATH, &pairs)
    }

    /// The URI text of this query on the Helix API.
    pub fn uri_string(&self) -> (r: String)
        ensures
            r@ == self.uri_model(HELIX_URL@),
    {
        self.uri_with_base(HELIX_URL)
    }

    /// The URI of this query on the Helix API, parsed by the HTTP library.
    pub fn get_uri(&self) -> (r: Result<http::Uri, UriError>)
        ensures
            r is Ok <==> crate::request::uri_accepted(self.uri_model(HELIX_URL@)),
            r matches Err(e) ==> e.text@ == self.uri_model(HELIX_URL@),
    {
        to_http_uri(self.uri_string())
    }

    /// The HTTP method of the endpoint.
    pub fn method() -> (r: Method)
        ensures
            r == Method::Post,
    {
        Method::Post
    }

    /// The scope tokens that the credential must hold.
    pub fn required_scopes() -> (r: Vec<String>)
        ensures
            r@.len() == 1,
            r@[0]@ == crate::request::MODERATION_READ@,
    {
        moderation_scopes()
    }

    /// Decodes the body of a response to this query.
    pub fn parse_response(&self, body: &[u8], mode: DecodeMode) -> (r: Result<Response<CheckAutoModStatus>, DecodeError>)
        ensures
            bytes_decoded_as::<CheckAutoModStatus>(body@, mode == DecodeMode::Strict, r),
    {
        decode_bytes::<CheckAutoModStatus>(body, mode)
    }

    /// With only the mandatory field set, the URI is the base, the path,
    /// `?`, and `broadcaster_id=` with the encoded identifier; nothing else.
    pub proof fn lemma_minimal_uri(&self, base: Seq<char>)
        ensures
            self.uri_model(base) == base + CHECK_AUTOMOD_STATUS_PATH@ + seq!['?'] + "broadcaster_id"@
                + seq!['=']
                + encode_text(self.broadcaster_id@),
    {
        assert(self.query_model() =~= seq![("broadcaster_id"@, self.broadcaster_id@)]);
        assert(query_text(self.query_model()) == "broadcaster_id"@ + seq!['='] + encode_text(
            self.broadcaster_id@,
        ));
        assert(self.uri_model(base) =~= base + CHECK_AUTOMOD_STATUS_PATH@ + seq!['?'] + "broadcaster_id"@
            + seq!['=']
            + encode_text(self.broadcaster_id@));
    }
}

} // verus!
