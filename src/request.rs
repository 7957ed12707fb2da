//! What every request descriptor shares: the API origin, query pairs for
//! optional and repeated fields, the permission scope, URI parsing and the
//! response envelope that pagination reads.
use vstd::prelude::*;
use vstd::string::StringExecFns;
use crate::query::push_char;

verus! {

/// The origin and API prefix that paths are appended to.
pub const HELIX_URL: &'static str = "https://api.twitch.tv/helix/";

/// The permission scope that every moderation endpoint requires.
pub const MODERATION_READ: &'static str = "moderation:read";

/// The HTTP method of an endpoint.
#[derive(Clone, Copy, PartialEq, Eq, Structural, Debug)]
pub enum Method {
    Get,
    Post,
}

/// A decoded response: the records of one page and the cursor of the next.
pub struct Response<T> {
    /// The records, in the order of the payload.
    pub data: Vec<T>,
    /// The continuation cursor, as the payload gave it.
    pub cursor: Option<String>,
}

/// A next page exists when a non-empty cursor came back.
pub open spec fn has_next(cursor: Option<String>) -> bool {
    cursor matches Some(c) && c@.len() > 0
}

/// The pair for an optional field: none when the field is absent.
pub open spec fn opt_pair(key: Seq<char>, value: Option<String>) -> Seq<(Seq<char>, Seq<char>)> {
    match value {
        Some(v) => seq![(key, v@)],
        None => Seq::empty(),
    }
}

/// The pairs for a repeated field: one per element, in order.
pub open spec fn list_pairs(key: Seq<char>, values: Seq<String>) -> Seq<(Seq<char>, Seq<char>)> {
    values.map_values(|v: String| (key, v@))
}

/// Decimal digit of a value below 10.
pub open spec fn digit_char(d: nat) -> char {
    (d + 48) as char
}

/// The decimal text of a natural number, without leading zeros.
pub open spec fn decimal(n: nat) -> Seq<char>
    decreases n,
{
    if n < 10 {
        seq![digit_char(n)]
    } else {
        decimal(n / 10) + seq![digit_char(n % 10)]
    }
}

/// The pair for an optional count.
pub open spec fn opt_count_pair(key: Seq<char>, value: Option<usize>) -> Seq<(Seq<char>, Seq<char>)> {
    match value {
        Some(n) => seq![(key, decimal(n as nat))],
        None => Seq::empty(),
    }
}

fn push_decimal(out: &mut String, n: usize)
    ensures
        final(out)@ == old(out)@ + decimal(n as nat),
    decreases n,
{
    if n >= 10 {
        push_decimal(out, n / 10);
    }
    let d: u8 = (n % 10) as u8;
    push_char(out, (d + 48) as char);
}

/// The decimal text of `n`.
pub fn decimal_text(n: usize) -> (r: String)
    ensures
        r@ == decimal(n as nat),
{
    let mut out = String::new();
    push_decimal(&mut out, n);
    out
}

/// Appends the pair for an optional field.
pub fn push_opt_pair(pairs: &mut Vec<(String, String)>, key: &str, value: &Option<String>)
    ensures
        crate::query::pairs_view(final(pairs)@) == crate::query::pairs_view(old(pairs)@)
            + opt_pair(key@, *value),
{
    let ghost before = old(pairs)@;
    match value {
        Some(v) => {
            pairs.push((String::from_str(key), v.clone()));
            assert(crate::query::pairs_view(pairs@) =~= crate::query::pairs_view(before)
                + opt_pair(key@, *value));
        },
        None => {
            assert(crate::query::pairs_view(pairs@) =~= crate::query::pairs_view(before)
                + opt_pair(key@, *value));
        },
    }
}

/// Appends the pair for an optional count.
pub fn push_count_pair(pairs: &mut Vec<(String, String)>, key: &str, value: Option<usize>)
    ensures
        crate::query::pairs_view(final(pairs)@) == crate::query::pairs_view(old(pairs)@)
            + opt_count_pair(key@, value),
{
    let ghost before = old(pairs)@;
    match value {
        Some(n) => {
            pairs.push((String::from_str(key), decimal_text(n)));
        },
        None => {},
    }
    assert(crate::query::pairs_view(pairs@) =~= crate::query::pairs_view(before)
        + opt_count_pair(key@, value));
}

/// Appends one pair per element of a repeated field.
pub fn push_list_pairs(pairs: &mut Vec<(String, String)>, key: &str, values: &Vec<String>)
    ensures
        crate::query::pairs_view(final(pairs)@) == crate::query::pairs_view(old(pairs)@)
            + list_pairs(key@, values@),
{
    let ghost before = old(pairs)@;
    let mut i: usize = 0;
    while i < values.len()
        invariant
            i <= values@.len(),
            crate::query::pairs_view(pairs@) == crate::query::pairs_view(before) + list_pairs(
                key@,
                values@.subrange(0, i as int),
            ),
        decreases values@.len() - i,
    {
        let ghost prev = pairs@;
        pairs.push((String::from_str(key), values[i].clone()));
        assert(crate::query::pairs_view(pairs@) =~= crate::query::pairs_view(prev).push(
            (key@, values@[i as int]@),
        ));
        assert(list_pairs(key@, values@.subrange(0, i + 1)) =~= list_pairs(
            key@,
            values@.subrange(0, i as int),
        ).push((key@, values@[i as int]@)));
        i = i + 1;
    }
    assert(values@.subrange(0, values@.len() as int) =~= values@);
}

/// A URI text that the HTTP library did not accept.
#[derive(Debug)]
pub struct UriError {
    /// The text that was refused.
    pub text: String,
}

/// Whether the HTTP library accepts a text as a URI.
pub uninterp spec fn uri_accepted(s: Seq<char>) -> bool;

/// Relies on `<http::Uri as FromStr>::from_str`: it parses the text, and
/// whether it succeeds depends on the text alone.
#[verifier::external_body]
fn parse_uri(s: &str) -> (r: Result<http::Uri, http::uri::InvalidUri>)
    ensures
        r is Ok <==> uri_accepted(s@),
{
    s.parse::<http::Uri>()
}

/// Parses a URI text built by a request descriptor.
pub fn to_http_uri(text: String) -> (r: Result<http::Uri, UriError>)
    ensures
        r is Ok <==> uri_accepted(text@),
        r matches Err(e) ==> e.text@ == text@,
{
    match parse_uri(text.as_str()) {
        Ok(u) => Ok(u),
        Err(_) => Err(UriError { text }),
    }
}

/// The scope tokens of a moderation endpoint.
pub fn moderation_scopes() -> (r: Vec<String>)
    ensures
        r@.len() == 1,
        r@[0]@ == MODERATION_READ@,
{
    let mut v = Vec::new();
    v.push(String::from_str(MODERATION_READ));
    v
}

/// Relies on twitch_oauth2::Scope::parse: the scope that a token names.
#[verifier::external_body]
fn scope_of(token: &String) -> (r: twitch_oauth2::Scope) {
    twitch_oauth2::Scope::parse(token.clone())
}

/// The credential scopes named by a list of tokens, one for each, in order.
pub fn scopes_of(tokens: &Vec<String>) -> (r: Vec<twitch_oauth2::Scope>)
    ensures
        r@.len() == tokens@.len(),
{
    let mut out = Vec::new();
    let mut i: usize = 0;
    while i < tokens.len()
        invariant
            i <= tokens@.len(),
            out@.len() == i,
        decreases tokens@.len() - i,
    {
        out.push(scope_of(&tokens[i]));
        i = i + 1;
    }
    out
}

#[verifier::external_type_specification]
#[verifier::external_body]
pub struct ExUri(http::Uri);

#[verifier::external_type_specification]
#[verifier::external_body]
pub struct ExInvalidUri(http::uri::InvalidUri);

#[verifier::external_type_specification]
#[verifier::external_body]
pub struct ExScope(twitch_oauth2::Scope);

} // verus!
