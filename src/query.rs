//! Query-string construction: `application/x-www-form-urlencoded` encoding of
//! values and joining of `key=value` pairs.
use vstd::prelude::*;
use vstd::utf8::encode_utf8;
use vstd::string::StrSliceExecFns;
use vstd::string::StringExecFns;

verus! {

/// Bytes that the form encoding leaves unchanged.
pub open spec fn is_unreserved(b: u8) -> bool {
    (48 <= b && b <= 57) || (65 <= b && b <= 90) || (97 <= b && b <= 122) || b == 42 || b == 45
        || b == 46 || b == 95
}

/// Upper-case hexadecimal digit of a value below 16.
pub open spec fn hex_digit(d: u8) -> char {
    if d < 10 {
        (d + 48) as char
    } else {
        (d + 55) as char
    }
}

/// The encoding of one byte: itself, `+` for a space, `%XX` otherwise.
pub open spec fn encode_byte(b: u8) -> Seq<char> {
    if is_unreserved(b) {
        seq![b as char]
    } else if b == 32 {
        seq!['+']
    } else {
        seq!['%', hex_digit(b / 16), hex_digit(b % 16)]
    }
}

/// The form encoding of a byte sequence.
pub open spec fn form_encode(bytes: Seq<u8>) -> Seq<char>
    decreases bytes.len(),
{
    if bytes.len() == 0 {
        Seq::empty()
    } else {
        form_encode(bytes.drop_last()) + encode_byte(bytes.last())
    }
}

/// The form encoding of the UTF-8 bytes of a text.
pub open spec fn encode_text(s: Seq<char>) -> Seq<char> {
    form_encode(encode_utf8(s))
}

/// One `key=value` pair; keys are plain identifiers and are written as they are.
pub open spec fn pair_text(p: (Seq<char>, Seq<char>)) -> Seq<char> {
    p.0 + seq!['='] + encode_text(p.1)
}

/// The pairs joined by `&`, in order.
pub open spec fn query_text(pairs: Seq<(Seq<char>, Seq<char>)>) -> Seq<char>
    decreases pairs.len(),
{
    if pairs.len() == 0 {
        Seq::empty()
    } else if pairs.len() == 1 {
        pair_text(pairs[0])
    } else {
        query_text(pairs.drop_last()) + seq!['&'] + pair_text(pairs.last())
    }
}

/// The views of a list of owned pairs.
pub open spec fn pairs_view(v: Seq<(String, String)>) -> Seq<(Seq<char>, Seq<char>)> {
    v.map_values(|p: (String, String)| (p.0@, p.1@))
}

/// The full URI: base, resource path, `?`, query.
pub open spec fn uri_text(
    base: Seq<char>,
    path: Seq<char>,
    pairs: Seq<(Seq<char>, Seq<char>)>,
) -> Seq<char> {
    base + path + seq!['?'] + query_text(pairs)
}

/// Relies on String::push: appends one character.
#[verifier::external_body]
pub(crate) fn push_char(s: &mut String, c: char)
    ensures
        final(s)@ == old(s)@.push(c),
{
    s.push(c)
}

fn hex_char(d: u8) -> (c: char)
    requires
        d < 16,
    ensures
        c == hex_digit(d),
{
    if d < 10 {
        (d + 48) as char
    } else {
        (d + 55) as char
    }
}

/// Appends the form encoding of `value` to `out`.
pub fn push_encoded(out: &mut String, value: &str)
    ensures
        final(out)@ == old(out)@ + encode_text(value@),
{
    let bytes = value.as_bytes();
    let ghost start = out@;
    let mut i: usize = 0;
    while i < bytes.len()
        invariant
            i <= bytes@.len(),
            bytes@ == encode_utf8(value@),
            out@ == start + form_encode(bytes@.subrange(0, i as int)),
        decreases bytes@.len() - i,
    {
        let b = bytes[i];
        assert(bytes@.subrange(0, i + 1).drop_last() == bytes@.subrange(0, i as int));
        if (48 <= b && b <= 57) || (65 <= b && b <= 90) || (97 <= b && b <= 122) || b == 42
            || b == 45 || b == 46 || b == 95 {
            push_char(out, b as char);
        } else if b == 32 {
            push_char(out, '+');
        } else {
            push_char(out, '%');
            push_char(out, hex_char(b / 16));
            push_char(out, hex_char(b % 16));
        }
        i = i + 1;
    }
    assert(bytes@.subrange(0, bytes@.len() as int) == bytes@);
}

/// The form encoding of `value`.
pub fn encode_value(value: &str) -> (r: String)
    ensures
        r@ == encode_text(value@),
{
    let mut out = String::new();
    push_encoded(&mut out, value);
    out
}

/// Appends `key=value` (value encoded) to `out`.
fn push_pair(out: &mut String, key: &String, value: &String)
    ensures
        final(out)@ == old(out)@ + pair_text((key@, value@)),
{
    out.append(key.as_str());
    push_char(out, '=');
    push_encoded(out, value.as_str());
}

/// Builds `base` + `path` + `?` + the encoded query of `pairs`.
pub fn build_uri(base: &str, path: &str, pairs: &Vec<(String, String)>) -> (r: String)
    ensures
        r@ == uri_text(base@, path@, pairs_view(pairs@)),
{
    let mut out = String::from_str(base);
    out.append(path);
    push_char(&mut out, '?');
    let ghost start = out@;
    let mut i: usize = 0;
    while i < pairs.len()
        invariant
            i <= pairs@.len(),
            out@ == start + query_text(pairs_view(pairs@.subrange(0, i as int))),
        decreases pairs@.len() - i,
    {
        let ghost before = out@;
        let ghost sub = pairs_view(pairs@.subrange(0, i + 1));
        assert(sub.drop_last() == pairs_view(pairs@.subrange(0, i as int)));
        assert(sub.last() == (pairs@[i as int].0@, pairs@[i as int].1@));
        if i > 0 {
            push_char(&mut out, '&');
        }
        push_pair(&mut out, &pairs[i].0, &pairs[i].1);
        assert(out@ == start + query_text(sub)) by {
            if i == 0 {
                assert(sub.len() == 1);
                assert(pairs_view(pairs@.subrange(0, 0)).len() == 0);
            }
        }
        i = i + 1;
    }
    assert(pairs@.subrange(0, pairs@.len() as int) == pairs@);
    out
}

} // verus!
