//! Decoding of response envelopes into typed records, under a strict or a
//! lenient policy for unknown record fields.
use vstd::prelude::*;
use vstd::string::StringExecFns;
use crate::json::{Json, field, lookup, parsed_json, parse_json};
use crate::request::Response;

verus! {

/// What went wrong with one field.
#[derive(Clone, Copy, PartialEq, Eq, Structural, Debug)]
pub enum FaultKind {
    /// A mandatory field is absent.
    Missing,
    /// A field holds a value of another type.
    WrongType,
    /// A field that the schema does not know (strict decoding only).
    Unknown,
}

/// A field that could not be decoded, by name.
#[derive(Debug)]
pub struct FieldError {
    pub kind: FaultKind,
    pub field: String,
}

impl View for FieldError {
    type V = (FaultKind, Seq<char>);

    open spec fn view(&self) -> (FaultKind, Seq<char>) {
        (self.kind, self.field@)
    }
}

/// A decoding failure, as contracts speak of it.
pub enum Fault {
    Syntax,
    NotObject,
    Envelope(FaultKind, Seq<char>),
    RecordNotObject(int),
    Record(int, FaultKind, Seq<char>),
}

/// Why a payload did not decode.
#[derive(Debug)]
pub enum DecodeError {
    /// The bytes are not a JSON document.
    Syntax,
    /// The document is not an object.
    NotObject,
    /// A member of the envelope (`data`, `pagination`, `cursor`) is missing
    /// or of the wrong type.
    Envelope { kind: FaultKind, field: String },
    /// An element of `data` is not an object.
    RecordNotObject { index: usize },
    /// A field of the record at `index` is missing, mistyped or unknown.
    Record { index: usize, kind: FaultKind, field: String },
}

impl View for DecodeError {
    type V = Fault;

    open spec fn view(&self) -> Fault {
        match self {
            DecodeError::Syntax => Fault::Syntax,
            DecodeError::NotObject => Fault::NotObject,
            DecodeError::Envelope { kind, field } => Fault::Envelope(*kind, field@),
            DecodeError::RecordNotObject { index } => Fault::RecordNotObject(*index as int),
            DecodeError::Record { index, kind, field } => Fault::Record(
                *index as int,
                *kind,
                field@,
            ),
        }
    }
}

/// Whether unknown record fields fail decoding or are ignored.
#[derive(Clone, Copy, PartialEq, Eq, Structural, Debug)]
pub enum DecodeMode {
    Strict,
    Lenient,
}

/// The first of two outcomes that is a fault.
pub open spec fn either(
    a: Option<(FaultKind, Seq<char>)>,
    b: Option<(FaultKind, Seq<char>)>,
) -> Option<(FaultKind, Seq<char>)> {
    if a is Some {
        a
    } else {
        b
    }
}

/// The fault of a mandatory text field.
pub open spec fn str_fault(obj: Seq<(String, Json)>, key: Seq<char>) -> Option<(FaultKind, Seq<char>)> {
    match field(obj, key) {
        Some(Json::Str(_)) => None,
        Some(_) => Some((FaultKind::WrongType, key)),
        None => Some((FaultKind::Missing, key)),
    }
}

/// `s` is the text of the field.
pub open spec fn str_is(obj: Seq<(String, Json)>, key: Seq<char>, s: String) -> bool {
    field(obj, key) matches Some(Json::Str(t)) && t@ == s@
}

/// The fault of an optional text field: absent and `null` are accepted.
pub open spec fn opt_str_fault(obj: Seq<(String, Json)>, key: Seq<char>) -> Option<(FaultKind, Seq<char>)> {
    match field(obj, key) {
        Some(Json::Str(_)) => None,
        Some(Json::Null) => None,
        Some(_) => Some((FaultKind::WrongType, key)),
        None => None,
    }
}

/// `o` is the text of the field, or none where the field is absent or `null`.
pub open spec fn opt_str_is(obj: Seq<(String, Json)>, key: Seq<char>, o: Option<String>) -> bool {
    match field(obj, key) {
        Some(Json::Str(t)) => o matches Some(s) && s@ == t@,
        _ => o is None,
    }
}

/// The fault of a mandatory boolean field.
pub open spec fn bool_fault(obj: Seq<(String, Json)>, key: Seq<char>) -> Option<(FaultKind, Seq<char>)> {
    match field(obj, key) {
        Some(Json::Bool(_)) => None,
        Some(_) => Some((FaultKind::WrongType, key)),
        None => Some((FaultKind::Missing, key)),
    }
}

/// `b` is the value of the field.
pub open spec fn bool_is(obj: Seq<(String, Json)>, key: Seq<char>, b: bool) -> bool {
    field(obj, key) == Some(Json::Bool(b))
}

/// Every member of an object holds text.
pub open spec fn all_text(m: Seq<(String, Json)>) -> bool {
    forall|i: int| 0 <= i < m.len() ==> (#[trigger] m[i]).1 is Str
}

/// The fault of a mandatory field that maps names to texts.
pub open spec fn text_map_fault(obj: Seq<(String, Json)>, key: Seq<char>) -> Option<(FaultKind, Seq<char>)> {
    match field(obj, key) {
        Some(Json::Object(m)) => if all_text(m@) {
            None
        } else {
            Some((FaultKind::WrongType, key))
        },
        Some(_) => Some((FaultKind::WrongType, key)),
        None => Some((FaultKind::Missing, key)),
    }
}

/// `p` is the member `m`, whose value is text.
pub open spec fn member_is(m: (String, Json), p: (String, String)) -> bool {
    &&& p.0@ == m.0@
    &&& m.1 matches Json::Str(t) && t@ == p.1@
}

/// `v` holds the members of the field, in order, each with its text.
pub open spec fn text_map_is(obj: Seq<(String, Json)>, key: Seq<char>, v: Seq<(String, String)>) -> bool {
    field(obj, key) matches Some(Json::Object(m)) && v.len() == m@.len() && forall|i: int|
        0 <= i < v.len() ==> member_is(m@[i], #[trigger] v[i])
}

fn field_error(kind: FaultKind, key: &str) -> (e: FieldError)
    ensures
        e@ == (kind, key@),
{
    FieldError { kind, field: String::from_str(key) }
}

/// Reads a mandatory text field.
pub fn get_str(obj: &Vec<(String, Json)>, key: &str) -> (r: Result<String, FieldError>)
    ensures
        match str_fault(obj@, key@) {
            None => r matches Ok(s) && str_is(obj@, key@, s),
            Some(f) => r matches Err(e) && e@ == f,
        },
{
    match lookup(obj, key) {
        Some(Json::Str(s)) => Ok(s.clone()),
        Some(_) => Err(field_error(FaultKind::WrongType, key)),
        None => Err(field_error(FaultKind::Missing, key)),
    }
}

/// Reads an optional text field.
pub fn get_opt_str(obj: &Vec<(String, Json)>, key: &str) -> (r: Result<Option<String>, FieldError>)
    ensures
        match opt_str_fault(obj@, key@) {
            None => r matches Ok(o) && opt_str_is(obj@, key@, o),
            Some(f) => r matches Err(e) && e@ == f,
        },
{
    match lookup(obj, key) {
        Some(Json::Str(s)) => Ok(Some(s.clone())),
        Some(Json::Null) => Ok(None),
        Some(_) => Err(field_error(FaultKind::WrongType, key)),
        None => Ok(None),
    }
}

/// Reads a mandatory boolean field.
pub fn get_bool(obj: &Vec<(String, Json)>, key: &str) -> (r: Result<bool, FieldError>)
    ensures
        match bool_fault(obj@, key@) {
            None => r matches Ok(b) && bool_is(obj@, key@, b),
            Some(f) => r matches Err(e) && e@ == f,
        },
{
    match lookup(obj, key) {
        Some(Json::Bool(b)) => Ok(*b),
        Some(_) => Err(field_error(FaultKind::WrongType, key)),
        None => Err(field_error(FaultKind::Missing, key)),
    }
}

/// Reads a mandatory field that maps names to texts.
pub fn get_text_map(obj: &Vec<(String, Json)>, key: &str) -> (r: Result<Vec<(String, String)>, FieldError>)
    ensures
        match text_map_fault(obj@, key@) {
            None => r matches Ok(v) && text_map_is(obj@, key@, v@),
            Some(f) => r matches Err(e) && e@ == f,
        },
{
    match lookup(obj, key) {
        Some(Json::Object(m)) => {
            let mut out: Vec<(String, String)> = Vec::new();
            let mut i: usize = 0;
            while i < m.len()
                invariant
                    i <= m@.len(),
                    field(obj@, key@) == Some(Json::Object(*m)),
                    out@.len() == i,
                    all_text(m@.subrange(0, i as int)),
                    forall|j: int|
                        0 <= j < i ==> member_is(m@[j], #[trigger] out@[j]),
                decreases m@.len() - i,
            {
                match &m[i].1 {
                    Json::Str(t) => {
                        out.push((m[i].0.clone(), t.clone()));
                    },
                    _ => {
                        assert(!all_text(m@));
                        return Err(field_error(FaultKind::WrongType, key));
                    },
                }
                assert(all_text(m@.subrange(0, i + 1))) by {
                    assert forall|j: int| 0 <= j < i + 1 implies (#[trigger] m@.subrange(0, i + 1)[j]).1 is Str by {
                        if j < i {
                            assert(m@.subrange(0, i as int)[j] == m@[j]);
                        }
                    }
                }
                i = i + 1;
            }
            assert(m@.subrange(0, m@.len() as int) == m@);
            Ok(out)
        },
        Some(_) => Err(field_error(FaultKind::WrongType, key)),
        None => Err(field_error(FaultKind::Missing, key)),
    }
}

/// The views of a list of names.
pub open spec fn names_view(v: Seq<String>) -> Seq<Seq<char>> {
    v.map_values(|s: String| s@)
}

/// A record type of a response: its schema, when an object decodes to it,
/// and the decoder.
pub trait Record: Sized {
    /// The field names of the schema.
    spec fn names() -> Seq<Seq<char>>;

    /// The first fault of an object under the schema, ignoring unknown
    /// members; none where it decodes.
    spec fn check(obj: Seq<(String, Json)>) -> Option<(FaultKind, Seq<char>)>;

    /// `r` is the record that the object decodes to.
    spec fn decodes(obj: Seq<(String, Json)>, r: Self) -> bool;

    /// A member that the schema does not name changes neither the fault
    /// nor the record.
    proof fn lemma_other_member(obj: Seq<(String, Json)>, e: (String, Json))
        requires
            !Self::names().contains(e.0@),
        ensures
            Self::check(obj.push(e)) == Self::check(obj),
            forall|r: Self| Self::decodes(obj.push(e), r) == Self::decodes(obj, r),
    ;

    /// The field names of the schema.
    fn field_names() -> (r: Vec<String>)
        ensures
            names_view(r@) == Self::names(),
    ;

    /// Decodes an object, ignoring unknown members.
    fn decode_object(obj: &Vec<(String, Json)>) -> (r: Result<Self, FieldError>)
        ensures
            match Self::check(obj@) {
                None => r matches Ok(x) && Self::decodes(obj@, x),
                Some(f) => r matches Err(e) && e@ == f,
            },
    ;
}

/// `i` is the first member whose name is not among `names`.
pub open spec fn unknown_at(obj: Seq<(String, Json)>, names: Seq<Seq<char>>, i: int) -> bool {
    &&& 0 <= i < obj.len()
    &&& !names.contains(obj[i].0@)
    &&& forall|j: int| 0 <= j < i ==> names.contains(#[trigger] obj[j].0@)
}

/// The first fault of an object as a record of type `R`: under strict
/// decoding, the first unknown member; then the schema's own.
pub open spec fn record_fault<R: Record>(obj: Seq<(String, Json)>, strict: bool) -> Option<(FaultKind, Seq<char>)> {
    if strict && exists|i: int| unknown_at(obj, R::names(), i) {
        Some((FaultKind::Unknown, obj[choose|i: int| unknown_at(obj, R::names(), i)].0@))
    } else {
        R::check(obj)
    }
}

proof fn lemma_unknown_unique(obj: Seq<(String, Json)>, names: Seq<Seq<char>>, i: int, k: int)
    requires
        unknown_at(obj, names, i),
        unknown_at(obj, names, k),
    ensures
        i == k,
{
    if i < k {
        assert(names.contains(obj[i].0@));
    } else if k < i {
        assert(names.contains(obj[k].0@));
    }
}

fn contains_name(names: &Vec<String>, k: &String) -> (r: bool)
    ensures
        r == names_view(names@).contains(k@),
{
    let mut i: usize = 0;
    while i < names.len()
        invariant
            i <= names@.len(),
            forall|j: int| 0 <= j < i ==> names@[j]@ != k@,
        decreases names@.len() - i,
    {
        if names[i] == *k {
            assert(names_view(names@)[i as int] == k@);
            return true;
        }
        i = i + 1;
    }
    proof {
        if names_view(names@).contains(k@) {
            let j = choose|j: int| 0 <= j < names_view(names@).len() && names_view(names@)[j] == k@;
            assert(names@[j]@ != k@);
        }
    }
    false
}

fn first_unknown(obj: &Vec<(String, Json)>, names: &Vec<String>) -> (r: Option<usize>)
    ensures
        r matches Some(i) ==> unknown_at(obj@, names_view(names@), i as int),
        r is None ==> !exists|i: int| unknown_at(obj@, names_view(names@), i),
{
    let ghost nv = names_view(names@);
    let mut i: usize = 0;
    while i < obj.len()
        invariant
            i <= obj@.len(),
            nv == names_view(names@),
            forall|j: int| 0 <= j < i ==> nv.contains(#[trigger] obj@[j].0@),
        decreases obj@.len() - i,
    {
        if !contains_name(names, &obj[i].0) {
            return Some(i);
        }
        i = i + 1;
    }
    proof {
        if exists|k: int| unknown_at(obj@, nv, k) {
            let k = choose|k: int| unknown_at(obj@, nv, k);
            assert(nv.contains(obj@[k].0@));
        }
    }
    None
}

/// Decodes one object as a record of type `R`.
pub fn decode_record<R: Record>(obj: &Vec<(String, Json)>, mode: DecodeMode) -> (r: Result<R, FieldError>)
    ensures
        match record_fault::<R>(obj@, mode == DecodeMode::Strict) {
            None => r matches Ok(x) && R::decodes(obj@, x),
            Some(f) => r matches Err(e) && e@ == f,
        },
{
    if mode == DecodeMode::Strict {
        let names = R::field_names();
        match first_unknown(obj, &names) {
            Some(i) => {
                proof {
                    let k = choose|k: int| unknown_at(obj@, R::names(), k);
                    lemma_unknown_unique(obj@, R::names(), i as int, k);
                }
                return Err(FieldError { kind: FaultKind::Unknown, field: obj[i].0.clone() });
            },
            None => {},
        }
    }
    R::decode_object(obj)
}

/// The fault of the element at `index` of `data`, if any.
pub open spec fn element_fault<R: Record>(j: Json, strict: bool, index: int) -> Option<Fault> {
    match j {
        Json::Object(o) => match record_fault::<R>(o@, strict) {
            Some((k, f)) => Some(Fault::Record(index, k, f)),
            None => None,
        },
        _ => Some(Fault::RecordNotObject(index)),
    }
}

/// `r` is the record that the element decodes to.
pub open spec fn element_decodes<R: Record>(j: Json, r: R) -> bool {
    j matches Json::Object(o) && R::decodes(o@, r)
}

/// The first fault among the first `n` elements.
pub open spec fn elements_fault<R: Record>(a: Seq<Json>, strict: bool, n: int) -> Option<Fault>
    decreases n,
{
    if n <= 0 {
        None
    } else {
        match elements_fault::<R>(a, strict, n - 1) {
            Some(f) => Some(f),
            None => element_fault::<R>(a[n - 1], strict, n - 1),
        }
    }
}

/// The fault of the `pagination` member and its cursor, if any.
pub open spec fn pagination_fault(top: Seq<(String, Json)>) -> Option<Fault> {
    match field(top, "pagination"@) {
        Some(Json::Object(p)) => match field(p@, "cursor"@) {
            Some(Json::Str(_)) => None,
            Some(Json::Null) => None,
            None => None,
            Some(_) => Some(Fault::Envelope(FaultKind::WrongType, "cursor"@)),
        },
        Some(Json::Null) => None,
        None => None,
        Some(_) => Some(Fault::Envelope(FaultKind::WrongType, "pagination"@)),
    }
}

/// The cursor that the payload carries.
pub open spec fn cursor_of(top: Seq<(String, Json)>) -> Option<Seq<char>> {
    match field(top, "pagination"@) {
        Some(Json::Object(p)) => match field(p@, "cursor"@) {
            Some(Json::Str(c)) => Some(c@),
            _ => None,
        },
        _ => None,
    }
}

/// The first fault of a payload as an envelope of records of type `R`.
pub open spec fn envelope_fault<R: Record>(j: Json, strict: bool) -> Option<Fault> {
    match j {
        Json::Object(top) => match field(top@, "data"@) {
            Some(Json::Array(a)) => match elements_fault::<R>(a@, strict, a@.len() as int) {
                Some(f) => Some(f),
                None => pagination_fault(top@),
            },
            Some(_) => Some(Fault::Envelope(FaultKind::WrongType, "data"@)),
            None => Some(Fault::Envelope(FaultKind::Missing, "data"@)),
        },
        _ => Some(Fault::NotObject),
    }
}

/// The view of an optional text.
pub open spec fn opt_view(o: Option<String>) -> Option<Seq<char>> {
    match o {
        Some(s) => Some(s@),
        None => None,
    }
}

/// `r` is the decoding of the payload `j`: the fault where there is one,
/// else one record for each element of `data`, in order, and the cursor.
pub open spec fn decoded_as<R: Record>(j: Json, strict: bool, r: Result<Response<R>, DecodeError>) -> bool {
    match envelope_fault::<R>(j, strict) {
        Some(f) => r matches Err(e) && e@ == f,
        None => r matches Ok(resp) && j matches Json::Object(top) && field(top@, "data"@) matches Some(
            Json::Array(a),
        ) && resp.data@.len() == a@.len() && (forall|i: int|
            0 <= i < a@.len() ==> element_decodes::<R>(a@[i], #[trigger] resp.data@[i]))
            && opt_view(resp.cursor) == cursor_of(top@),
    }
}

fn envelope_error(kind: FaultKind, key: &str) -> (e: DecodeError)
    ensures
        e@ == Fault::Envelope(kind, key@),
{
    DecodeError::Envelope { kind, field: String::from_str(key) }
}

fn decode_cursor(top: &Vec<(String, Json)>) -> (r: Result<Option<String>, DecodeError>)
    ensures
        match pagination_fault(top@) {
            Some(f) => r matches Err(e) && e@ == f,
            None => r matches Ok(c) && opt_view(c) == cursor_of(top@),
        },
{
    match lookup(top, "pagination") {
        Some(Json::Object(p)) => match lookup(p, "cursor") {
            Some(Json::Str(c)) => Ok(Some(c.clone())),
            Some(Json::Null) => Ok(None),
            None => Ok(None),
            Some(_) => Err(envelope_error(FaultKind::WrongType, "cursor")),
        },
        Some(Json::Null) => Ok(None),
        None => Ok(None),
        Some(_) => Err(envelope_error(FaultKind::WrongType, "pagination")),
    }
}

fn decode_elements<R: Record>(a: &Vec<Json>, mode: DecodeMode) -> (r: Result<Vec<R>, DecodeError>)
    ensures
        match elements_fault::<R>(a@, mode == DecodeMode::Strict, a@.len() as int) {
            Some(f) => r matches Err(e) && e@ == f,
            None => r matches Ok(v) && v@.len() == a@.len() && forall|i: int|
                0 <= i < a@.len() ==> element_decodes::<R>(a@[i], #[trigger] v@[i]),
        },
{
    let ghost strict = mode == DecodeMode::Strict;
    let mut out: Vec<R> = Vec::new();
    let mut i: usize = 0;
    while i < a.len()
        invariant
            i <= a@.len(),
            strict == (mode == DecodeMode::Strict),
            elements_fault::<R>(a@, strict, i as int) is None,
            out@.len() == i,
            forall|j: int| 0 <= j < i ==> element_decodes::<R>(a@[j], #[trigger] out@[j]),
        decreases a@.len() - i,
    {
        match &a[i] {
            Json::Object(o) => match decode_record::<R>(o, mode) {
                Ok(x) => {
                    out.push(x);
                },
                Err(e) => {
                    proof {
                        lemma_fault_stays::<R>(a@, strict, i as int + 1, a@.len() as int);
                    }
                    return Err(DecodeError::Record { index: i, kind: e.kind, field: e.field });
                },
            },
            _ => {
                proof {
                    lemma_fault_stays::<R>(a@, strict, i as int + 1, a@.len() as int);
                }
                return Err(DecodeError::RecordNotObject { index: i });
            },
        }
        i = i + 1;
    }
    Ok(out)
}

proof fn lemma_fault_stays<R: Record>(a: Seq<Json>, strict: bool, n: int, m: int)
    requires
        0 < n <= m,
        elements_fault::<R>(a, strict, n) is Some,
    ensures
        elements_fault::<R>(a, strict, m) == elements_fault::<R>(a, strict, n),
    decreases m - n,
{
    if n < m {
        lemma_fault_stays::<R>(a, strict, n, m - 1);
    }
}

/// Decodes a parsed payload into an envelope of records of type `R`.
pub fn decode_response<R: Record>(j: &Json, mode: DecodeMode) -> (r: Result<Response<R>, DecodeError>)
    ensures
        decoded_as::<R>(*j, mode == DecodeMode::Strict, r),
{
    match j {
        Json::Object(top) => match lookup(top, "data") {
            Some(Json::Array(a)) => {
                let data = match decode_elements::<R>(a, mode) {
                    Ok(v) => v,
                    Err(e) => return Err(e),
                };
                match decode_cursor(top) {
                    Ok(cursor) => Ok(Response { data, cursor }),
                    Err(e) => Err(e),
                }
            },
            Some(_) => Err(envelope_error(FaultKind::WrongType, "data")),
            None => Err(envelope_error(FaultKind::Missing, "data")),
        },
        _ => Err(DecodeError::NotObject),
    }
}

/// `r` is the decoding of the bytes: a syntax error where serde_json
/// refuses them, else the decoding of what it parsed.
pub open spec fn bytes_decoded_as<R: Record>(bytes: Seq<u8>, strict: bool, r: Result<Response<R>, DecodeError>) -> bool {
    match parsed_json(bytes) {
        None => r matches Err(e) && e@ == Fault::Syntax,
        Some(j) => decoded_as::<R>(j, strict, r),
    }
}

/// Parses a response body and decodes it into an envelope of records of type `R`.
pub fn decode_bytes<R: Record>(bytes: &[u8], mode: DecodeMode) -> (r: Result<Response<R>, DecodeError>)
    ensures
        bytes_decoded_as::<R>(bytes@, mode == DecodeMode::Strict, r),
{
    match parse_json(bytes) {
        Some(j) => decode_response::<R>(&j, mode),
        None => Err(DecodeError::Syntax),
    }
}

proof fn lemma_all_known(obj: Seq<(String, Json)>, names: Seq<Seq<char>>, n: int)
    requires
        0 <= n <= obj.len(),
        !exists|i: int| unknown_at(obj, names, i),
    ensures
        forall|j: int| 0 <= j < n ==> names.contains(#[trigger] obj[j].0@),
    decreases n,
{
    if n > 0 {
        lemma_all_known(obj, names, n - 1);
        if !names.contains(obj[n - 1].0@) {
            assert(unknown_at(obj, names, n - 1));
        }
    }
}

/// Adding to an object that decodes one member that the schema does not
/// name makes strict decoding fail on that member, while lenient decoding
/// of the larger object succeeds and yields exactly the records that strict
/// decoding of the smaller object yields.
pub proof fn lemma_unknown_member<R: Record>(obj: Seq<(String, Json)>, e: (String, Json))
    requires
        record_fault::<R>(obj, true) is None,
        !R::names().contains(e.0@),
    ensures
        record_fault::<R>(obj.push(e), true) == Some((FaultKind::Unknown, e.0@)),
        record_fault::<R>(obj.push(e), false) is None,
        forall|r: R| R::decodes(obj.push(e), r) == R::decodes(obj, r),
{
    let o2 = obj.push(e);
    let names = R::names();
    R::lemma_other_member(obj, e);
    lemma_all_known(obj, names, obj.len() as int);
    assert(unknown_at(o2, names, obj.len() as int)) by {
        assert forall|j: int| 0 <= j < obj.len() implies names.contains(#[trigger] o2[j].0@) by {
            assert(o2[j] == obj[j]);
            assert(names.contains(obj[j].0@));
        }
    }
    let k = choose|k: int| unknown_at(o2, names, k);
    lemma_unknown_unique(o2, names, obj.len() as int, k);
}

} // verus!
