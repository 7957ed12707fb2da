//! The JSON body of Check AutoMod Status: the messages to check, wrapped in
//! an object under `data`.
use vstd::prelude::*;
use vstd::string::StringExecFns;
use crate::endpoints::CheckAutoModStatusRequest;

verus! {

/// One message to check.
#[derive(Debug, Clone, Default)]
pub struct CheckAutoModStatusBody {
    /// Developer-generated identifier for mapping messages to results.
    pub msg_id: String,
    /// Message text.
    pub msg_text: String,
    /// User ID of the sender.
    pub user_id: String,
}

impl CheckAutoModStatusBody {
    /// A message with its identifier, text and sender.
    pub fn new(msg_id: String, msg_text: String, user_id: String) -> (r: Self)
        ensures
            r.msg_id == msg_id,
            r.msg_text == msg_text,
            r.user_id == user_id,
    {
        CheckAutoModStatusBody { msg_id, msg_text, user_id }
    }
}

/// The JSON string literal that serde_json writes for a text, or `None`
/// where it fails.
pub uninterp spec fn json_string(s: Seq<char>) -> Option<Seq<char>>;

/// Relies on serde_json::to_string on a `str`: the quoted and escaped JSON
/// string for the text; the outcome depends on the text alone.
#[verifier::external_body]
fn to_json_string(s: &str) -> (r: Result<String, serde_json::Error>)
    ensures
        match r {
            Ok(t) => json_string(s@) == Some(t@),
            Err(_) => json_string(s@) is None,
        },
{
    serde_json::to_string(s)
}

#[verifier::external_type_specification]
#[verifier::external_body]
pub struct ExJsonError(serde_json::Error);

/// The object for one message, from its three fields already written as
/// JSON strings.
pub open spec fn item_frame(msg_id: Seq<char>, msg_text: Seq<char>, user_id: Seq<char>) -> Seq<char> {
    "{\"msg_id\":"@ + msg_id + ",\"msg_text\":"@ + msg_text + ",\"user_id\":"@ + user_id + "}"@
}

/// The items joined by `,`.
pub open spec fn join_items(items: Seq<Seq<char>>) -> Seq<char>
    decreases items.len(),
{
    if items.len() == 0 {
        Seq::empty()
    } else if items.len() == 1 {
        items[0]
    } else {
        join_items(items.drop_last()) + ","@ + items.last()
    }
}

/// The whole body: `{"data":[` the items `]}`.
pub open spec fn body_frame(items: Seq<Seq<char>>) -> Seq<char> {
    "{\"data\":["@ + join_items(items) + "]}"@
}

/// All three fields of a message can be written as JSON strings.
pub open spec fn item_encodes(b: CheckAutoModStatusBody) -> bool {
    &&& json_string(b.msg_id@) is Some
    &&& json_string(b.msg_text@) is Some
    &&& json_string(b.user_id@) is Some
}

/// The object for one message whose fields can be written.
pub open spec fn item_text(b: CheckAutoModStatusBody) -> Seq<char> {
    item_frame(
        json_string(b.msg_id@)->Some_0,
        json_string(b.msg_text@)->Some_0,
        json_string(b.user_id@)->Some_0,
    )
}

/// The views of a list of texts.
pub open spec fn texts_view(v: Seq<String>) -> Seq<Seq<char>> {
    v.map_values(|s: String| s@)
}

/// A message whose fields could not be written as JSON.
#[derive(Debug)]
pub struct BodyError {
    /// Position of the message in the list.
    pub index: usize,
}

/// The object for one message, from its fields already written as JSON strings.
pub fn frame_item(msg_id: &str, msg_text: &str, user_id: &str) -> (r: String)
    ensures
        r@ == item_frame(msg_id@, msg_text@, user_id@),
{
    let mut out = String::from_str("{\"msg_id\":");
    out.append(msg_id);
    out.append(",\"msg_text\":");
    out.append(msg_text);
    out.append(",\"user_id\":");
    out.append(user_id);
    out.append("}");
    out
}

/// The whole body from the objects of the messages.
pub fn frame_body(items: &Vec<String>) -> (r: String)
    ensures
        r@ == body_frame(texts_view(items@)),
{
    let mut out = String::new();
    let mut i: usize = 0;
    while i < items.len()
        invariant
            i <= items@.len(),
            out@ == join_items(texts_view(items@.subrange(0, i as int))),
        decreases items@.len() - i,
    {
        let ghost sub = texts_view(items@.subrange(0, i + 1));
        assert(sub.drop_last() =~= texts_view(items@.subrange(0, i as int)));
        if i > 0 {
            out.append(",");
        }
        out.append(items[i].as_str());
        proof {
            if i == 0 {
                assert(texts_view(items@.subrange(0, 0)) =~= Seq::empty());
            }
        }
        i = i + 1;
    }
    assert(items@.subrange(0, items@.len() as int) =~= items@);
    let mut r = String::from_str("{\"data\":[");
    r.append(out.as_str());
    r.append("]}");
    r
}

impl CheckAutoModStatusRequest {
    /// The JSON body for a list of messages: `{"data":[...]}` with one object
    /// per message, in order. Fails at the first message whose fields cannot
    /// be written.
    pub fn body(&self, body: &Vec<CheckAutoModStatusBody>) -> (r: Result<String, BodyError>)
        ensures
            r is Ok <==> forall|i: int| 0 <= i < body@.len() ==> item_encodes(#[trigger] body@[i]),
            r matches Ok(t) ==> t@ == body_frame(body@.map_values(|b: CheckAutoModStatusBody| item_text(b))),
            r matches Err(e) ==> e.index < body@.len() && !item_encodes(body@[e.index as int])
                && forall|j: int| 0 <= j < e.index ==> item_encodes(#[trigger] body@[j]),
    {
        let mut items: Vec<String> = Vec::new();
        let mut i: usize = 0;
        while i < body.len()
            invariant
                i <= body@.len(),
                items@.len() == i,
                forall|j: int| 0 <= j < i ==> item_encodes(#[trigger] body@[j]),
                forall|j: int| 0 <= j < i ==> (#[trigger] items@[j])@ == item_text(body@[j]),
            decreases body@.len() - i,
        {
            let b = &body[i];
            let id = match to_json_string(b.msg_id.as_str()) {
                Ok(t) => t,
                Err(_) => return Err(BodyError { index: i }),
            };
            let text = match to_json_string(b.msg_text.as_str()) {
                Ok(t) => t,
                Err(_) => return Err(BodyError { index: i }),
            };
            let user = match to_json_string(b.user_id.as_str()) {
                Ok(t) => t,
                Err(_) => return Err(BodyError { index: i }),
            };
            items.push(frame_item(id.as_str(), text.as_str(), user.as_str()));
            i = i + 1;
        }
        let r = frame_body(&items);
        assert(texts_view(items@) =~= body@.map_values(|b: CheckAutoModStatusBody| item_text(b)));
        Ok(r)
    }
}

} // verus!
