//! The answer to `GET /`: a fixed JSON document, served with status 200.

use vstd::prelude::*;

verus! {

/// What the server sends back: a status code, a content type and a body.
#[derive(Debug, PartialEq, Eq)]
pub struct Response {
    pub status: u16,
    pub content_type: String,
    pub body: String,
}

/// A response as a mathematical value.
pub struct ResponseView {
    pub status: u16,
    pub content_type: Seq<char>,
    pub body: Seq<char>,
}

impl View for Response {
    type V = ResponseView;

    open spec fn view(&self) -> ResponseView {
        ResponseView { status: self.status, content_type: self.content_type@, body: self.body@ }
    }
}

impl Clone for Response {
    fn clone(&self) -> (copy: Self)
        ensures
            copy@ == self@,
    {
        Response {
            status: self.status,
            content_type: self.content_type.clone(),
            body: self.body.clone(),
        }
    }
}

/// Whether JSON writes `c` inside a string as it is: any character but the
/// quote, the backslash and the control characters below U+0020.
pub open spec fn is_verbatim(c: char) -> bool {
    c != '"' && c != '\\' && c as u32 >= 0x20
}

/// Whether JSON writes every character of `s` as it is.
pub open spec fn all_verbatim(s: Seq<char>) -> bool {
    forall|i: int| 0 <= i < s.len() ==> is_verbatim(#[trigger] s[i])
}

/// The compact JSON text of an object with the single member `key: value`,
/// for a key and a value that need no escaping.
pub open spec fn member_text(key: Seq<char>, value: Seq<char>) -> Seq<char> {
    seq!['{', '"'] + key + seq!['"', ':', '"'] + value + seq!['"', '}']
}

/// The response to `GET /`.
pub open spec fn hello_response() -> ResponseView {
    ResponseView {
        status: 200,
        content_type: "application/json"@,
        body: "{\"message\":\"Hello World\"}"@,
    }
}

/// The greeting is the compact JSON text of an object with one member, which
/// maps `message` to `Hello World`; neither string needs escaping.
pub proof fn lemma_greeting_is_one_member()
    ensures
        all_verbatim("message"@),
        all_verbatim("Hello World"@),
        hello_response().body == member_text("message"@, "Hello World"@),
{
    reveal_strlit("message");
    reveal_strlit("Hello World");
    reveal_strlit("{\"message\":\"Hello World\"}");
    assert(member_text("message"@, "Hello World"@) =~= "{\"message\":\"Hello World\"}"@);
}

/// `serde_json::Error`, the error of a failed serialisation. It is handed
/// on as it is; nothing is known of what it holds.
#[verifier::external_type_specification]
#[verifier::external_body]
pub struct ExJsonError(serde_json::Error);

/// `serde_json::to_string`, applied to the `serde_json::Value` object whose
/// one member maps `key` to the string `value`; the object is put together
/// with `serde_json::Map::insert` and `serde_json::Value::from`.
///
/// Trusted, not proved: for a key and a value without characters that JSON
/// escapes, the call succeeds and gives the compact text of that object: an
/// opening brace, the quoted key, a colon, the quoted value and a closing
/// brace, with no space between them. Nothing is claimed for strings that
/// need escaping.
#[verifier::external_body]
fn member_to_string(key: &str, value: &str) -> (r: Result<String, serde_json::Error>)
    ensures
        all_verbatim(key@) && all_verbatim(value@) ==> r is Ok && r->Ok_0@ == member_text(
            key@,
            value@,
        ),
{
    let mut object = serde_json::Map::new();
    object.insert(key.to_owned(), serde_json::Value::from(value));
    serde_json::to_string(&serde_json::Value::Object(object))
}

/// Wraps a JSON text into a successful response.
pub fn json_ok(body: String) -> (r: Response)
    ensures
        r@ == (ResponseView { status: 200, content_type: "application/json"@, body: body@ }),
{
    Response { status: 200, content_type: "application/json".to_owned(), body }
}

/// Handles `GET /`. The same response comes back at every call: status 200,
/// content type JSON, and the document `{"message":"Hello World"}`.
pub fn hello() -> (r: Response)
    ensures
        r@ == hello_response(),
{
    proof {
        lemma_greeting_is_one_member();
    }
    match member_to_string("message", "Hello World") {
        Ok(body) => json_ok(body),
        // Serialising two strings that need no escaping does not fail.
        Err(_) => vstd::pervasive::unreached(),
    }
}

} // verus!
