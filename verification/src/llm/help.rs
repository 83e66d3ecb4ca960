//! Checks shared by the model adapters: image inputs and remote replies.
use vstd::prelude::*;
use vstd::string::*;
use crate::text::{
    chars_of, contains_exec, contains_text, decimal, ends_with, occurs_at, owned, push_decimal,
    starts_with, starts_with_exec,
};

verus! {

broadcast use vstd::string::group_string_axioms;

/// An image input is a public http(s) URL or an image data URI in base64.
pub open spec fn valid_image_input(value: Seq<char>) -> bool {
    ||| starts_with(value, "https://"@)
    ||| starts_with(value, "http://"@)
    ||| (starts_with(value, "data:image/"@) && contains_text(value, ";base64,"@))
}

/// The message for an image input that is neither.
pub open spec fn invalid_image_error() -> Seq<char> {
    "图片必须是 http(s) URL 或图片 base64 Data URI"@
}

/// Accepts a public http(s) URL or an image data URI in base64.
pub fn help_validate_image_input(value: &str) -> (r: Result<(), String>)
    ensures
        valid_image_input(value@) ==> r is Ok,
        !valid_image_input(value@) ==> (r matches Err(m) && m@ == invalid_image_error()),
{
    let chars = chars_of(value);
    let is_url = starts_with_exec(&chars, &chars_of("https://")) || starts_with_exec(
        &chars,
        &chars_of("http://"),
    );
    let is_data_uri = starts_with_exec(&chars, &chars_of("data:image/")) && contains_exec(
        &chars,
        &chars_of(";base64,"),
    );
    if is_url || is_data_uri {
        return Ok(());
    }
    Err(owned("图片必须是 http(s) URL 或图片 base64 Data URI"))
}

/// What a JSON document holds at a JSON pointer, as far as the reply checks
/// read it.
pub enum JsonText {
    /// Nothing is at the pointer.
    Missing,
    /// Something is there and it is not a string.
    NotText,
    /// This string is there.
    Text(String),
}

/// The characters of a [`JsonText`].
pub enum JsonTextView {
    Missing,
    NotText,
    Text(Seq<char>),
}

/// The view of an optional [`JsonText`].
pub open spec fn json_text_view(t: Option<JsonText>) -> Option<JsonTextView> {
    match t {
        None => None,
        Some(JsonText::Missing) => Some(JsonTextView::Missing),
        Some(JsonText::NotText) => Some(JsonTextView::NotText),
        Some(JsonText::Text(s)) => Some(JsonTextView::Text(s@)),
    }
}

/// What `serde_json` finds in the text `body` at the JSON pointer
/// `pointer`: `None` when `body` is not JSON, else what the pointer reaches.
pub uninterp spec fn json_pointer_text(body: Seq<char>, pointer: Seq<char>) -> Option<JsonTextView>;

/// Reads the string at a JSON pointer of a JSON text.
///
/// Calls `serde_json::from_str::<serde_json::Value>`, then `Value::pointer`
/// and `Value::as_str`. The contract claims only that the outcome is a
/// function of the text and the pointer (named [`json_pointer_text`]); what
/// that function is on given values, that is JSON's grammar and the
/// pointer syntax, is left to `serde_json` and not stated.
#[verifier::external_body]
fn json_text_at(body: &str, pointer: &str) -> (r: Option<JsonText>)
    ensures
        json_text_view(r) == json_pointer_text(body@, pointer@),
{
    let value = serde_json::from_str::<serde_json::Value>(body).ok()?;
    Some(match value.pointer(pointer) {
        None => JsonText::Missing,
        Some(found) => match found.as_str() {
            None => JsonText::NotText,
            Some(text) => JsonText::Text(text.to_owned()),
        },
    })
}

/// The message used when a failed reply does not say what went wrong.
pub open spec fn unknown_error() -> Seq<char> {
    "远程模型返回了未知错误"@
}

/// The detail chosen from what the two places of an error reply hold: the
/// string at `error.message` when something is there, else the string at
/// `detail`; anything else (no JSON, not a string) is the unknown error.
pub open spec fn pick_error_detail(
    message: Option<JsonTextView>,
    detail: Option<JsonTextView>,
) -> Seq<char> {
    match message {
        None => unknown_error(),
        Some(JsonTextView::Text(s)) => s,
        Some(JsonTextView::NotText) => unknown_error(),
        Some(JsonTextView::Missing) => match detail {
            Some(JsonTextView::Text(s)) => s,
            _ => unknown_error(),
        },
    }
}

/// What a failed reply's body says went wrong.
pub open spec fn error_detail(body: Seq<char>) -> Seq<char> {
    pick_error_detail(
        json_pointer_text(body, "/error/message"@),
        json_pointer_text(body, "/detail"@),
    )
}

/// HTTP statuses of the 2xx class.
pub open spec fn status_is_success(status: u16) -> bool {
    200 <= status < 300
}

/// The message for a failed reply.
pub open spec fn failed_reply_error(status: u16, body: Seq<char>) -> Seq<char> {
    "模型请求失败（"@ + decimal(status as nat) + "）："@ + error_detail(body)
}

/// Whether a reply's status is of the 2xx class.
pub fn help_status_is_success(status: u16) -> (b: bool)
    ensures
        b == status_is_success(status),
{
    200 <= status && status < 300
}

/// Chooses the detail of a failed reply from what its two places hold
/// (`None` for a body that is not JSON).
pub fn help_pick_error_detail(message: Option<JsonText>, detail: Option<JsonText>) -> (r: String)
    ensures
        r@ == pick_error_detail(json_text_view(message), json_text_view(detail)),
{
    match message {
        None => owned("远程模型返回了未知错误"),
        Some(JsonText::Text(s)) => s,
        Some(JsonText::NotText) => owned("远程模型返回了未知错误"),
        Some(JsonText::Missing) => match detail {
            Some(JsonText::Text(s)) => s,
            _ => owned("远程模型返回了未知错误"),
        },
    }
}

/// What a failed reply's body says went wrong.
pub fn help_error_detail(body: &str) -> (r: String)
    ensures
        r@ == error_detail(body@),
{
    let message = json_text_at(body, "/error/message");
    let detail = json_text_at(body, "/detail");
    help_pick_error_detail(message, detail)
}

/// Lets a successful reply through and turns a failed one into a message
/// that carries the status and what the reply's body says, never the
/// credentials. `body` is the failed reply's text (empty when it could not
/// be read).
pub fn help_check_response(status: u16, body: &str) -> (r: Result<(), String>)
    ensures
        status_is_success(status) ==> r is Ok,
        !status_is_success(status) ==> (r matches Err(m) && m@ == failed_reply_error(status, body@)),
{
    if help_status_is_success(status) {
        return Ok(());
    }
    let detail = help_error_detail(body);
    let mut m = owned("模型请求失败（");
    push_decimal(&mut m, status as u128);
    m.append("）：");
    m.append(detail.as_str());
    Err(m)
}

/// Every public http(s) URL and every image data URI in base64, whatever
/// the image subtype, is an acceptable image input; nothing else is.
pub proof fn lemma_image_inputs_accepted(value: Seq<char>)
    ensures
        starts_with(value, "https://"@) ==> valid_image_input(value),
        starts_with(value, "http://"@) ==> valid_image_input(value),
        starts_with(value, "data:image/"@) && contains_text(value, ";base64,"@) ==> valid_image_input(
            value,
        ),
        valid_image_input(value) ==> starts_with(value, "https://"@) || starts_with(
            value,
            "http://"@,
        ) || (starts_with(value, "data:image/"@) && contains_text(value, ";base64,"@)),
{
}

/// A data URI of any image subtype in base64 is accepted: the subtype
/// after `data:image/` does not matter.
pub proof fn lemma_any_image_subtype(subtype: Seq<char>, payload: Seq<char>)
    ensures
        valid_image_input("data:image/"@ + subtype + ";base64,"@ + payload),
{
    let v = "data:image/"@ + subtype + ";base64,"@ + payload;
    let p = "data:image/"@;
    let b = ";base64,"@;
    assert(v.subrange(0, p.len() as int) =~= p);
    let at = (p.len() + subtype.len()) as int;
    assert(v.subrange(at, at + b.len()) =~= b);
    assert(occurs_at(v, b, at));
}

/// The detail of a failed reply is the string at `error.message` when that
/// is a string, the string at `detail` when nothing is at `error.message`,
/// and the unknown error otherwise.
pub proof fn lemma_error_detail_choice(message: Option<JsonTextView>, detail: Option<JsonTextView>)
    ensures
        message matches Some(JsonTextView::Text(m)) ==> pick_error_detail(message, detail) == m,
        message == Some(JsonTextView::Missing) ==> (detail matches Some(JsonTextView::Text(d))
            ==> pick_error_detail(message, detail) == d),
        message is None ==> pick_error_detail(message, detail) == unknown_error(),
        message == Some(JsonTextView::NotText) ==> pick_error_detail(message, detail)
            == unknown_error(),
        message == Some(JsonTextView::Missing) && !(detail matches Some(JsonTextView::Text(_)))
            ==> pick_error_detail(message, detail) == unknown_error(),
{
}

/// A failed reply's message starts with the fixed prefix and the status in
/// decimal, and ends with the reply's detail.
pub proof fn lemma_failed_reply_message(status: u16, body: Seq<char>)
    ensures
        starts_with(failed_reply_error(status, body), "模型请求失败（"@ + decimal(status as nat)),
        ends_with(failed_reply_error(status, body), error_detail(body)),
{
    let m = failed_reply_error(status, body);
    let p = "模型请求失败（"@ + decimal(status as nat);
    let d = error_detail(body);
    assert(m.subrange(0, p.len() as int) =~= p);
    assert(m.subrange(m.len() - d.len(), m.len() as int) =~= d);
}

} // verus!
