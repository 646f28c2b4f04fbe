//! The wire format of the delivery service: the request that carries the
//! composed image and its recipients, and the reading of the reply.

use vstd::prelude::*;
use vstd::string::StringExecFns;
use crate::encoding::{base64_encode, base64_fits, base64_text};
use crate::imaging::png_encoding;
use crate::json::{
    items, json_document, json_items, json_member, json_quoted, json_text, member, parse_document,
    quoted, text,
};
use crate::picture::{Picture, Raster};
use crate::text::texts;

verus! {

/// How a delivery ended.
#[derive(Debug, PartialEq, Eq)]
pub enum SendResult {
    /// The service answered with something that is not a reply.
    DecodeFailure,
    /// No answer came back.
    TransferFailure,
    /// The service declared a failure, with its reason. An image that
    /// cannot be encoded is reported in the same way.
    Failure(String),
    /// The service could not reach the addresses listed.
    PartialSuccess { failed_addresses: Vec<String> },
    /// Every recipient was served.
    Success,
}

/// A delivery's end as what it says.
pub ghost enum SendOutcome {
    DecodeFailure,
    TransferFailure,
    Failure(Seq<char>),
    PartialSuccess { failed_addresses: Seq<Seq<char>> },
    Success,
}

impl View for SendResult {
    type V = SendOutcome;

    open spec fn view(&self) -> SendOutcome {
        match self {
            SendResult::DecodeFailure => SendOutcome::DecodeFailure,
            SendResult::TransferFailure => SendOutcome::TransferFailure,
            SendResult::Failure(reason) => SendOutcome::Failure(reason@),
            SendResult::PartialSuccess { failed_addresses } => SendOutcome::PartialSuccess {
                failed_addresses: texts(failed_addresses@),
            },
            SendResult::Success => SendOutcome::Success,
        }
    }
}

/// `parts` written one after the other with `separator` between neighbours.
pub open spec fn joined(parts: Seq<Seq<char>>, separator: Seq<char>) -> Seq<char>
    decreases parts.len(),
{
    if parts.len() == 0 {
        Seq::empty()
    } else if parts.len() == 1 {
        parts[0]
    } else {
        joined(parts.drop_last(), separator) + separator + parts.last()
    }
}

/// Each text as a JSON string literal.
pub open spec fn quoted_all(parts: Seq<Seq<char>>) -> Seq<Seq<char>> {
    Seq::new(parts.len(), |i: int| json_quoted(parts[i]))
}

/// The body of a request: a JSON object with the recipients, the image as
/// base64 text and the image's media type.
pub open spec fn request_text(recipients: Seq<Seq<char>>, image: Seq<char>) -> Seq<char> {
    "{\"recipients\":["@ + joined(quoted_all(recipients), ","@) + "],\"image\":"@ + json_quoted(image)
        + ",\"imageMime\":\"image/png\"}"@
}

/// The request for a picture: its PNG file in base64 inside the request's
/// body, or `None` where the picture cannot be encoded.
pub open spec fn request_for(image: Raster, recipients: Seq<Seq<char>>) -> Option<Seq<char>> {
    match png_encoding(image.pixels, image.width, image.height) {
        Some(file) => if base64_fits(file.len()) {
            Some(request_text(recipients, base64_text(file)))
        } else {
            None
        },
        None => None,
    }
}

/// The texts of `values` where every one of them is a string.
pub open spec fn all_texts(values: Seq<serde_json::Value>) -> Option<Seq<Seq<char>>> {
    if forall|i: int| 0 <= i < values.len() ==> json_text(#[trigger] values[i]) is Some {
        Some(Seq::new(values.len(), |i: int| json_text(values[i])->0))
    } else {
        None
    }
}

/// The text of the string member `key` of `document`.
pub open spec fn text_member(document: serde_json::Value, key: Seq<char>) -> Option<Seq<char>> {
    match json_member(document, key) {
        Some(value) => json_text(value),
        None => None,
    }
}

/// The texts of the member `key` of `document` where it is an array of strings.
pub open spec fn list_member(document: serde_json::Value, key: Seq<char>) -> Option<
    Seq<Seq<char>>,
> {
    match json_member(document, key) {
        Some(value) => match json_items(value) {
            Some(values) => all_texts(values),
            None => None,
        },
        None => None,
    }
}

/// What a parsed reply says. The member `status` decides: `error` needs a
/// `message`, `partial` needs the list `failed_addresses`, `success` needs
/// nothing more. Anything else is not a reply.
pub open spec fn interpreted(document: serde_json::Value) -> SendOutcome {
    match text_member(document, "status"@) {
        None => SendOutcome::DecodeFailure,
        Some(status) => if status == "error"@ {
            match text_member(document, "message"@) {
                Some(message) => SendOutcome::Failure(message),
                None => SendOutcome::DecodeFailure,
            }
        } else if status == "partial"@ {
            match list_member(document, "failed_addresses"@) {
                Some(failed_addresses) => SendOutcome::PartialSuccess { failed_addresses },
                None => SendOutcome::DecodeFailure,
            }
        } else if status == "success"@ {
            SendOutcome::Success
        } else {
            SendOutcome::DecodeFailure
        },
    }
}

/// What the bytes of a reply say: a body that is not JSON is not a reply.
pub open spec fn reply_outcome(body: Seq<u8>) -> SendOutcome {
    match json_document(body) {
        Some(document) => interpreted(document),
        None => SendOutcome::DecodeFailure,
    }
}

/// What a delivery attempt came to: no answer, or what the answer says.
pub open spec fn attempt_outcome(reply: Option<Seq<u8>>) -> SendOutcome {
    match reply {
        Some(body) => reply_outcome(body),
        None => SendOutcome::TransferFailure,
    }
}

/// Writes `parts` one after the other with `separator` between neighbours.
pub fn join(parts: &Vec<String>, separator: &str) -> (r: String)
    ensures
        r@ == joined(texts(parts@), separator@),
{
    let mut out = String::new();
    let mut i: usize = 0;
    while i < parts.len()
        invariant
            i <= parts@.len(),
            out@ == joined(texts(parts@).take(i as int), separator@),
        decreases parts@.len() - i,
    {
        proof {
            let before = texts(parts@).take(i as int);
            let after = texts(parts@).take(i + 1);
            assert(after.drop_last() == before);
            assert(after.last() == parts@[i as int]@);
            if i == 0 {
                assert(Seq::<char>::empty() + parts@[i as int]@ == parts@[i as int]@);
            }
        }
        if i > 0 {
            out.append(separator);
        }
        out.append(parts[i].as_str());
        i = i + 1;
    }
    proof {
        assert(texts(parts@).take(parts@.len() as int) == texts(parts@));
    }
    out
}

/// Writes the body of a request for the given recipients and base64 image.
pub fn request_body(recipients: &Vec<String>, image: &str) -> (r: String)
    ensures
        r@ == request_text(texts(recipients@), image@),
{
    let mut literals: Vec<String> = Vec::new();
    let mut i: usize = 0;
    while i < recipients.len()
        invariant
            i <= recipients@.len(),
            literals@.len() == i,
            texts(literals@) == quoted_all(texts(recipients@)).take(i as int),
        decreases recipients@.len() - i,
    {
        let literal = quoted(recipients[i].as_str());
        proof {
            let wanted = quoted_all(texts(recipients@));
            assert forall|j: int| 0 <= j < i + 1 implies #[trigger] texts(literals@.push(literal))[j]
                == wanted.take(i + 1)[j] by {
                if j < i {
                    assert(texts(literals@)[j] == wanted.take(i as int)[j]);
                }
            }
            assert(texts(literals@.push(literal)) =~= wanted.take(i + 1));
        }
        literals.push(literal);
        i = i + 1;
    }
    proof {
        assert(quoted_all(texts(recipients@)).take(recipients@.len() as int) == quoted_all(
            texts(recipients@),
        ));
    }
    let mut body = String::from_str("{\"recipients\":[");
    body.append(join(&literals, ",").as_str());
    body.append("],\"image\":");
    body.append(quoted(image).as_str());
    body.append(",\"imageMime\":\"image/png\"}");
    body
}

/// Encodes the picture as PNG, the PNG as base64, and writes the request
/// around it. `None` where the picture cannot be encoded.
pub fn prepare_request(image: &Picture, recipients: &Vec<String>) -> (r: Option<String>)
    ensures
        r is Some <==> request_for(image@, texts(recipients@)) is Some,
        r is Some ==> r->0@ == request_for(image@, texts(recipients@))->0,
{
    match image.to_png() {
        Some(file) => {
            if file.len() / 3 <= (isize::MAX as usize - 4) / 4 {
                let encoded = base64_encode(&file);
                Some(request_body(recipients, encoded.as_str()))
            } else {
                None
            }
        },
        None => None,
    }
}

/// How an attempt stands before anything is sent: the request is ready,
/// or the attempt has ended because the picture cannot be encoded.
pub open spec fn readiness(image: Raster, recipients: Seq<Seq<char>>) -> Result<
    Seq<char>,
    SendOutcome,
> {
    match request_for(image, recipients) {
        Some(request) => Ok(request),
        None => Err(SendOutcome::Failure("failed to encode image for transport"@)),
    }
}

/// Prepares the request of an attempt. A picture that cannot be encoded
/// ends the attempt at once, as a failure with its reason.
pub fn start_attempt(image: &Picture, recipients: &Vec<String>) -> (r: Result<String, SendResult>)
    ensures
        match readiness(image@, texts(recipients@)) {
            Ok(request) => r is Ok && r->Ok_0@ == request,
            Err(outcome) => r is Err && r->Err_0@ == outcome,
        },
{
    match prepare_request(image, recipients) {
        Some(request) => Ok(request),
        None => Err(SendResult::Failure(String::from_str("failed to encode image for transport"))),
    }
}

/// Reads the string member `key` of `document`.
fn read_text(document: &serde_json::Value, key: &str) -> (r: Option<String>)
    ensures
        r is Some <==> text_member(*document, key@) is Some,
        r is Some ==> r->0@ == text_member(*document, key@)->0,
{
    match member(document, key) {
        Some(value) => text(&value),
        None => None,
    }
}

/// Reads the member `key` of `document` as a list of strings.
fn read_list(document: &serde_json::Value, key: &str) -> (r: Option<Vec<String>>)
    ensures
        r is Some <==> list_member(*document, key@) is Some,
        r is Some ==> texts(r->0@) == list_member(*document, key@)->0,
{
    let value = match member(document, key) {
        Some(value) => value,
        None => { return None; },
    };
    let values = match items(&value) {
        Some(values) => values,
        None => { return None; },
    };
    let mut list: Vec<String> = Vec::new();
    let mut i: usize = 0;
    while i < values.len()
        invariant
            i <= values@.len(),
            list@.len() == i,
            json_member(*document, key@) == Some(value),
            json_items(value) == Some(values@),
            forall|j: int| 0 <= j < i ==> json_text(#[trigger] values@[j]) is Some,
            forall|j: int| 0 <= j < i ==> (#[trigger] list@[j])@ == json_text(values@[j])->0,
        decreases values@.len() - i,
    {
        match text(&values[i]) {
            Some(item) => {
                list.push(item);
            },
            None => {
                proof {
                    assert(json_text(values@[i as int]) is None);
                    assert(all_texts(values@) is None);
                }
                return None;
            },
        }
        i = i + 1;
    }
    proof {
        assert(texts(list@) =~= all_texts(values@)->0);
    }
    Some(list)
}

/// Tells what a parsed reply says.
pub fn interpret_document(document: &serde_json::Value) -> (r: SendResult)
    ensures
        r@ == interpreted(*document),
{
    let status = match read_text(document, "status") {
        Some(status) => status,
        None => { return SendResult::DecodeFailure; },
    };
    if status == String::from_str("error") {
        match read_text(document, "message") {
            Some(message) => SendResult::Failure(message),
            None => SendResult::DecodeFailure,
        }
    } else if status == String::from_str("partial") {
        match read_list(document, "failed_addresses") {
            Some(failed_addresses) => SendResult::PartialSuccess { failed_addresses },
            None => SendResult::DecodeFailure,
        }
    } else if status == String::from_str("success") {
        SendResult::Success
    } else {
        SendResult::DecodeFailure
    }
}

/// Tells what the bytes of a reply say.
pub fn interpret_response(body: &[u8]) -> (r: SendResult)
    ensures
        r@ == reply_outcome(body@),
{
    match parse_document(body) {
        Some(document) => interpret_document(&document),
        None => SendResult::DecodeFailure,
    }
}

/// Tells how a delivery attempt ended: without a reply the transfer
/// failed; with one, the reply decides.
pub fn delivery_result(reply: Option<Vec<u8>>) -> (r: SendResult)
    ensures
        r@ == attempt_outcome(
            match reply {
                Some(body) => Some(body@),
                None => None,
            },
        ),
{
    match reply {
        Some(body) => interpret_response(body.as_slice()),
        None => SendResult::TransferFailure,
    }
}

} // verus!
