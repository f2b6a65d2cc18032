use vstd::prelude::*;
use vstd::utf8::decode_utf8;
use vstd::utf8::decode_utf8_encode_utf8;
use vstd::utf8::encode_utf8;
use vstd::utf8::valid_utf8;
use axum::http::uri::InvalidUri;
use axum::http::Uri;

verus! {

#[verifier::external_type_specification]
#[verifier::external_body]
pub struct ExUri(Uri);

#[verifier::external_type_specification]
#[verifier::external_body]
pub struct ExInvalidUri(InvalidUri);

/// The `Uri` that `http::Uri` parses from the text (the grammar of RFC 3986 as the
/// `http` crate reads it), or `None` where it refuses the text.
pub uninterp spec fn parsed_uri(text: Seq<char>) -> Option<Uri>;

/// Whether `http::Uri` accepts the text as a URI.
pub open spec fn parses_as_uri(text: Seq<char>) -> bool {
    parsed_uri(text) is Some
}

/// Calls `http::Uri::from_maybe_shared` (re-exported by axum) on an owned string.
/// Claimed of it: its outcome depends on the text alone, which `parsed_uri` names
/// (the accepted `Uri` is the one parsed from the whole text), and the empty text is
/// refused (its source returns the `Empty` error for an input of length zero). Nothing
/// is stated of the parts of an accepted `Uri`.
#[verifier::external_body]
fn uri_from_string(text: String) -> (res: Result<Uri, InvalidUri>)
    ensures
        res is Ok <==> parses_as_uri(text@),
        res matches Ok(uri) ==> parsed_uri(text@) == Some(uri),
        text@.len() == 0 ==> res is Err,
{
    Uri::from_maybe_shared(text)
}

/// Calls `String::from_utf8`. Claimed of it, as its documentation says: it succeeds
/// exactly when the bytes are valid UTF-8, and then the text is what they encode.
#[verifier::external_body]
fn string_from_utf8(bytes: Vec<u8>) -> (res: Option<String>)
    ensures
        res is Some <==> valid_utf8(bytes@),
        res matches Some(text) ==> text@ == decode_utf8(bytes@),
{
    match String::from_utf8(bytes) {
        Ok(text) => Some(text),
        Err(_) => None,
    }
}

/// What came back from the GET request sent to the third party API.
pub enum ThirdPartyReply {
    /// The API answered with this HTTP status code and this body.
    Answered { status: u16, body: Vec<u8> },
    /// The request failed: no answer came back.
    Unreachable,
}

/// An HTTP status code of the success class (200 to 299).
pub open spec fn is_success_status(status: u16) -> bool {
    200 <= status < 300
}

/// A reply that is an answer with a success status.
pub open spec fn is_successful_reply(reply: ThirdPartyReply) -> bool {
    match reply {
        ThirdPartyReply::Answered { status, body } => is_success_status(status),
        ThirdPartyReply::Unreachable => false,
    }
}

/// The text of a body: its UTF-8 decoding, or the empty text where the bytes are not UTF-8.
pub open spec fn body_text(body: Seq<u8>) -> Seq<char> {
    if valid_utf8(body) {
        decode_utf8(body)
    } else {
        Seq::empty()
    }
}

/// What the service makes of a reply: the body text of a successful answer, and
/// nothing (an error) for any other answer or for a failed request.
pub open spec fn reply_result(reply: ThirdPartyReply) -> Option<Seq<char>> {
    match reply {
        ThirdPartyReply::Answered { status, body } => if is_success_status(status) {
            Some(body_text(body@))
        } else {
            None
        },
        ThirdPartyReply::Unreachable => None,
    }
}

/// Foo service implementation struct
pub struct FooService {}

impl Default for FooService {
    fn default() -> (service: Self)
        ensures
            service == (FooService {}),
    {
        FooService {}
    }
}

impl FooService {
    /// Whether an HTTP status code is of the success class, as `StatusCode::is_success` decides.
    #[verifier::allow_in_spec]
    pub fn is_success_status_code(status: u16) -> (success: bool)
        ensures
            success == is_success_status(status),
            success <==> (200 <= status && status <= 299),
        returns
            (200 <= status && status < 300),
    {
        200 <= status && status < 300
    }

    /// Checks the third party URL before any request is made: the `Uri` to call,
    /// or an error where the text is no URI.
    #[verifier::allow_in_spec]
    pub fn sanitize_url(&self, url: String) -> (res: Result<Uri, ()>)
        ensures
            res is Ok <==> parses_as_uri(url@),
            res matches Ok(uri) ==> parsed_uri(url@) == Some(uri),
            url@.len() == 0 ==> res is Err,
        returns
            (match parsed_uri(url@) {
                Some(uri) => Ok(uri),
                None => Err(()),
            }),
    {
        match uri_from_string(url) {
            Ok(uri) => Ok(uri),
            Err(_) => Err(()),
        }
    }

    /// Turns what came back from the third party API into the service's result:
    /// the body as text (empty where it is no UTF-8) when the status is a success,
    /// an error for any other status and for a failed request.
    pub fn result_from_reply(&self, reply: ThirdPartyReply) -> (res: Result<String, ()>)
        ensures
            (match res {
                Ok(text) => reply_result(reply) == Some(text@),
                Err(_) => reply_result(reply) is None,
            }),
            (reply is Answered && 200 <= reply->status <= 299 && valid_utf8(reply->body@))
                ==> (res matches Ok(text) && encode_utf8(text@) == reply->body@),
            (reply is Answered && 200 <= reply->status <= 299 && !valid_utf8(reply->body@))
                ==> (res matches Ok(text) && text@.len() == 0),
            (reply is Answered && !(200 <= reply->status <= 299)) ==> res is Err,
            reply is Unreachable ==> res is Err,
    {
        proof {
            lemma_reply_result_keeps_whole_body(reply);
        }
        match reply {
            ThirdPartyReply::Answered { status, body } => {
                let text = match string_from_utf8(body) {
                    Some(text) => text,
                    None => String::new(),
                };
                if Self::is_success_status_code(status) {
                    Ok(text)
                } else {
                    Err(())
                }
            },
            ThirdPartyReply::Unreachable => Err(()),
        }
    }
}

/// A status counts as success exactly when it lies from 200 to 299, both for the
/// service's judgement and for the statement that its contracts use.
pub proof fn lemma_success_status_is_2xx(status: u16)
    ensures
        FooService::is_success_status_code(status) <==> (200 <= status && status <= 299),
        is_success_status(status) <==> (200 <= status && status <= 299),
{
}

/// The service's result for a reply: a success status (200 to 299) with a UTF-8 body gives
/// text whose UTF-8 encoding is the whole body, byte for byte; a success status with a body
/// that is not UTF-8 gives the empty text; any other status, or a failed request, gives an error.
pub proof fn lemma_reply_result_keeps_whole_body(reply: ThirdPartyReply)
    ensures
        (reply is Answered && 200 <= reply->status <= 299 && valid_utf8(reply->body@)) ==> (
        reply_result(reply) matches Some(text) && encode_utf8(text) == reply->body@ && text
            == decode_utf8(reply->body@)),
        (reply is Answered && 200 <= reply->status <= 299 && !valid_utf8(reply->body@))
            ==> reply_result(reply) == Some(Seq::<char>::empty()),
        (reply is Answered && !(200 <= reply->status <= 299)) ==> reply_result(reply) is None,
        reply is Unreachable ==> reply_result(reply) is None,
{
    if let ThirdPartyReply::Answered { status, body } = reply {
        if valid_utf8(body@) {
            decode_utf8_encode_utf8(body@);
        }
    }
}

/// Checking a URL keeps the whole text: an accepted URL yields exactly the `Uri` parsed from
/// that very text, a refused one an error. Two texts
/// that are the same give the same outcome.
pub proof fn lemma_sanitize_url_parses_whole_text(service: FooService, url: String, other: String)
    ensures
        service.sanitize_url(url) is Ok <==> parses_as_uri(url@),
        service.sanitize_url(url) matches Ok(uri) ==> parsed_uri(url@) == Some(uri),
        url@ == other@ ==> service.sanitize_url(url) == service.sanitize_url(other),
{
}

} // verus!
