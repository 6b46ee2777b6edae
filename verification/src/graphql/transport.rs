//! What goes over the wire and what comes back.
//!
//! A query travels as a JSON object with a `query` member, the operation text,
//! and, when the operation takes variables, a `variables` member: the
//! variables object, itself written out as JSON and then carried as a string.
//! The caller performs the POST that an [`HttpRequest`] describes and reports
//! what happened as a [`TransportOutcome`].

use vstd::prelude::*;
use vstd::string::StringSliceAdditionalSpecFns;
use vstd::utf8::encode_utf8;
use crate::graphql::json::json_parsed;
use crate::graphql::json::json_quote;
use crate::graphql::json::json_string_literal;
use crate::graphql::json::parse_json;
use crate::graphql::types::Reply;

verus! {

/// The message of a decode error for a reply that is valid JSON of the wrong
/// shape.
pub const UNEXPECTED_SHAPE: &'static str = "response does not have the expected shape";

/// The message of a request that ran out of time.
pub const TIMED_OUT: &'static str = "request timed out";

/// The message of a reply whose status is not a success.
pub const BAD_STATUS: &'static str = "server answered with a non-success status";

/// A query envelope: the operation text and the variables, already written out
/// as JSON, if the operation takes any.
#[derive(Debug, Clone, PartialEq, Eq)]
pub struct GraphqlQuery<'a> {
    pub query: &'a str,
    pub variables: Option<&'a String>,
}

/// One header of a request.
#[derive(Debug, Clone, PartialEq, Eq)]
pub struct Header {
    pub name: String,
    pub value: String,
}

/// A POST for the caller to perform.
#[derive(Debug, Clone, PartialEq, Eq)]
pub struct HttpRequest {
    pub url: String,
    pub headers: Vec<Header>,
    pub body: String,
    /// How long the caller may wait for the reply, in milliseconds; `None`
    /// leaves the limit to the transport.
    pub timeout_millis: Option<u64>,
}

/// What became of a request.
#[derive(Debug, Clone, PartialEq, Eq)]
pub enum TransportOutcome {
    /// The request could not be sent, or the reply could not be read.
    Failed { message: String },
    /// The time allowed for the request ran out.
    TimedOut,
    /// The server answered.
    Replied { status: u16, body: String },
}

/// Why a query produced no decoded reply.
#[derive(Debug, Clone, PartialEq, Eq)]
pub enum QueryError {
    /// The request could not be sent, or the reply could not be read.
    Transport { message: String },
    /// The time allowed for the request ran out.
    Timeout,
    /// The server answered with a status outside 200..=299.
    Status { code: u16, body: String },
    /// The body of the reply is not JSON, or not JSON of the expected shape.
    Decode { message: String, body: String },
}

/// The mathematical content of a [`Header`].
pub struct HeaderView {
    pub name: Seq<char>,
    pub value: Seq<char>,
}

/// The mathematical content of an [`HttpRequest`].
pub struct HttpRequestView {
    pub url: Seq<char>,
    pub headers: Seq<HeaderView>,
    pub body: Seq<char>,
    pub timeout_millis: Option<u64>,
}

/// The mathematical content of a [`QueryError`].
pub enum QueryErrorView {
    Transport { message: Seq<char> },
    Timeout,
    Status { code: u16, body: Seq<char> },
    Decode { message: Seq<char>, body: Seq<char> },
}

impl View for Header {
    type V = HeaderView;

    open spec fn view(&self) -> HeaderView {
        HeaderView { name: self.name@, value: self.value@ }
    }
}

impl View for HttpRequest {
    type V = HttpRequestView;

    open spec fn view(&self) -> HttpRequestView {
        HttpRequestView {
            url: self.url@,
            headers: self.headers@.map_values(|h: Header| h@),
            body: self.body@,
            timeout_millis: self.timeout_millis,
        }
    }
}

impl View for QueryError {
    type V = QueryErrorView;

    open spec fn view(&self) -> QueryErrorView {
        match *self {
            QueryError::Transport { message } => QueryErrorView::Transport { message: message@ },
            QueryError::Timeout => QueryErrorView::Timeout,
            QueryError::Status { code, body } => QueryErrorView::Status { code, body: body@ },
            QueryError::Decode { message, body } => QueryErrorView::Decode {
                message: message@,
                body: body@,
            },
        }
    }
}

impl QueryErrorView {
    /// The one-line description of the error.
    pub open spec fn message(self) -> Seq<char> {
        match self {
            QueryErrorView::Transport { message } => message,
            QueryErrorView::Timeout => TIMED_OUT@,
            QueryErrorView::Status { .. } => BAD_STATUS@,
            QueryErrorView::Decode { message, .. } => message,
        }
    }
}

impl QueryError {
    /// The one-line description of the error: the transport's or the
    /// decoder's own message where there is one, a fixed text otherwise.
    pub fn message(&self) -> (text: String)
        ensures
            text@ == self@.message(),
    {
        match self {
            QueryError::Transport { message } => message.clone(),
            QueryError::Timeout => String::from_str(TIMED_OUT),
            QueryError::Status { .. } => String::from_str(BAD_STATUS),
            QueryError::Decode { message, .. } => message.clone(),
        }
    }
}

/// The envelope around two string literals: an object with the member `query`
/// and, if there are variables, the member `variables`.
pub open spec fn framed_envelope(
    query_literal: Seq<char>,
    variables_literal: Option<Seq<char>>,
) -> Seq<char> {
    match variables_literal {
        Some(variables) => "{\"query\":"@ + query_literal + ",\"variables\":"@ + variables + "}"@,
        None => "{\"query\":"@ + query_literal + "}"@,
    }
}

/// The body that carries a query: the envelope around the JSON string
/// literals of the operation text and of the variables.
pub open spec fn envelope_body(query: Seq<char>, variables: Option<Seq<char>>) -> Seq<char> {
    framed_envelope(
        json_string_literal(query),
        match variables {
            Some(text) => Some(json_string_literal(text)),
            None => None,
        },
    )
}

/// Writes the envelope around two JSON string literals.
///
/// The literals are copied as they are. Without variables the envelope has no
/// `variables` member at all.
pub fn frame_envelope(query_literal: &str, variables_literal: Option<&str>) -> (body: String)
    ensures
        body@ == framed_envelope(
            query_literal@,
            match variables_literal {
                Some(variables) => Some(variables@),
                None => None,
            },
        ),
{
    let mut body = String::from_str("{\"query\":");
    body.append(query_literal);
    match variables_literal {
        Some(variables) => {
            body.append(",\"variables\":");
            body.append(variables);
        },
        None => {},
    }
    body.append("}");
    body
}

impl<'a> GraphqlQuery<'a> {
    /// The operation text and the variables as mathematical strings.
    pub open spec fn variables_view(&self) -> Option<Seq<char>> {
        match self.variables {
            Some(text) => Some(text@),
            None => None,
        }
    }

    /// Serializes the envelope into a request body.
    pub fn to_body(&self) -> (body: String)
        ensures
            body@ == envelope_body(self.query@, self.variables_view()),
    {
        let query_literal = json_quote(self.query).unwrap();
        match self.variables {
            Some(text) => {
                let variables_literal = json_quote(text.as_str()).unwrap();
                frame_envelope(query_literal.as_str(), Some(variables_literal.as_str()))
            },
            None => frame_envelope(query_literal.as_str(), None),
        }
    }
}

/// Whether a byte may stand in a header value: the tab, and every byte from
/// the space upwards but the delete character.
pub open spec fn is_header_byte(byte: u8) -> bool {
    (byte >= 32 && byte != 127) || byte == 9
}

/// Whether each of a sequence of bytes may stand in a header value.
pub open spec fn are_header_bytes(bytes: Seq<u8>) -> bool {
    forall|i: int| 0 <= i < bytes.len() ==> is_header_byte(#[trigger] bytes[i])
}

/// Whether a character is safe in a header value: the tab, or a visible ASCII
/// character, the space included.
pub open spec fn is_header_safe_char(c: char) -> bool {
    c == '\t' || (' ' <= c && c <= '~')
}

/// Whether a text is safe as a header value: every character of it is.
pub open spec fn is_header_safe(text: Seq<char>) -> bool {
    forall|i: int| 0 <= i < text.len() ==> is_header_safe_char(#[trigger] text[i])
}

/// Calls `reqwest::header::HeaderValue::from_str` and tells whether it
/// accepted the text.
///
/// Trusted: the text is accepted exactly when every byte of its UTF-8
/// encoding may stand in a header value.
#[verifier::external_body]
pub(crate) fn header_value_parses(text: &str) -> (ok: bool)
    ensures
        ok == are_header_bytes(encode_utf8(text@)),
{
    reqwest::header::HeaderValue::from_str(text).is_ok()
}

/// Tells whether a text is safe as a header value.
///
/// A text with a character outside ASCII is refused; an ASCII text is safe
/// exactly when the transport's own header type accepts it.
pub fn accepts_header_value(text: &str) -> (ok: bool)
    ensures
        ok == is_header_safe(text@),
{
    if !text.is_ascii() {
        proof {
            let i = choose|i: int|
                0 <= i < text@.len() && !('\0' <= #[trigger] text@[i] <= '\u{7f}');
            assert(!is_header_safe_char(text@[i]));
        }
        return false;
    }
    let ok = header_value_parses(text);
    proof {
        broadcast use vstd::string::is_ascii_spec_bytes;

        let bytes = text.spec_bytes();
        assert forall|i: int| 0 <= i < text@.len() implies (is_header_byte(bytes[i])
            <==> is_header_safe_char(#[trigger] text@[i])) by {
            assert(bytes[i] == text@[i] as u8);
        }
        if !ok {
            let i = choose|i: int| 0 <= i < bytes.len() && !is_header_byte(#[trigger] bytes[i]);
            assert(!is_header_safe_char(text@[i]));
        }
    }
    ok
}

/// Whether a status counts as a success.
pub open spec fn is_success(status: u16) -> bool {
    200 <= status <= 299
}

/// The body of a successful reply, or the reason there is none.
pub open spec fn reply_text(outcome: TransportOutcome) -> Result<Seq<char>, QueryErrorView> {
    match outcome {
        TransportOutcome::Failed { message } => Err(
            QueryErrorView::Transport { message: message@ },
        ),
        TransportOutcome::TimedOut => Err(QueryErrorView::Timeout),
        TransportOutcome::Replied { status, body } => if is_success(status) {
            Ok(body@)
        } else {
            Err(QueryErrorView::Status { code: status, body: body@ })
        },
    }
}

/// The decoded reply to a query, or the reason there is none: what the
/// transport reported, or a decode error for a body that is not JSON or not
/// JSON of the shape of a `T`.
pub open spec fn decoded_reply<T: Reply>(outcome: TransportOutcome) -> Result<
    T::V,
    QueryErrorView,
> {
    match reply_text(outcome) {
        Ok(text) => match json_parsed(text) {
            Ok(doc) => match T::read(doc) {
                Some(reply) => Ok(reply),
                None => Err(QueryErrorView::Decode { message: UNEXPECTED_SHAPE@, body: text }),
            },
            Err(message) => Err(QueryErrorView::Decode { message, body: text }),
        },
        Err(e) => Err(e),
    }
}

impl TransportOutcome {
    /// Sorts an outcome into the body of a successful reply and the failures:
    /// a transport failure, a timeout, and a reply whose status is not a
    /// success each give an error of their own.
    pub fn into_text(self) -> (r: Result<String, QueryError>)
        ensures
            match r {
                Ok(text) => reply_text(self) == Ok::<Seq<char>, QueryErrorView>(text@),
                Err(e) => reply_text(self) == Err::<Seq<char>, QueryErrorView>(e@),
            },
    {
        match self {
            TransportOutcome::Failed { message } => Err(QueryError::Transport { message }),
            TransportOutcome::TimedOut => Err(QueryError::Timeout),
            TransportOutcome::Replied { status, body } => if 200 <= status && status <= 299 {
                Ok(body)
            } else {
                Err(QueryError::Status { code: status, body })
            },
        }
    }
}

/// Reads the reply to a query out of what the transport reported.
///
/// A transport failure, a timeout and a status that is not a success are
/// handed on as they are. The body of a successful reply is parsed as JSON and
/// decoded as a `T`; where either step fails the error keeps a message and the
/// body as it was received.
pub fn read_reply<T: Reply>(outcome: TransportOutcome) -> (r: Result<T, QueryError>)
    ensures
        match r {
            Ok(reply) => decoded_reply::<T>(outcome) == Ok::<T::V, QueryErrorView>(reply@),
            Err(e) => decoded_reply::<T>(outcome) == Err::<T::V, QueryErrorView>(e@),
        },
{
    let text = match outcome.into_text() {
        Ok(text) => text,
        Err(e) => {
            return Err(e);
        },
    };
    match parse_json(text.as_str()) {
        Ok(doc) => match T::decode(&doc) {
            Some(reply) => Ok(reply),
            None => Err(
                QueryError::Decode { message: String::from_str(UNEXPECTED_SHAPE), body: text },
            ),
        },
        Err(message) => Err(QueryError::Decode { message, body: text }),
    }
}

} // verus!
