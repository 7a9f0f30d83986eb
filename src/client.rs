use vstd::prelude::*;

verus! {

#[verifier::external_type_specification]
#[verifier::external_body]
pub struct ExMethod(http::Method);

#[verifier::external_type_specification]
#[verifier::external_body]
pub struct ExInvalidMethod(http::method::InvalidMethod);

/// A character that an HTTP method token may hold.
pub open spec fn is_token_char(c: char) -> bool {
    ('A' <= c && c <= 'Z') || ('a' <= c && c <= 'z') || ('0' <= c && c <= '9') || c == '!' || c == '#'
        || c == '$' || c == '%' || c == '&' || c == '\'' || c == '*' || c == '+' || c == '-' || c == '.'
        || c == '^' || c == '_' || c == '`' || c == '|' || c == '~'
}

/// A non-empty run of token characters: the text that names a method.
pub open spec fn is_method_token(s: Seq<char>) -> bool {
    s.len() > 0 && forall|i: int| 0 <= i < s.len() ==> is_token_char(#[trigger] s[i])
}

/// The upper-case form of a text, as Unicode defines it.
pub uninterp spec fn upper_of(s: Seq<char>) -> Seq<char>;

/// Relies on str::to_uppercase: the result depends on the characters alone,
/// and the empty text stays empty.
#[verifier::external_body]
fn to_upper(s: &str) -> (r: String)
    ensures
        r@ == upper_of(s@),
        s@.len() == 0 ==> r@.len() == 0,
{
    s.to_uppercase()
}

/// Relies on `<http::Method as FromStr>::from_str`: it accepts exactly the
/// non-empty texts made of token characters.
#[verifier::external_body]
fn parse_method(s: &str) -> (r: Result<http::Method, http::method::InvalidMethod>)
    ensures
        r is Ok <==> is_method_token(s@),
{
    <http::Method as std::str::FromStr>::from_str(s)
}

/// Why an outbound request could not be made.
#[derive(Clone, Debug, PartialEq, Eq)]
pub enum ClientError {
    /// The method, once upper-cased, is not a method token.
    InvalidMethod,
}

/// The method of an outbound request: the caller's text upper-cased, which
/// must then be a method token.
pub fn request_method(method: &str) -> (r: Result<http::Method, ClientError>)
    ensures
        r is Ok <==> is_method_token(upper_of(method@)),
        r is Err ==> r == Err::<http::Method, _>(ClientError::InvalidMethod),
{
    let upper = to_upper(method);
    match parse_method(upper.as_str()) {
        Ok(m) => Ok(m),
        Err(_) => Err(ClientError::InvalidMethod),
    }
}

/// Whether an upper-cased method text names a method; the decision that
/// `request_method` makes once the text is upper-cased.
pub fn is_valid_method(upper: &str) -> (r: bool)
    ensures
        r == is_method_token(upper@),
{
    parse_method(upper).is_ok()
}

/// One step of reading the response body of an outbound exchange.
#[derive(Clone, Debug)]
pub enum BodyEvent {
    /// A data frame with these bytes.
    Data(Vec<u8>),
    /// A frame that carries no data, such as trailers.
    NonData,
    /// The transport failed while the body was read.
    Error,
    /// The body ended.
    End,
}

/// What the forwarding task does with one body event.
#[derive(Clone, Debug, PartialEq, Eq)]
pub enum ForwardAction {
    /// Put these bytes on the caller's channel.
    Chunk(Vec<u8>),
    /// Put a terminal error on the caller's channel, so that a truncated body
    /// can be told from a complete one.
    Fail,
    /// Nothing to forward; read on.
    Skip,
    /// The body is complete; close the channel.
    Stop,
}

pub fn forward_event(ev: BodyEvent) -> (a: ForwardAction)
    ensures
        match ev {
            BodyEvent::Data(b) => a == ForwardAction::Chunk(b),
            BodyEvent::NonData => a == ForwardAction::Skip,
            BodyEvent::Error => a == ForwardAction::Fail,
            BodyEvent::End => a == ForwardAction::Stop,
        },
{
    match ev {
        BodyEvent::Data(b) => ForwardAction::Chunk(b),
        BodyEvent::NonData => ForwardAction::Skip,
        BodyEvent::Error => ForwardAction::Fail,
        BodyEvent::End => ForwardAction::Stop,
    }
}

} // verus!
