//! The wire layer: building one outbound request line, and classifying one
//! inbound line into the cases the router acts on.

use vstd::prelude::*;
use vstd::string::*;
use crate::json::{
    json_quote, json_quoted, line_shape_of, read_error, read_head, read_reply_fields,
    wire_error_code_of, wire_error_message_of, wire_has_error_of, wire_has_method_of,
    wire_has_result_of, wire_id_of, IdShape, LineShape,
};

verus! {

/// One inbound wire line, classified as far as routing cares. Replies whose
/// id is not of the integer wire form can never match a pending entry (this
/// client only generates integer ids), so they are folded into
/// `UnmatchedReply` with no id at all.
pub enum Inbound {
    /// A reply carrying a successful result for the request with this id.
    Response { id: i64, payload: serde_json::Value },
    /// A reply carrying the peer's protocol-level error for this id.
    Failure { id: i64, code: i64, message: String },
    /// A response or error whose id is not an integer.
    UnmatchedReply,
    /// A message with a method and no id: requires no reply.
    Notification,
    /// Structurally valid JSON of an unexpected shape (a batch array, a
    /// peer-originated request, an envelope missing its reply fields).
    Other,
    /// Not a parseable JSON document, or a reply whose error object is
    /// missing its integer code or string message.
    Invalid,
}

/// The decimal digits of a non-negative integer, most significant first.
pub open spec fn dec_str_of(n: int) -> Seq<char>
    decreases n,
{
    if n < 0 {
        Seq::empty()
    } else if n < 10 {
        seq![digit_char(n)]
    } else {
        dec_str_of(n / 10).push(digit_char(n % 10))
    }
}

/// The character for one decimal digit.
pub open spec fn digit_char(d: int) -> char {
    if d == 0 {
        '0'
    } else if d == 1 {
        '1'
    } else if d == 2 {
        '2'
    } else if d == 3 {
        '3'
    } else if d == 4 {
        '4'
    } else if d == 5 {
        '5'
    } else if d == 6 {
        '6'
    } else if d == 7 {
        '7'
    } else if d == 8 {
        '8'
    } else {
        '9'
    }
}

/// Append the character for one decimal digit.
fn push_digit(s: &mut String, d: i64)
    requires
        0 <= d < 10,
    ensures
        final(s)@ == old(s)@ + seq![digit_char(d as int)],
{
    let t: &str = if d == 0 {
        "0"
    } else if d == 1 {
        "1"
    } else if d == 2 {
        "2"
    } else if d == 3 {
        "3"
    } else if d == 4 {
        "4"
    } else if d == 5 {
        "5"
    } else if d == 6 {
        "6"
    } else if d == 7 {
        "7"
    } else if d == 8 {
        "8"
    } else {
        "9"
    };
    s.append(t);
    proof {
        reveal_strlit("0");
        reveal_strlit("1");
        reveal_strlit("2");
        reveal_strlit("3");
        reveal_strlit("4");
        reveal_strlit("5");
        reveal_strlit("6");
        reveal_strlit("7");
        reveal_strlit("8");
        reveal_strlit("9");
        assert(s@ =~= old(s)@ + seq![digit_char(d as int)]);
    }
}

/// Append the decimal digits of a non-negative value, most significant
/// first.
fn append_decimal(s: &mut String, n: i64)
    requires
        0 <= n,
    ensures
        final(s)@ == old(s)@ + dec_str_of(n as int),
    decreases n,
{
    if n >= 10 {
        append_decimal(s, n / 10);
    }
    push_digit(s, n % 10);
    proof {
        assert(s@ =~= old(s)@ + dec_str_of(n as int));
    }
}

/// The decimal text of a non-negative value.
pub fn i64_dec(n: i64) -> (s: String)
    requires
        0 <= n,
    ensures
        s@ == dec_str_of(n as int),
{
    let mut s = String::new();
    append_decimal(&mut s, n);
    proof {
        assert(s@ =~= dec_str_of(n as int));
    }
    s
}

/// The full wire text of one request envelope. The `params` field is
/// omitted entirely when the request has no parameters; a present value is
/// embedded as the exact JSON text it was given as.
pub open spec fn request_line_spec(id: int, method: Seq<char>, params: Option<Seq<char>>) -> Seq<
    char,
> {
    let head = "{\"jsonrpc\":\"2.0\",\"id\":"@ + dec_str_of(id) + ",\"method\":"@ + json_quoted(
        method,
    );
    match params {
        None => head + "}"@,
        Some(p) => head + ",\"params\":"@ + p + "}"@,
    }
}

/// Build the wire line for one request. `params` is the JSON text of the
/// parameter value, or `None` for a request without parameters.
pub fn encode_request(id: i64, method: &str, params: Option<&str>) -> (line: String)
    requires
        0 <= id,
    ensures
        line@ == request_line_spec(
            id as int,
            method@,
            match params {
                None => None,
                Some(p) => Some(p@),
            },
        ),
{
    let mut line = String::from_str("{\"jsonrpc\":\"2.0\",\"id\":");
    let id_text = i64_dec(id);
    line.append(id_text.as_str());
    line.append(",\"method\":");
    let method_text = json_quote(method);
    line.append(method_text.as_str());
    match params {
        None => {},
        Some(p) => {
            line.append(",\"params\":");
            line.append(p);
        },
    }
    line.append("}");
    proof {
        assert(line@ =~= request_line_spec(
            id as int,
            method@,
            match params {
                None => None::<Seq<char>>,
                Some(p) => Some(p@),
            },
        ));
    }
    line
}

/// Whether a parameter value, given as JSON text, is the JSON null.
pub open spec fn is_null_text(s: Seq<char>) -> bool {
    s == "null"@
}

/// Turn an optional parameter text into the request's `params` field:
/// a semantically absent value — no value at all, or the JSON null — yields
/// no field, and any other value is kept exactly.
pub fn normalize_params(p: Option<String>) -> (r: Option<String>)
    ensures
        r == match p {
            None => None::<String>,
            Some(s) => if is_null_text(s@) {
                None::<String>
            } else {
                Some(s)
            },
        },
{
    match p {
        None => None,
        Some(s) => {
            let null_text = String::from_str("null");
            if s == null_text {
                None
            } else {
                Some(s)
            }
        },
    }
}

/// The classified kind of one inbound line: everything `classify_line`
/// decides, with the opaque payload dropped. All its fields are plain
/// values, so the classifier's whole decision is visible in its contract.
pub enum InboundKind {
    Response { id: i64 },
    Failure { id: i64, code: i64, message: Seq<char> },
    UnmatchedReply,
    Notification,
    Other,
    Invalid,
}

impl Inbound {
    /// The message with its payload dropped: what classification decided.
    pub open spec fn kind(self) -> InboundKind {
        match self {
            Inbound::Response { id, .. } => InboundKind::Response { id },
            Inbound::Failure { id, code, message } => InboundKind::Failure {
                id,
                code,
                message: message@,
            },
            Inbound::UnmatchedReply => InboundKind::UnmatchedReply,
            Inbound::Notification => InboundKind::Notification,
            Inbound::Other => InboundKind::Other,
            Inbound::Invalid => InboundKind::Invalid,
        }
    }
}

/// The decision table over one envelope's plain parts: a line that is not a
/// JSON document is malformed; a non-object document is an unexpected
/// shape; an object with an integer id and a `result` or `error` field is a
/// reply; one whose id has another form can never match; a `method` without
/// an id is a notification; everything else is an unexpected shape. An
/// error object without an integer code and a string message does not have
/// the envelope shape, so the line counts as malformed.
pub open spec fn decide_kind(
    shape: LineShape,
    id: IdShape,
    has_method: bool,
    has_result: bool,
    has_error: bool,
    code: Option<i64>,
    message: Option<Seq<char>>,
) -> InboundKind {
    match shape {
        LineShape::NotJson => InboundKind::Invalid,
        LineShape::NotObject => InboundKind::Other,
        LineShape::Object => match id {
            IdShape::Absent => if has_method {
                InboundKind::Notification
            } else {
                InboundKind::Other
            },
            IdShape::NonInteger => if has_result || has_error {
                InboundKind::UnmatchedReply
            } else {
                InboundKind::Other
            },
            IdShape::Integer(id) => if has_result {
                InboundKind::Response { id }
            } else if has_error {
                match (code, message) {
                    (Some(code), Some(message)) => InboundKind::Failure { id, code, message },
                    _ => InboundKind::Invalid,
                }
            } else {
                InboundKind::Other
            },
        },
    }
}

/// What classification returns for one wire line: the decision table
/// applied to the line's envelope parts.
pub open spec fn inbound_kind_of(s: Seq<char>) -> InboundKind {
    decide_kind(
        line_shape_of(s),
        wire_id_of(s),
        wire_has_method_of(s),
        wire_has_result_of(s),
        wire_has_error_of(s),
        wire_error_code_of(s),
        wire_error_message_of(s),
    )
}

/// Classify one inbound wire line. The kind that comes back — the variant,
/// the id, and for an error its code and message — is exactly what the
/// decision table says of this line; only a response's payload is beyond
/// the contract, carried through opaquely.
pub fn classify_line(line: &str) -> (m: Inbound)
    ensures
        m.kind() == inbound_kind_of(line@),
{
    let (shape, id_shape, has_method) = read_head(line);
    match shape {
        LineShape::NotJson => Inbound::Invalid,
        LineShape::NotObject => Inbound::Other,
        LineShape::Object => {
            let (payload, has_error) = read_reply_fields(line);
            match id_shape {
                IdShape::Absent => {
                    if has_method {
                        Inbound::Notification
                    } else {
                        Inbound::Other
                    }
                },
                IdShape::NonInteger => {
                    if payload.is_some() || has_error {
                        Inbound::UnmatchedReply
                    } else {
                        Inbound::Other
                    }
                },
                IdShape::Integer(id) => {
                    match payload {
                        Some(payload) => Inbound::Response { id, payload },
                        None => {
                            if has_error {
                                match read_error(line) {
                                    (Some(code), Some(message)) => Inbound::Failure {
                                        id,
                                        code,
                                        message,
                                    },
                                    _ => Inbound::Invalid,
                                }
                            } else {
                                Inbound::Other
                            }
                        },
                    }
                },
            }
        },
    }
}

} // verus!
