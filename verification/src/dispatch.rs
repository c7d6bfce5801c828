//! The inbound message dispatcher.
//!
//! A transport frame decodes to an ordered sequence of loosely-typed
//! values whose first element is a small integer tag. The dispatcher
//! validates the tag, then decodes only the positions that tag requires,
//! producing exactly one [`Inbound`] variant or a [`DecodeError`] local to
//! this one message. It is a pure function: each call is independent and
//! retains nothing.

use vstd::prelude::*;
use crate::error::GenericError;
use crate::value::Value;

verus! {

/// Why one wire message could not be decoded.
#[derive(Debug, PartialEq, Eq)]
pub enum DecodeError {
    /// A position the tag requires is not present.
    MissingElement,
    /// A required position holds a value of the wrong type.
    WrongType,
    /// The leading tag is an integer outside the recognized set.
    UnknownTag,
}

/// One decoded unit of the wire protocol: a response correlated to an
/// outstanding request, or an out-of-band event notification.
#[derive(Debug, PartialEq, Eq)]
pub enum Inbound {
    Response { request_id: i64, result: Result<Vec<Value>, GenericError> },
    Event { event_name: String, data: Vec<Value> },
}

/// Shorthand for a failed decode.
pub open spec fn fail(e: DecodeError) -> Result<Inbound, DecodeError> {
    Err(e)
}

/// Whether a tag-1 (successful response) message has its required
/// positions: an integer request id; the payload at position 2 may have
/// any shape.
pub open spec fn tag1_shape(s: Seq<Value>) -> bool {
    s.len() >= 3 && s[1] is Int
}

/// Whether a tag-2 (failed response) message has its required positions:
/// an integer request id and the four error fields in wire order.
pub open spec fn tag2_shape(s: Seq<Value>) -> bool {
    &&& s.len() >= 6
    &&& s[1] is Int
    &&& s[2] is Str
    &&& s[3] is List
    &&& s[4] is Dict
    &&& s[5] is Str
}

/// Whether a tag-3 (event) message has its required positions: a text
/// event name and a list of event data.
pub open spec fn tag3_shape(s: Seq<Value>) -> bool {
    s.len() >= 3 && s[1] is Str && s[2] is List
}

/// What decoding a tag-1 message returns: the request id from position 1,
/// and the payload from position 2 — taken verbatim when it is a list,
/// wrapped as a one-element list when the daemon sent a single scalar
/// (null, boolean, integer or text). Only that single-scalar fallback is
/// supported: a mapping payload is a shape mismatch and fails.
pub open spec fn tag1_post(s: Seq<Value>, r: Result<Inbound, DecodeError>) -> bool {
    &&& (s.len() < 3 ==> r == fail(DecodeError::MissingElement))
    &&& (s.len() >= 3 && !(s[1] is Int) ==> r == fail(DecodeError::WrongType))
    &&& (tag1_shape(s) && s[2] is Dict ==> r == fail(DecodeError::WrongType))
    &&& (tag1_shape(s) && !(s[2] is Dict) ==> {
        &&& r matches Ok(m)
        &&& m matches Inbound::Response { request_id, result }
        &&& Value::Int(request_id) == s[1]
        &&& result matches Ok(payload)
        &&& if s[2] is List {
            Value::List(payload) == s[2]
        } else {
            payload@ == seq![s[2]]
        }
    })
}

/// What decoding a tag-2 message returns: the request id from position 1
/// and a generic error built from positions 2 through 5, in wire order,
/// unmodified.
pub open spec fn tag2_post(s: Seq<Value>, r: Result<Inbound, DecodeError>) -> bool {
    &&& (s.len() < 6 ==> r == fail(DecodeError::MissingElement))
    &&& (s.len() >= 6 && !tag2_shape(s) ==> r == fail(DecodeError::WrongType))
    &&& (tag2_shape(s) ==> {
        &&& r matches Ok(m)
        &&& m matches Inbound::Response { request_id, result }
        &&& Value::Int(request_id) == s[1]
        &&& result matches Err(e)
        &&& Value::Str(e.exception) == s[2]
        &&& Value::List(e.args) == s[3]
        &&& Value::Dict(e.kwargs) == s[4]
        &&& Value::Str(e.traceback) == s[5]
    })
}

/// What decoding a tag-3 message returns: the event name from position 1
/// and the event data list from position 2, preserved in order.
pub open spec fn tag3_post(s: Seq<Value>, r: Result<Inbound, DecodeError>) -> bool {
    &&& (s.len() < 3 ==> r == fail(DecodeError::MissingElement))
    &&& (s.len() >= 3 && !(s[1] is Str && s[2] is List) ==> r == fail(DecodeError::WrongType))
    &&& (tag3_shape(s) ==> {
        &&& r matches Ok(m)
        &&& m matches Inbound::Event { event_name, data }
        &&& Value::Str(event_name) == s[1]
        &&& Value::List(data) == s[2]
    })
}

/// Full contract of [`Inbound::decode`]: the leading tag selects the
/// message shape, and only the recognized tags 1, 2 and 3 decode.
pub open spec fn decode_post(s: Seq<Value>, r: Result<Inbound, DecodeError>) -> bool {
    &&& (s.len() == 0 ==> r == fail(DecodeError::MissingElement))
    &&& (s.len() > 0 ==> match s[0] {
        Value::Int(tag) => {
            if tag == 1 {
                tag1_post(s, r)
            } else if tag == 2 {
                tag2_post(s, r)
            } else if tag == 3 {
                tag3_post(s, r)
            } else {
                r == fail(DecodeError::UnknownTag)
            }
        },
        _ => r == fail(DecodeError::WrongType),
    })
}

impl Inbound {
    /// Decode one raw wire message.
    ///
    /// Pure and stateless; a failure concerns this one message only and
    /// leaves no trace on the channel.
    pub fn decode(data: Vec<Value>) -> (r: Result<Inbound, DecodeError>)
        ensures
            decode_post(data@, r),
    {
        let mut d = data;
        if d.len() == 0 {
            return Err(DecodeError::MissingElement);
        }
        let tag: i64 = match &d[0] {
            Value::Int(t) => *t,
            _ => { return Err(DecodeError::WrongType); },
        };
        if tag == 1 {
            if d.len() < 3 {
                return Err(DecodeError::MissingElement);
            }
            let request_id: i64 = match &d[1] {
                Value::Int(i) => *i,
                _ => { return Err(DecodeError::WrongType); },
            };
            let payload = d.remove(2);
            let list: Vec<Value> = match payload {
                Value::List(vs) => vs,
                Value::Dict(_) => { return Err(DecodeError::WrongType); },
                other => {
                    let mut v: Vec<Value> = Vec::new();
                    v.push(other);
                    v
                },
            };
            Ok(Inbound::Response { request_id, result: Ok(list) })
        } else if tag == 2 {
            if d.len() < 6 {
                return Err(DecodeError::MissingElement);
            }
            let request_id: i64 = match &d[1] {
                Value::Int(i) => *i,
                _ => { return Err(DecodeError::WrongType); },
            };
            let exception: String = match d.remove(2) {
                Value::Str(x) => x,
                _ => { return Err(DecodeError::WrongType); },
            };
            let args: Vec<Value> = match d.remove(2) {
                Value::List(x) => x,
                _ => { return Err(DecodeError::WrongType); },
            };
            let kwargs: Vec<(String, Value)> = match d.remove(2) {
                Value::Dict(x) => x,
                _ => { return Err(DecodeError::WrongType); },
            };
            let traceback: String = match d.remove(2) {
                Value::Str(x) => x,
                _ => { return Err(DecodeError::WrongType); },
            };
            Ok(Inbound::Response {
                request_id,
                result: Err(GenericError { exception, args, kwargs, traceback }),
            })
        } else if tag == 3 {
            if d.len() < 3 {
                return Err(DecodeError::MissingElement);
            }
            let event_name: String = match d.remove(1) {
                Value::Str(x) => x,
                _ => { return Err(DecodeError::WrongType); },
            };
            let event_data: Vec<Value> = match d.remove(1) {
                Value::List(x) => x,
                _ => { return Err(DecodeError::WrongType); },
            };
            Ok(Inbound::Event { event_name, data: event_data })
        } else {
            Err(DecodeError::UnknownTag)
        }
    }
}


} // verus!
