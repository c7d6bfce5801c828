//! Remote errors and their normalization.
//!
//! A failed call carries the daemon's exception in its native, untyped form
//! ([`GenericError`]). Normalization turns that record into a
//! [`SpecializedError`]: a typed variant for the recognized exception
//! shapes, or the original record unchanged for everything else.

use vstd::prelude::*;
use crate::add_torrent::{AddTorrentError, display_of, message_error};
use crate::text::str_eq;
use crate::value::Value;

verus! {

/// An exception raised by the remote daemon, in its native untyped form:
/// exception name, positional arguments, keyword arguments and traceback
/// text, exactly as decoded from a failed-response wire message.
#[derive(Debug, PartialEq, Eq)]
pub struct GenericError {
    pub exception: String,
    pub args: Vec<Value>,
    pub kwargs: Vec<(String, Value)>,
    pub traceback: String,
}

impl GenericError {
    /// Assemble the record from the four wire fields, in wire order.
    pub fn from_parts(
        exception: String,
        args: Vec<Value>,
        kwargs: Vec<(String, Value)>,
        traceback: String,
    ) -> (r: GenericError)
        ensures
            r == (GenericError { exception, args, kwargs, traceback }),
    {
        GenericError { exception, args, kwargs, traceback }
    }

    /// Display text of the error: the daemon's traceback.
    pub fn display_string(&self) -> (r: String)
        ensures
            r@ == self.traceback@,
    {
        self.traceback.clone()
    }
}

/// A remote error after normalization: a typed variant for a recognized
/// exception, or the untouched generic record for everything else.
#[derive(Debug, PartialEq, Eq)]
pub enum SpecializedError {
    AddTorrent(AddTorrentError),
    Generic(GenericError),
}

/// The recognized shape: the torrent-add exception name with exactly one
/// text-typed positional argument.
pub open spec fn add_torrent_shape(err: GenericError) -> bool {
    &&& err.exception@ == "AddTorrentError"@
    &&& err.args@.len() == 1
    &&& err.args@[0] is Str
}

impl SpecializedError {
    /// Well-formedness of the carried data.
    pub open spec fn wf(&self) -> bool {
        match self {
            SpecializedError::AddTorrent(e) => e.wf(),
            SpecializedError::Generic(_) => true,
        }
    }

    /// Normalize a generic remote error.
    ///
    /// Exactly the torrent-add exception carrying one text argument is
    /// specialized further, by classifying its message text; every other
    /// record passes through unchanged, traceback included.
    pub fn specialize(err: GenericError) -> (r: SpecializedError)
        ensures
            add_torrent_shape(err) ==> (
                r matches SpecializedError::AddTorrent(e) && e@ == message_error(err.args@[0]->Str_0@)
            ),
            !add_torrent_shape(err) ==> r == SpecializedError::Generic(err),
            r.wf(),
    {
        if err.args.len() == 1 && str_eq(err.exception.as_str(), "AddTorrentError") {
            if let Value::Str(m) = &err.args[0] {
                let e = AddTorrentError::from_message(m.as_str());
                return SpecializedError::AddTorrent(e);
            }
        }
        SpecializedError::Generic(err)
    }

    /// Human-readable description of the error.
    pub fn display_string(&self) -> (r: String)
        requires
            self.wf(),
        ensures
            self matches SpecializedError::AddTorrent(e) ==> r@ == "AddTorrentError: "@ + display_of(e@),
            self matches SpecializedError::Generic(e) ==> r@ == e.traceback@,
    {
        match self {
            SpecializedError::AddTorrent(e) => {
                let mut s = String::from_str("AddTorrentError: ");
                let d = e.display_string();
                s.append(d.as_str());
                s
            },
            SpecializedError::Generic(e) => e.display_string(),
        }
    }
}

} // verus!
