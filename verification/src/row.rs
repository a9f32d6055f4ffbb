//! The capability required of a type used as raw bind values: it models a row
//! of CQL values, reports its own emptiness, and can be encoded against a
//! prepared statement's bind markers.

use vstd::prelude::*;

use scylla_cql::serialize::SerializationError;
use scylla_cql::serialize::row::SerializedValues;
use scylla_cql::value::CqlValue;

use crate::cql::sv_bytes;
use crate::cql::sv_count;
use crate::statement::PreparedStatement;
use crate::statement::encode_cql_row;
use crate::statement::row_encode_of;

verus! {

/// A row of raw bind values that the external encoder accepts.
///
/// An implementor exposes its values as a sequence of CQL values, and its
/// encoding must be the canonical encoding of that sequence: a pure function
/// of the statement's column specifications and the modelled values, never of
/// any hidden state. Emptiness means the row holds no values at all.
pub trait EncodableRow: Sized {
    /// The row's values, in bind-marker order.
    spec fn model(&self) -> Seq<CqlValue>;

    /// Whether the row holds no values.
    fn is_empty(&self) -> (r: bool)
        ensures
            r == (self.model().len() == 0),
    ;

    /// Encodes the row against the given statement's bind markers. Succeeds
    /// exactly where the canonical encoding of the modelled values is
    /// defined; on success the buffer holds those bytes, one element per
    /// value, and the row's length matches the statement's marker count.
    fn encode(&self, prepared: &PreparedStatement) -> (r: Result<
        SerializedValues,
        SerializationError,
    >)
        ensures
            r is Ok <==> row_encode_of(prepared@, self.model()) is Some,
            (r matches Ok(sv) ==> Some(sv_bytes(sv)) == row_encode_of(prepared@, self.model())),
            (r matches Ok(sv) ==> sv_count(sv) == self.model().len()),
            r is Ok ==> self.model().len() == prepared@.len(),
    ;
}

impl EncodableRow for Vec<CqlValue> {
    open spec fn model(&self) -> Seq<CqlValue> {
        self@
    }

    fn is_empty(&self) -> (r: bool)
        ensures
            r == (self.model().len() == 0),
    {
        self.len() == 0
    }

    fn encode(&self, prepared: &PreparedStatement) -> (r: Result<
        SerializedValues,
        SerializationError,
    >)
        ensures
            r is Ok <==> row_encode_of(prepared@, self.model()) is Some,
            (r matches Ok(sv) ==> Some(sv_bytes(sv)) == row_encode_of(prepared@, self.model())),
            (r matches Ok(sv) ==> sv_count(sv) == self.model().len()),
            r is Ok ==> self.model().len() == prepared@.len(),
    {
        encode_cql_row(prepared, self)
    }
}

} // verus!
