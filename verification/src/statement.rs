//! Prepared-statement metadata as this layer sees it: the ordered column
//! specifications of the statement's bind markers, together with the trusted
//! call into scylla-cql that encodes a row of values against them.

use vstd::prelude::*;

use scylla_cql::frame::response::result::ColumnSpec;
use scylla_cql::serialize::SerializationError;
use scylla_cql::serialize::row::RowSerializationContext;
use scylla_cql::serialize::row::SerializedValues;
use scylla_cql::value::CqlValue;

use crate::cql::sv_bytes;
use crate::cql::sv_count;
use crate::row::EncodableRow;

verus! {

/// Metadata of a prepared statement: one column specification per bind
/// marker, in the statement's declared order. This layer only ever reads it
/// for the duration of an encode call.
pub struct PreparedStatement {
    /// One column specification per bind marker, in declared order.
    pub specs: Vec<ColumnSpec<'static>>,
}

impl View for PreparedStatement {
    type V = Seq<ColumnSpec<'static>>;

    open spec fn view(&self) -> Seq<ColumnSpec<'static>> {
        self.specs@
    }
}

/// The outcome of encoding a row of CQL values against a statement's column
/// specifications: the bytes of the resulting buffer, or `None` where the
/// encoder rejects the row. The encoder is deterministic, so the outcome is a
/// function of the specifications and the values alone.
pub uninterp spec fn row_encode_of(
    specs: Seq<ColumnSpec<'static>>,
    values: Seq<CqlValue>,
) -> Option<Seq<u8>>;

/// Relies on scylla-cql's `SerializedValues::from_serializable` over
/// `RowSerializationContext::from_specs`: for a `Vec<CqlValue>` row the
/// outcome depends on the column specifications and the values alone; on
/// success one element is written per value, and a row whose length disagrees
/// with the number of column specifications is rejected with an error.
#[verifier::external_body]
pub(crate) fn encode_cql_row(
    prepared: &PreparedStatement,
    values: &Vec<CqlValue>,
) -> (r: Result<SerializedValues, SerializationError>)
    ensures
        r is Ok <==> row_encode_of(prepared@, values@) is Some,
        (r matches Ok(sv) ==> Some(sv_bytes(sv)) == row_encode_of(prepared@, values@)),
        (r matches Ok(sv) ==> sv_count(sv) == values@.len()),
        r is Ok ==> values@.len() == prepared@.len(),
{
    let ctx = RowSerializationContext::from_specs(prepared.specs.as_slice());
    SerializedValues::from_serializable(&ctx, values)
}

impl PreparedStatement {
    /// Wraps the given column specifications, one per bind marker, in the
    /// statement's declared order.
    pub fn new(specs: Vec<ColumnSpec<'static>>) -> (r: Self)
        ensures
            r@ == specs@,
    {
        PreparedStatement { specs }
    }

    /// The number of bind markers the statement declares.
    pub fn bind_marker_count(&self) -> (r: usize)
        ensures
            r == self@.len(),
    {
        self.specs.len()
    }

    /// Encodes a row of raw values against this statement's bind markers,
    /// returning the encoded buffer or the encoder's error unchanged.
    pub fn serialize_values<T: EncodableRow>(&self, values: &T) -> (r: Result<
        SerializedValues,
        SerializationError,
    >)
        ensures
            r is Ok <==> row_encode_of(self@, values.model()) is Some,
            (r matches Ok(sv) ==> Some(sv_bytes(sv)) == row_encode_of(self@, values.model())),
            (r matches Ok(sv) ==> sv_count(sv) == values.model().len()),
            r is Ok ==> values.model().len() == self@.len(),
    {
        values.encode(self)
    }
}

} // verus!
