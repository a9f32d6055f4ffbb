//! Trusted declarations for the scylla-cql types that cross this layer's
//! boundary: the encoded buffer, the encoder's error, a column specification,
//! and a single typed CQL value. All four are opaque here; what the contracts
//! need of an encoded buffer is captured by two named quantities, its bytes
//! and its element count.

use vstd::prelude::*;

use scylla_cql::frame::response::result::ColumnSpec;
use scylla_cql::serialize::SerializationError;
use scylla_cql::serialize::row::SerializedValues;
use scylla_cql::value::CqlValue;

verus! {

/// Declares scylla-cql's `SerializedValues`: the encoded, wire-ready buffer of
/// bind values that this layer hands around but never inspects.
#[verifier::external_type_specification]
#[verifier::external_body]
pub struct ExSerializedValues(SerializedValues);

/// Declares scylla-cql's `SerializationError`: the error the encoder raises
/// when values do not fit a statement's bind markers. Propagated unchanged.
#[verifier::external_type_specification]
#[verifier::external_body]
pub struct ExSerializationError(SerializationError);

/// Declares scylla-cql's `ColumnSpec`: the description of one bind marker
/// (name, type, table) of a prepared statement.
#[verifier::external_type_specification]
#[verifier::external_body]
pub struct ExColumnSpec<'frame>(ColumnSpec<'frame>);

/// Declares scylla-cql's `CqlValue`: one typed, still-unencoded bind value.
#[verifier::external_type_specification]
#[verifier::external_body]
pub struct ExCqlValue(CqlValue);

/// The bytes a `SerializedValues` buffer holds, in wire order.
pub uninterp spec fn sv_bytes(sv: SerializedValues) -> Seq<u8>;

/// The number of encoded column values a `SerializedValues` buffer holds.
pub uninterp spec fn sv_count(sv: SerializedValues) -> int;

/// Relies on scylla-cql's `SerializedValues::is_empty`, which is true exactly
/// when the buffer's element count is zero.
#[verifier::external_body]
pub(crate) fn sv_is_empty(sv: &SerializedValues) -> (r: bool)
    ensures
        r == (sv_count(*sv) == 0),
{
    sv.is_empty()
}

} // verus!
