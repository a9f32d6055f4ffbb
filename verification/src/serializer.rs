//! The serializer role: a transient object produced by a supplier that either
//! exposes a borrowed view of an encoded buffer, or can be consumed to yield
//! an owned one. Two concrete serializers per role, one for each data origin
//! (raw values still to be encoded, and pre-serialized bytes).

use vstd::prelude::*;

use scylla_cql::serialize::SerializationError;
use scylla_cql::serialize::row::SerializedValues;

use crate::cql::sv_bytes;
use crate::cql::sv_count;
use crate::row::EncodableRow;
use crate::statement::PreparedStatement;
use crate::statement::row_encode_of;

verus! {

/// A serializer exposing a borrowed view of serialized values. Any encoding
/// work was done when the serializer was created, so the accessor is pure and
/// cannot fail.
pub trait SerializesValuesBorrowed<T: EncodableRow> {
    /// The buffer value the view exposes.
    spec fn buffer(&self) -> SerializedValues;

    /// A reference to the encoded buffer, valid for as long as the
    /// serializer itself: exactly the buffer the serializer wraps.
    fn as_serialized(&self) -> (r: &SerializedValues)
        ensures
            *r == self.buffer(),
    ;
}

/// A serializer that can be consumed to yield owned serialized values. For a
/// raw-value origin this is where encoding may actually happen; for a
/// pre-serialized origin it is a pure move.
pub trait SerializesValuesOwned<T: EncodableRow>: Sized {
    /// What consumption yields: the buffer's bytes, or `None` where the
    /// deferred encode step fails.
    spec fn result_model(&self) -> Option<Seq<u8>>;

    /// The exact buffer value consumption returns, where it is known in
    /// advance: the stored buffer for a pre-serialized origin; `None` for a
    /// raw origin, whose buffer the encoder creates only on consumption.
    spec fn result_exact(&self) -> Option<SerializedValues>;

    /// Consumes the serializer and returns the encoded buffer, or the
    /// encoder's error unchanged. Where the exact buffer is known in advance
    /// it is returned itself, by move.
    fn into_serialized(self) -> (r: Result<SerializedValues, SerializationError>)
        ensures
            r is Ok <==> self.result_model() is Some,
            (r matches Ok(sv) ==> Some(sv_bytes(sv)) == self.result_model()),
            (self.result_exact() matches Some(b) ==> r == Ok::<SerializedValues, SerializationError>(b)),
    ;
}

/// Borrowed serializer for raw values: owns a buffer encoded once, at
/// construction, and lends it out.
pub struct BorrowedValueSerializer {
    /// The buffer encoded when this serializer was created.
    pub values: SerializedValues,
}

impl BorrowedValueSerializer {
    /// Wraps a freshly encoded buffer.
    pub fn new(values: SerializedValues) -> (r: Self)
        ensures
            r.values == values,
    {
        BorrowedValueSerializer { values }
    }
}

impl<T: EncodableRow> SerializesValuesBorrowed<T> for BorrowedValueSerializer {
    open spec fn buffer(&self) -> SerializedValues {
        self.values
    }

    fn as_serialized(&self) -> (r: &SerializedValues) {
        &self.values
    }
}

/// Borrowed serializer for pre-serialized values: wraps a reference to an
/// existing buffer, copying nothing.
pub struct BorrowedPreSerializedSerializer<'p> {
    /// The existing buffer the view points into.
    pub values: &'p SerializedValues,
}

impl<'p> BorrowedPreSerializedSerializer<'p> {
    /// Wraps a reference to an existing buffer.
    pub fn new(values: &'p SerializedValues) -> (r: Self)
        ensures
            r.values == values,
    {
        BorrowedPreSerializedSerializer { values }
    }
}

impl<'p, T: EncodableRow> SerializesValuesBorrowed<T> for BorrowedPreSerializedSerializer<'p> {
    open spec fn buffer(&self) -> SerializedValues {
        *self.values
    }

    fn as_serialized(&self) -> (r: &SerializedValues) {
        self.values
    }
}

/// Owned serializer for raw values: holds the statement metadata and the
/// moved-in values, and encodes them only when consumed. If it is never
/// consumed, no encoding happens at all.
pub struct OwnedValueSerializer<'p, T: EncodableRow> {
    /// The statement whose bind markers the values will be encoded against.
    pub prepared: &'p PreparedStatement,
    /// The raw values, moved in from the supplier.
    pub values: T,
}

impl<'p, T: EncodableRow> OwnedValueSerializer<'p, T> {
    /// Packages the statement reference and the moved values; encodes
    /// nothing yet.
    pub fn new(prepared: &'p PreparedStatement, values: T) -> (r: Self)
        ensures
            r.prepared == prepared,
            r.values == values,
    {
        OwnedValueSerializer { prepared, values }
    }
}

impl<'p, T: EncodableRow> SerializesValuesOwned<T> for OwnedValueSerializer<'p, T> {
    open spec fn result_model(&self) -> Option<Seq<u8>> {
        row_encode_of(self.prepared@, self.values.model())
    }

    open spec fn result_exact(&self) -> Option<SerializedValues> {
        None
    }

    fn into_serialized(self) -> (r: Result<SerializedValues, SerializationError>)
        ensures
            r is Ok ==> self.values.model().len() == self.prepared@.len(),
            (r matches Ok(sv) ==> sv_count(sv) == self.values.model().len()),
    {
        self.prepared.serialize_values(&self.values)
    }
}

/// Owned serializer for pre-serialized values: consumption moves the stored
/// buffer out unchanged, and cannot fail.
pub struct OwnedPreSerializedSerializer {
    /// The buffer that consumption will return.
    pub values: SerializedValues,
}

impl OwnedPreSerializedSerializer {
    /// Wraps an owned buffer.
    pub fn new(values: SerializedValues) -> (r: Self)
        ensures
            r.values == values,
    {
        OwnedPreSerializedSerializer { values }
    }
}

impl<T: EncodableRow> SerializesValuesOwned<T> for OwnedPreSerializedSerializer {
    open spec fn result_model(&self) -> Option<Seq<u8>> {
        Some(sv_bytes(self.values))
    }

    open spec fn result_exact(&self) -> Option<SerializedValues> {
        Some(self.values)
    }

    fn into_serialized(self) -> (r: Result<SerializedValues, SerializationError>) {
        Ok(self.values)
    }
}

} // verus!
