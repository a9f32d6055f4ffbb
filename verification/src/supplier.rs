//! The supplier role: the entity holding the not-yet-finalized source of bind
//! values. A non-consuming supplier can be asked repeatedly for a borrowed
//! serializer; a consuming supplier is used exactly once, moving its insides
//! into an owned serializer. Each concrete supplier implements both roles.

use vstd::prelude::*;

use scylla_cql::serialize::SerializationError;
use scylla_cql::serialize::row::SerializedValues;

use crate::cql::sv_bytes;
use crate::cql::sv_count;
use crate::cql::sv_is_empty;
use crate::row::EncodableRow;
use crate::serializer::BorrowedPreSerializedSerializer;
use crate::serializer::BorrowedValueSerializer;
use crate::serializer::OwnedPreSerializedSerializer;
use crate::serializer::OwnedValueSerializer;
use crate::serializer::SerializesValuesBorrowed;
use crate::serializer::SerializesValuesOwned;
use crate::statement::PreparedStatement;
use crate::statement::row_encode_of;

verus! {

/// A supplier usable many times without being destroyed: each call against a
/// prepared statement independently produces a fresh borrowed serializer
/// scoped to that call. What a call yields is a function of the supplier and
/// the statement alone — no hidden accumulation, no caching.
pub trait NonConsumingSupplier<'p, T: EncodableRow> where Self: 'p {
    /// The borrowed serializer this supplier produces; its lifetime is tied
    /// to the supplier and the statement it was produced with.
    type BorrowSerializer: SerializesValuesBorrowed<T>;

    /// Whether the supplier's value source is empty.
    spec fn empty_model(&self) -> bool;

    /// The bytes a borrow call against the given statement yields, or `None`
    /// where the encoder rejects the values.
    spec fn borrow_model(&self, prepared: PreparedStatement) -> Option<Seq<u8>>;

    /// The exact buffer value a borrow call exposes, where it is known in
    /// advance: the stored buffer for a pre-serialized origin; `None` for a
    /// raw origin, which encodes a fresh buffer per call.
    spec fn borrow_exact(&self) -> Option<SerializedValues>;

    /// Whether the wrapped value source holds no values.
    fn is_empty(&self) -> (r: bool)
        ensures
            r == self.empty_model(),
    ;

    /// Produces a fresh borrowed serializer for the given statement, leaving
    /// the supplier intact, or surfaces the encoder's error.
    fn for_prepared_borrow(&'p self, prepared: &'p PreparedStatement) -> (r: Result<
        Self::BorrowSerializer,
        SerializationError,
    >)
        ensures
            r is Ok <==> self.borrow_model(*prepared) is Some,
            (r matches Ok(s) ==> Some(sv_bytes(s.buffer())) == self.borrow_model(*prepared)),
            (r matches Ok(s) ==> (self.borrow_exact() matches Some(b) ==> s.buffer() == b)),
    ;
}

/// A supplier consumed to produce an owned serializer: the call takes
/// ownership of the supplier, so it can be made at most once, and the
/// produced serializer borrows nothing from the supplier.
pub trait ConsumingSupplier<'p, T: EncodableRow>: Sized {
    /// The owned serializer this supplier turns into; it may borrow the
    /// statement, never the supplier.
    type OwnedSerializer: SerializesValuesOwned<T>;

    /// Whether the supplier's value source is empty.
    spec fn empty_model(&self) -> bool;

    /// The bytes the produced owned serializer will yield when consumed, or
    /// `None` where its deferred encode step will fail.
    spec fn consume_model(&self, prepared: PreparedStatement) -> Option<Seq<u8>>;

    /// The exact buffer value the produced owned serializer holds, where it
    /// is known in advance: the stored buffer for a pre-serialized origin,
    /// moved out unchanged; `None` for a raw origin, which defers encoding.
    spec fn consume_exact(&self) -> Option<SerializedValues>;

    /// Whether the wrapped value source holds no values.
    fn is_empty(&self) -> (r: bool)
        ensures
            r == self.empty_model(),
    ;

    /// Consumes the supplier into an owned serializer for the given
    /// statement. The transfer itself cannot fail; an encode failure, if
    /// any, surfaces when the serializer is consumed in turn.
    fn into_owned_serializer(self, prepared: &'p PreparedStatement) -> (r: Result<
        Self::OwnedSerializer,
        SerializationError,
    >)
        ensures
            r is Ok,
            (r matches Ok(s) ==> s.result_model() == self.consume_model(*prepared)),
            (r matches Ok(s) ==> s.result_exact() == self.consume_exact()),
    ;
}

/// Supplier for raw values. Non-consuming use re-encodes on demand, once per
/// borrow call, against the statement given to that call; consuming use moves
/// the values out and defers encoding to the owned serializer.
pub struct ValuesSerializationSupplier<T: EncodableRow> {
    /// The raw bind values.
    pub values: T,
}

impl<T: EncodableRow> ValuesSerializationSupplier<T> {
    /// Wraps raw bind values.
    pub fn new(values: T) -> (r: Self)
        ensures
            r.values == values,
    {
        ValuesSerializationSupplier { values }
    }
}

impl<'p, T: EncodableRow + 'p> NonConsumingSupplier<'p, T> for ValuesSerializationSupplier<T> {
    type BorrowSerializer = BorrowedValueSerializer;

    open spec fn empty_model(&self) -> bool {
        self.values.model().len() == 0
    }

    open spec fn borrow_model(&self, prepared: PreparedStatement) -> Option<Seq<u8>> {
        row_encode_of(prepared@, self.values.model())
    }

    open spec fn borrow_exact(&self) -> Option<SerializedValues> {
        None
    }

    fn is_empty(&self) -> (r: bool) {
        self.values.is_empty()
    }

    fn for_prepared_borrow(&'p self, prepared: &'p PreparedStatement) -> (r: Result<
        Self::BorrowSerializer,
        SerializationError,
    >)
        ensures
            r is Ok ==> self.values.model().len() == prepared@.len(),
            (r matches Ok(s) ==> sv_count(s.values) == self.values.model().len()),
    {
        match prepared.serialize_values(&self.values) {
            Ok(values) => Ok(BorrowedValueSerializer::new(values)),
            Err(e) => Err(e),
        }
    }
}

impl<'p, T: EncodableRow + 'p> ConsumingSupplier<'p, T> for ValuesSerializationSupplier<T> {
    type OwnedSerializer = OwnedValueSerializer<'p, T>;

    open spec fn empty_model(&self) -> bool {
        self.values.model().len() == 0
    }

    open spec fn consume_model(&self, prepared: PreparedStatement) -> Option<Seq<u8>> {
        row_encode_of(prepared@, self.values.model())
    }

    open spec fn consume_exact(&self) -> Option<SerializedValues> {
        None
    }

    fn is_empty(&self) -> (r: bool) {
        self.values.is_empty()
    }

    fn into_owned_serializer(self, prepared: &'p PreparedStatement) -> (r: Result<
        Self::OwnedSerializer,
        SerializationError,
    >)
        ensures
            (r matches Ok(s) ==> s.prepared == prepared),
            (r matches Ok(s) ==> s.values == self.values),
    {
        Ok(OwnedValueSerializer::new(prepared, self.values))
    }
}

/// Supplier for pre-serialized values: never encodes and never copies, it
/// only redistributes ownership of, or a borrow of, the stored buffer. The
/// statement argument of either role is ignored entirely.
pub struct PreSerializedSupplier {
    /// The already-encoded buffer.
    pub values: SerializedValues,
}

impl PreSerializedSupplier {
    /// Wraps an already-encoded buffer.
    pub fn new(values: SerializedValues) -> (r: Self)
        ensures
            r.values == values,
    {
        PreSerializedSupplier { values }
    }
}

impl<'p, T: EncodableRow> NonConsumingSupplier<'p, T> for PreSerializedSupplier {
    type BorrowSerializer = BorrowedPreSerializedSerializer<'p>;

    open spec fn empty_model(&self) -> bool {
        sv_count(self.values) == 0
    }

    open spec fn borrow_model(&self, prepared: PreparedStatement) -> Option<Seq<u8>> {
        Some(sv_bytes(self.values))
    }

    open spec fn borrow_exact(&self) -> Option<SerializedValues> {
        Some(self.values)
    }

    fn is_empty(&self) -> (r: bool) {
        sv_is_empty(&self.values)
    }

    fn for_prepared_borrow(&'p self, prepared: &'p PreparedStatement) -> (r: Result<
        Self::BorrowSerializer,
        SerializationError,
    >) {
        Ok(BorrowedPreSerializedSerializer::new(&self.values))
    }
}

impl<'p, T: EncodableRow> ConsumingSupplier<'p, T> for PreSerializedSupplier {
    type OwnedSerializer = OwnedPreSerializedSerializer;

    open spec fn empty_model(&self) -> bool {
        sv_count(self.values) == 0
    }

    open spec fn consume_model(&self, prepared: PreparedStatement) -> Option<Seq<u8>> {
        Some(sv_bytes(self.values))
    }

    open spec fn consume_exact(&self) -> Option<SerializedValues> {
        Some(self.values)
    }

    fn is_empty(&self) -> (r: bool) {
        sv_is_empty(&self.values)
    }

    fn into_owned_serializer(self, prepared: &'p PreparedStatement) -> (r: Result<
        Self::OwnedSerializer,
        SerializationError,
    >) {
        Ok(OwnedPreSerializedSerializer::new(self.values))
    }
}

} // verus!
