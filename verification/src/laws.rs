//! The laws this layer guarantees, stated over the suppliers' models. Each
//! follows from the contracts of the supplier and serializer methods; they
//! are recorded here so a reader sees them stated, not merely implied.
//!
//! One law has no lemma because it is structural rather than stated: a
//! consuming supplier is single-use. `into_owned_serializer` takes the
//! supplier by value, so a second use of the same supplier is rejected by the
//! compiler — ownership transfer, not a runtime flag.

use vstd::prelude::*;

use crate::cql::sv_bytes;
use crate::cql::sv_count;
use crate::row::EncodableRow;
use crate::statement::PreparedStatement;
use crate::supplier::ConsumingSupplier;
use crate::supplier::NonConsumingSupplier;
use crate::supplier::PreSerializedSupplier;
use crate::supplier::ValuesSerializationSupplier;

verus! {

/// Non-consuming borrows are pure: what a borrow call against a statement
/// yields is a function of the supplier and the statement alone, so any two
/// successful borrow calls on one supplier against the same statement produce
/// buffers with identical content. Every successful `for_prepared_borrow`
/// call returns a serializer whose content its contract pins to
/// `borrow_model`, which these premises restate.
pub proof fn lemma_nonconsuming_borrow_purity<'p, T, S>(
    sup: &S,
    prepared: &PreparedStatement,
    first: Seq<u8>,
    second: Seq<u8>,
) where T: EncodableRow, S: NonConsumingSupplier<'p, T>
    requires
        Some(first) == sup.borrow_model(*prepared),
        Some(second) == sup.borrow_model(*prepared),
    ensures
        first == second,
{
}

/// A pre-serialized supplier's borrow path ignores the statement entirely:
/// against every statement, a borrow call exposes the stored buffer itself —
/// the very value, not merely equal bytes.
pub proof fn lemma_preserialized_borrow_returns_stored<'p, T: EncodableRow>(
    sup: &'p PreSerializedSupplier,
    prepared: PreparedStatement,
)
    ensures
        <PreSerializedSupplier as NonConsumingSupplier<'p, T>>::borrow_model(sup, prepared)
            == Some(sv_bytes(sup.values)),
        <PreSerializedSupplier as NonConsumingSupplier<'p, T>>::borrow_exact(sup)
            == Some(sup.values),
{
}

/// A pre-serialized supplier's consuming path, against every statement,
/// yields an owned serializer whose consumption returns the stored buffer
/// itself — the very value, moved out unchanged — and cannot fail. That the
/// path is callable at most once is structural: `into_owned_serializer`
/// takes the supplier by value.
pub proof fn lemma_preserialized_consume_returns_stored<'p, T: EncodableRow>(
    sup: PreSerializedSupplier,
    prepared: PreparedStatement,
)
    ensures
        <PreSerializedSupplier as ConsumingSupplier<'p, T>>::consume_model(&sup, prepared)
            == Some(sv_bytes(sup.values)),
        <PreSerializedSupplier as ConsumingSupplier<'p, T>>::consume_exact(&sup)
            == Some(sup.values),
{
}

/// A raw-value supplier reports as empty exactly when its wrapped values are
/// empty, and both its roles agree on that answer.
pub proof fn lemma_raw_supplier_emptiness<'p, T: EncodableRow + 'p>(
    sup: &ValuesSerializationSupplier<T>,
)
    ensures
        <ValuesSerializationSupplier<T> as NonConsumingSupplier<'p, T>>::empty_model(sup)
            == (sup.values.model().len() == 0),
        <ValuesSerializationSupplier<T> as ConsumingSupplier<'p, T>>::empty_model(sup)
            == (sup.values.model().len() == 0),
{
}

/// A pre-serialized supplier reports as empty exactly when its stored buffer
/// is empty — never by looking at any statement — and both its roles agree
/// on that answer.
pub proof fn lemma_preserialized_supplier_emptiness<'p, T: EncodableRow>(
    sup: &'p PreSerializedSupplier,
)
    ensures
        <PreSerializedSupplier as NonConsumingSupplier<'p, T>>::empty_model(sup)
            == (sv_count(sup.values) == 0),
        <PreSerializedSupplier as ConsumingSupplier<'p, T>>::empty_model(sup)
            == (sv_count(sup.values) == 0),
{
}

} // verus!
