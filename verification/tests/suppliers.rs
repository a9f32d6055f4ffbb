use scylla_cql::frame::response::result::ColumnSpec;
use scylla_cql::frame::response::result::ColumnType;
use scylla_cql::frame::response::result::NativeType;
use scylla_cql::frame::response::result::TableSpec;
use scylla_cql::serialize::SerializationError;
use scylla_cql::serialize::row::RowSerializationContext;
use scylla_cql::serialize::row::SerializedValues;
use scylla_cql::value::CqlValue;

use value_serializer::serializer::SerializesValuesBorrowed;
use value_serializer::serializer::SerializesValuesOwned;
use value_serializer::statement::PreparedStatement;
use value_serializer::supplier::ConsumingSupplier;
use value_serializer::supplier::NonConsumingSupplier;
use value_serializer::supplier::PreSerializedSupplier;
use value_serializer::supplier::ValuesSerializationSupplier;

fn spec(name: &str, typ: ColumnType<'static>) -> ColumnSpec<'static> {
    ColumnSpec::owned(
        String::from(name),
        typ,
        TableSpec::owned(String::from("ks"), String::from("people")),
    )
}

fn int_text_statement() -> PreparedStatement {
    PreparedStatement::new(vec![
        spec("id", ColumnType::Native(NativeType::Int)),
        spec("name", ColumnType::Native(NativeType::Text)),
    ])
}

fn int_statement() -> PreparedStatement {
    PreparedStatement::new(vec![spec("id", ColumnType::Native(NativeType::Int))])
}

fn text_int_statement() -> PreparedStatement {
    PreparedStatement::new(vec![
        spec("name", ColumnType::Native(NativeType::Text)),
        spec("id", ColumnType::Native(NativeType::Int)),
    ])
}

fn alice_values() -> Vec<CqlValue> {
    vec![CqlValue::Int(5), CqlValue::Text(String::from("Alice"))]
}

fn direct_encode(
    stmt: &PreparedStatement,
    values: &Vec<CqlValue>,
) -> Result<SerializedValues, SerializationError> {
    let ctx = RowSerializationContext::from_specs(stmt.specs.as_slice());
    SerializedValues::from_serializable(&ctx, values)
}

#[test]
fn raw_borrow_twice_same_statement_identical() {
    let stmt = int_text_statement();
    let sup = ValuesSerializationSupplier::new(alice_values());
    let first = sup.for_prepared_borrow(&stmt).unwrap();
    let second = sup.for_prepared_borrow(&stmt).unwrap();
    let first_buf = SerializesValuesBorrowed::<Vec<CqlValue>>::as_serialized(&first);
    let second_buf = SerializesValuesBorrowed::<Vec<CqlValue>>::as_serialized(&second);
    assert_eq!(first_buf, second_buf);
}

#[test]
fn raw_borrow_matches_direct_encoder() {
    let stmt = int_text_statement();
    let expected = direct_encode(&stmt, &alice_values()).unwrap();
    let sup = ValuesSerializationSupplier::new(alice_values());
    let ser = sup.for_prepared_borrow(&stmt).unwrap();
    let buf = SerializesValuesBorrowed::<Vec<CqlValue>>::as_serialized(&ser);
    assert_eq!(buf, &expected);
    assert!(!buf.is_empty());
    assert_eq!(buf.element_count(), 2);
}

#[test]
fn raw_consume_defers_encoding_to_owned_serializer() {
    let stmt = int_text_statement();
    let expected = direct_encode(&stmt, &alice_values()).unwrap();
    let sup = ValuesSerializationSupplier::new(alice_values());
    let owned = sup.into_owned_serializer(&stmt).unwrap();
    let buf = owned.into_serialized().unwrap();
    assert_eq!(buf, expected);
}

#[test]
fn preserialized_borrow_returns_stored_buffer() {
    let stmt = int_text_statement();
    let buffer = direct_encode(&stmt, &alice_values()).unwrap();
    let sup = PreSerializedSupplier::new(buffer.clone());
    let ser =
        NonConsumingSupplier::<Vec<CqlValue>>::for_prepared_borrow(&sup, &stmt).unwrap();
    let view = SerializesValuesBorrowed::<Vec<CqlValue>>::as_serialized(&ser);
    assert_eq!(view, &buffer);
}

#[test]
fn preserialized_borrow_thrice_ignores_statement() {
    let stmt = int_text_statement();
    let buffer = direct_encode(&stmt, &alice_values()).unwrap();
    let sup = PreSerializedSupplier::new(buffer.clone());
    let other_statements = vec![int_statement(), text_int_statement(), PreparedStatement::new(vec![])];
    for other in &other_statements {
        let ser =
            NonConsumingSupplier::<Vec<CqlValue>>::for_prepared_borrow(&sup, other).unwrap();
        let view = SerializesValuesBorrowed::<Vec<CqlValue>>::as_serialized(&ser);
        assert_eq!(view, &buffer);
    }
}

#[test]
fn preserialized_consume_returns_stored_buffer() {
    let stmt = int_text_statement();
    let buffer = direct_encode(&stmt, &alice_values()).unwrap();
    let sup = PreSerializedSupplier::new(buffer.clone());
    let mismatched = int_statement();
    let owned =
        ConsumingSupplier::<Vec<CqlValue>>::into_owned_serializer(sup, &mismatched).unwrap();
    let out = SerializesValuesOwned::<Vec<CqlValue>>::into_serialized(owned).unwrap();
    assert_eq!(out, buffer);
}

#[test]
fn raw_supplier_is_empty_tracks_values() {
    let empty = ValuesSerializationSupplier::new(Vec::<CqlValue>::new());
    assert!(NonConsumingSupplier::<Vec<CqlValue>>::is_empty(&empty));
    assert!(ConsumingSupplier::<Vec<CqlValue>>::is_empty(&empty));
    let full = ValuesSerializationSupplier::new(alice_values());
    assert!(!NonConsumingSupplier::<Vec<CqlValue>>::is_empty(&full));
    assert!(!ConsumingSupplier::<Vec<CqlValue>>::is_empty(&full));
}

#[test]
fn preserialized_supplier_is_empty_tracks_buffer() {
    let empty = PreSerializedSupplier::new(SerializedValues::new());
    assert!(NonConsumingSupplier::<Vec<CqlValue>>::is_empty(&empty));
    assert!(ConsumingSupplier::<Vec<CqlValue>>::is_empty(&empty));
    let stmt = int_text_statement();
    let full = PreSerializedSupplier::new(direct_encode(&stmt, &alice_values()).unwrap());
    assert!(!NonConsumingSupplier::<Vec<CqlValue>>::is_empty(&full));
    assert!(!ConsumingSupplier::<Vec<CqlValue>>::is_empty(&full));
}

#[test]
fn arity_mismatch_fails_nonconsuming_path() {
    let stmt = int_statement();
    let sup = ValuesSerializationSupplier::new(alice_values());
    assert!(sup.for_prepared_borrow(&stmt).is_err());
}

#[test]
fn arity_mismatch_fails_consuming_path() {
    let stmt = int_statement();
    let sup = ValuesSerializationSupplier::new(alice_values());
    let owned = sup.into_owned_serializer(&stmt).unwrap();
    assert!(owned.into_serialized().is_err());
}

#[test]
fn type_mismatch_fails_encoding() {
    let stmt = int_statement();
    let sup = ValuesSerializationSupplier::new(vec![CqlValue::Text(String::from("Alice"))]);
    assert!(sup.for_prepared_borrow(&stmt).is_err());
}

#[test]
fn empty_row_encodes_to_empty_buffer() {
    let stmt = PreparedStatement::new(vec![]);
    let sup = ValuesSerializationSupplier::new(Vec::<CqlValue>::new());
    let ser = sup.for_prepared_borrow(&stmt).unwrap();
    let buf = SerializesValuesBorrowed::<Vec<CqlValue>>::as_serialized(&ser);
    assert!(buf.is_empty());
    assert_eq!(buf.element_count(), 0);
}

#[test]
fn bind_marker_count_reports_spec_count() {
    assert_eq!(int_text_statement().bind_marker_count(), 2);
    assert_eq!(int_statement().bind_marker_count(), 1);
    assert_eq!(PreparedStatement::new(vec![]).bind_marker_count(), 0);
}
