//! A dispatch layer deciding how and when query bind values are turned into an
//! encoded buffer for a prepared database statement.
//!
//! Values may be raw (still to be encoded against a statement's bind-marker
//! metadata, which is delegated to scylla-cql) or pre-serialized (an encoded
//! buffer that needs no further work). A supplier holding either kind can be
//! asked repeatedly for a borrowed view of encoded bytes, or consumed exactly
//! once to yield an owned buffer; the pre-serialized paths never re-encode and
//! never copy.

pub mod cql;
pub mod laws;
pub mod row;
pub mod serializer;
pub mod statement;
pub mod supplier;
