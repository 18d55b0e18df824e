//! The values of the indexing engine that the writer pipeline builds and
//! carries: field handles, documents and terms.
//!
//! The engine's code is not verified here. Each item below states what is
//! taken on trust about it.

use vstd::prelude::*;
use crate::rowid::be_bytes;

verus! {

/// The engine's handle of a schema field, carried as it is.
#[verifier::external_type_specification]
#[verifier::external_body]
pub struct ExField(tantivy::schema::Field);

/// The engine's document, carried as it is.
#[verifier::external_type_specification]
#[verifier::external_body]
pub struct ExTantivyDocument(tantivy::TantivyDocument);

/// A term of the engine, `tantivy::Term`, held as it is: a field and the
/// bytes of a value. What it holds is read through `field` and
/// `value_bytes`.
#[verifier::external_body]
pub struct IndexTerm {
    term: tantivy::Term,
}

/// The document that `TantivyDocument::add_u64` leaves behind when it is
/// called on `document` with `field` and `value`.
pub uninterp spec fn document_with_u64(
    document: tantivy::TantivyDocument,
    field: tantivy::schema::Field,
    value: u64,
) -> tantivy::TantivyDocument;

/// The term that `Term::from_field_bytes` builds from `field` and `bytes`.
pub uninterp spec fn bytes_term(field: tantivy::schema::Field, bytes: Seq<u8>) -> IndexTerm;

/// The term that `Term::from_field_u64` builds from `field` and `value`.
pub uninterp spec fn u64_term(field: tantivy::schema::Field, value: u64) -> IndexTerm;

/// The field that `Term::field` reads from a term.
pub uninterp spec fn term_field(term: IndexTerm) -> tantivy::schema::Field;

/// The bytes that `Term::serialized_value_bytes` reads from a term: what
/// follows the field and the type code.
pub uninterp spec fn term_value(term: IndexTerm) -> Seq<u8>;

/// Calls `TantivyDocument::add_u64`, which appends the pair of `field` and
/// the unsigned value to the document's list of field values. Trusted: the
/// result is the document that the engine leaves behind, a function of the
/// three arguments alone.
#[verifier::external_body]
pub(crate) fn document_add_u64(
    document: tantivy::TantivyDocument,
    field: tantivy::schema::Field,
    value: u64,
) -> (result: tantivy::TantivyDocument)
    ensures
        result == document_with_u64(document, field, value),
{
    let mut document = document;
    document.add_u64(field, value);
    document
}

/// Calls `Term::from_field_bytes`, which lays out the field's identifier, the
/// type code for bytes and then `bytes` as they are. Trusted: the result is
/// the term that the engine builds, a function of the two arguments alone;
/// read back, it gives the same field and the same bytes.
#[verifier::external_body]
fn term_from_field_bytes(field: tantivy::schema::Field, bytes: &Vec<u8>) -> (term: IndexTerm)
    ensures
        term == bytes_term(field, bytes@),
        term_field(term) == field,
        term_value(term) == bytes@,
{
    IndexTerm { term: tantivy::Term::from_field_bytes(field, bytes.as_slice()) }
}

/// Calls `Term::from_field_u64`, which lays out the field's identifier, the
/// type code for unsigned numbers and then the eight bytes of `value`, the
/// most significant first. Trusted: the result is the term that the engine
/// builds, a function of the two arguments alone; read back, it gives the
/// same field and those eight bytes.
#[verifier::external_body]
fn term_from_field_u64(field: tantivy::schema::Field, value: u64) -> (term: IndexTerm)
    ensures
        term == u64_term(field, value),
        term_field(term) == field,
        term_value(term) == be_bytes(value),
{
    IndexTerm { term: tantivy::Term::from_field_u64(field, value) }
}

/// Calls `Term::field`, which decodes the field's identifier from the first
/// four bytes of the term. Trusted: the result is the field so read.
#[verifier::external_body]
fn term_read_field(term: &IndexTerm) -> (field: tantivy::schema::Field)
    ensures
        field == term_field(*term),
{
    term.term.field()
}

/// Calls `Term::serialized_value_bytes`, which gives the bytes behind the
/// field and the type code. Trusted: the result holds those bytes.
#[verifier::external_body]
fn term_read_value(term: &IndexTerm) -> (bytes: Vec<u8>)
    ensures
        bytes@ == term_value(*term),
{
    term.term.serialized_value_bytes().to_vec()
}

impl IndexTerm {
    /// The bytes term of `field` that holds `bytes`.
    pub fn from_field_bytes(field: tantivy::schema::Field, bytes: &Vec<u8>) -> (term: IndexTerm)
        ensures
            term == bytes_term(field, bytes@),
            term_field(term) == field,
            term_value(term) == bytes@,
    {
        term_from_field_bytes(field, bytes)
    }

    /// The term of `field` for the unsigned number `value`: the term under
    /// which a row identifier is indexed.
    pub fn from_field_u64(field: tantivy::schema::Field, value: u64) -> (term: IndexTerm)
        ensures
            term == u64_term(field, value),
            term_field(term) == field,
            term_value(term) == be_bytes(value),
    {
        term_from_field_u64(field, value)
    }

    /// The field of this term.
    pub fn field(&self) -> (field: tantivy::schema::Field)
        ensures
            field == term_field(*self),
    {
        term_read_field(self)
    }

    /// The bytes of this term's value.
    pub fn value_bytes(&self) -> (bytes: Vec<u8>)
        ensures
            bytes@ == term_value(*self),
    {
        term_read_value(self)
    }
}

} // verus!
