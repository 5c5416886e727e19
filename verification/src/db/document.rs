//! The contents of a stored document, and typed access to its fields.

use mongodb::oid::ObjectId;
use mongodb::Document;
use vstd::prelude::*;

verus! {

/// What one field of a stored document holds.
pub enum Field {
    /// A string.
    Text(Seq<char>),
    /// A 32-bit integer.
    Int32(i32),
    /// An object identifier, as its 24 lower-case hexadecimal digits.
    ObjectId(Seq<char>),
    /// A nested document.
    Nested(Map<Seq<char>, Field>),
    /// A value of any other type.
    Other,
}

/// The document type of the store's driver. Nothing of a document is seen
/// here but through [`doc_fields`].
#[verifier::external_type_specification]
#[verifier::external_body]
pub struct ExOrderedDocument(mongodb::ordered::OrderedDocument);

/// The fields of a document, by key: what the document holds, whatever the
/// order of its fields.
pub uninterp spec fn doc_fields(d: Document) -> Map<Seq<char>, Field>;

/// Whether `c` is a hexadecimal digit, in either case.
pub open spec fn is_hex_digit(c: char) -> bool {
    ('0' <= c && c <= '9') || ('a' <= c && c <= 'f') || ('A' <= c && c <= 'F')
}

/// Whether `c` is a decimal digit or a lower-case hexadecimal letter.
pub open spec fn is_lower_hex_digit(c: char) -> bool {
    ('0' <= c && c <= '9') || ('a' <= c && c <= 'f')
}

/// Whether `s` is the canonical text of an object identifier: 24 lower-case
/// hexadecimal digits.
pub open spec fn is_canonical_id(s: Seq<char>) -> bool {
    s.len() == 24 && forall|i: int| 0 <= i < s.len() ==> is_lower_hex_digit(#[trigger] s[i])
}

/// Whether `s` can be read as an object identifier: 24 hexadecimal digits, in
/// either case.
pub open spec fn is_id_text(s: Seq<char>) -> bool {
    s.len() == 24 && forall|i: int| 0 <= i < s.len() ==> is_hex_digit(#[trigger] s[i])
}

/// The lower-case form of an upper-case hexadecimal letter; any other
/// character unchanged.
pub open spec fn lower_hex_char(c: char) -> char {
    if c == 'A' {
        'a'
    } else if c == 'B' {
        'b'
    } else if c == 'C' {
        'c'
    } else if c == 'D' {
        'd'
    } else if c == 'E' {
        'e'
    } else if c == 'F' {
        'f'
    } else {
        c
    }
}

/// The canonical text of the identifier that `s` is read as: `s` with its
/// letters in lower case.
pub open spec fn canonical_id(s: Seq<char>) -> Seq<char> {
    s.map_values(|c: char| lower_hex_char(c))
}

/// A canonical identifier can be read as an identifier, and is its own
/// canonical text.
pub proof fn lemma_canonical_is_id_text(s: Seq<char>)
    requires
        is_canonical_id(s),
    ensures
        is_id_text(s),
        canonical_id(s) == s,
{
    assert forall|i: int| 0 <= i < s.len() implies is_hex_digit(#[trigger] s[i]) by {
        assert(is_lower_hex_digit(s[i]));
    }
    assert(canonical_id(s) =~= s) by {
        assert forall|i: int| 0 <= i < s.len() implies lower_hex_char(s[i]) == s[i] by {
            assert(is_lower_hex_digit(s[i]));
        }
    }
}

/// The string under `key`, if the field is present and holds a string.
pub open spec fn text_at(fields: Map<Seq<char>, Field>, key: Seq<char>) -> Option<Seq<char>> {
    if fields.contains_key(key) && fields[key] is Text {
        Some(fields[key]->Text_0)
    } else {
        None
    }
}

/// The integer under `key`, if the field is present and holds a 32-bit integer.
pub open spec fn int32_at(fields: Map<Seq<char>, Field>, key: Seq<char>) -> Option<i32> {
    if fields.contains_key(key) && fields[key] is Int32 {
        Some(fields[key]->Int32_0)
    } else {
        None
    }
}

/// The fields of the document under `key`, if the field is present and holds
/// a document.
pub open spec fn document_at(fields: Map<Seq<char>, Field>, key: Seq<char>) -> Option<
    Map<Seq<char>, Field>,
> {
    if fields.contains_key(key) && fields[key] is Nested {
        Some(fields[key]->Nested_0)
    } else {
        None
    }
}

/// The text of the object identifier under `key`, if the field is present and
/// holds one.
pub open spec fn object_id_at(fields: Map<Seq<char>, Field>, key: Seq<char>) -> Option<
    Seq<char>,
> {
    if fields.contains_key(key) && fields[key] is ObjectId {
        Some(fields[key]->ObjectId_0)
    } else {
        None
    }
}

/// `OrderedDocument::get_str`, with the string copied out. The getter returns
/// the string when the key is present with a string value, and an error when
/// the key is absent or holds another type; the error is dropped.
#[verifier::external_body]
pub(crate) fn get_str(item: &Document, key: &str) -> (r: Option<String>)
    ensures
        r.deep_view() == text_at(doc_fields(*item), key@),
{
    item.get_str(key).ok().map(String::from)
}

/// `OrderedDocument::get_i32`. The getter returns the number when the key is
/// present with a 32-bit integer value, and an error otherwise; the error is
/// dropped.
#[verifier::external_body]
pub(crate) fn get_i32(item: &Document, key: &str) -> (r: Option<i32>)
    ensures
        r == int32_at(doc_fields(*item), key@),
{
    item.get_i32(key).ok()
}

/// `OrderedDocument::get_document`, with the nested document copied out. The
/// getter returns the nested document when the key is present with a document
/// value, and an error otherwise; the error is dropped.
#[verifier::external_body]
pub(crate) fn get_document(item: &Document, key: &str) -> (r: Option<Document>)
    ensures
        r is Some <==> document_at(doc_fields(*item), key@) is Some,
        r is Some ==> doc_fields(r->0) == document_at(doc_fields(*item), key@)->0,
{
    item.get_document(key).ok().map(|d| d.to_owned())
}

/// `OrderedDocument::get_object_id`, with the identifier written out by
/// `ObjectId::to_hex`. The getter returns the identifier when the key is
/// present with an object identifier value, and an error otherwise; the error
/// is dropped. `to_hex` writes the twelve bytes as 24 lower-case hexadecimal
/// digits.
#[verifier::external_body]
pub(crate) fn get_object_id(item: &Document, key: &str) -> (r: Option<String>)
    ensures
        r.deep_view() == object_id_at(doc_fields(*item), key@),
        r is Some ==> is_canonical_id(r->0@),
{
    item.get_object_id(key).ok().map(|id| id.to_hex())
}

/// No fields at all.
pub open spec fn no_fields() -> Map<Seq<char>, Field> {
    Map::empty()
}

/// `OrderedDocument::new`: a document without fields.
#[verifier::external_body]
pub(crate) fn new_document() -> (r: Document)
    ensures
        doc_fields(r) == no_fields(),
{
    Document::new()
}

/// `OrderedDocument::insert` with a string value. It sets the field `key`,
/// whether or not the document had such a field, and leaves every other field
/// as it was.
#[verifier::external_body]
pub(crate) fn insert_str(item: &mut Document, key: &str, value: &str)
    ensures
        doc_fields(*final(item)) == doc_fields(*old(item)).insert(key@, Field::Text(value@)),
{
    item.insert(key, value);
}

/// `OrderedDocument::insert` with a 32-bit integer value. It sets the field
/// `key` and leaves every other field as it was.
#[verifier::external_body]
pub(crate) fn insert_i32(item: &mut Document, key: &str, value: i32)
    ensures
        doc_fields(*final(item)) == doc_fields(*old(item)).insert(key@, Field::Int32(value)),
{
    item.insert(key, value);
}

/// `OrderedDocument::insert` with a document value. It sets the field `key`
/// and leaves every other field as it was.
#[verifier::external_body]
pub(crate) fn insert_document(item: &mut Document, key: &str, value: Document)
    ensures
        doc_fields(*final(item)) == doc_fields(*old(item)).insert(
            key@,
            Field::Nested(doc_fields(value)),
        ),
{
    item.insert(key, value);
}

/// `ObjectId::with_string`, and `OrderedDocument::insert` with the
/// identifier where there is one. `with_string` decodes the text as
/// hexadecimal and accepts it when that gives twelve bytes, so exactly when
/// the text is 24 hexadecimal digits; it takes letters in either case, and
/// the bytes it gives are written back in lower case. Returns whether the
/// text was accepted; where it was not, the document is unchanged.
#[verifier::external_body]
pub(crate) fn insert_object_id(item: &mut Document, key: &str, id: &str) -> (r: bool)
    ensures
        r == is_id_text(id@),
        r ==> doc_fields(*final(item)) == doc_fields(*old(item)).insert(
            key@,
            Field::ObjectId(canonical_id(id@)),
        ),
        !r ==> doc_fields(*final(item)) == doc_fields(*old(item)),
{
    match ObjectId::with_string(id) {
        Ok(oid) => {
            item.insert(key, oid);
            true
        },
        Err(_) => false,
    }
}

} // verus!
