//! Stored documents and how they are read into the data model.

pub mod document;
pub mod helpers;
pub mod records;

use crate::db::document::{doc_fields, Field};
use mongodb::Document;
use vstd::prelude::*;

verus! {

/// A type that can be read from a stored document.
pub trait FromDoc: Sized + View {
    /// The value that a document with the given fields is read as.
    spec fn decoded(fields: Map<Seq<char>, Field>) -> Self::V;

    /// Reads a stored document. Every document can be read: a field that is
    /// missing, or holds a value of another type than expected, is replaced
    /// by its default.
    fn from_doc(item: Document) -> (r: Self)
        ensures
            r@ == Self::decoded(doc_fields(item)),
    ;
}

} // verus!
