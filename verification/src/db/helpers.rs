//! Turning what the order store returned into values of the data model.

use crate::db::document::doc_fields;
use crate::db::FromDoc;
use mongodb::error::Error;
use mongodb::Document;
use vstd::prelude::*;

verus! {

/// The error type of the store's driver. It is carried and never looked
/// into.
#[verifier::external_type_specification]
#[verifier::external_body]
pub struct ExError(mongodb::error::Error);

/// The values that the readable items of a listing are read as, in the order
/// of the listing. An item that the store failed to deliver is left out.
pub open spec fn decoded_all<T: FromDoc>(items: Seq<Result<Document, Error>>) -> Seq<T::V>
    decreases items.len(),
{
    if items.len() == 0 {
        Seq::empty()
    } else {
        let before = decoded_all::<T>(items.drop_last());
        match items.last() {
            Ok(item) => before.push(T::decoded(doc_fields(item))),
            Err(_) => before,
        }
    }
}

/// The value that the result of a lookup is read as: the decoded document
/// where the store found one, nothing where it found none or failed.
pub open spec fn decoded_one<T: FromDoc>(found: Result<Option<Document>, Error>) -> Option<T::V> {
    match found {
        Ok(Some(item)) => Some(T::decoded(doc_fields(item))),
        _ => None,
    }
}

/// Reads every item of a listing that the store delivered, in order, and
/// skips those it failed to deliver.
pub fn all<T: FromDoc>(items: Vec<Result<Document, Error>>) -> (r: Vec<T>)
    ensures
        r@.map_values(|t: T| t@) == decoded_all::<T>(items@),
{
    let mut r: Vec<T> = Vec::new();
    let ghost all_items = items@;
    for item in it: items
        invariant
            it.seq() == all_items,
            r@.map_values(|t: T| t@) == decoded_all::<T>(all_items.take(it.index() as int)),
    {
        proof {
            let upto = all_items.take(it.index() + 1);
            assert(upto.drop_last() =~= all_items.take(it.index() as int));
            assert(upto.last() == item);
        }
        let ghost before = r@;
        match item {
            Ok(document) => {
                let value = T::from_doc(document);
                r.push(value);
                assert(r@.map_values(|t: T| t@) =~= before.map_values(|t: T| t@).push(value@));
            },
            Err(_) => {},
        }
    }
    assert(all_items.take(all_items.len() as int) =~= all_items);
    r
}

/// Reads the result of a lookup by identifier.
pub fn get<T: FromDoc>(found: Result<Option<Document>, Error>) -> (r: Option<T>)
    ensures
        match r {
            Some(value) => decoded_one::<T>(found) == Some(value@),
            None => decoded_one::<T>(found) is None,
        },
{
    match found {
        Ok(Some(item)) => Some(T::from_doc(item)),
        _ => None,
    }
}

} // verus!
