use vstd::prelude::*;

use crate::account::BrokerageAccount;
use crate::error::{found_outcome, list_outcome, Outcome, StoreError};
use crate::ids::DocId;
use crate::record::{
    fields_view, find_id, find_text, id_field, lookup_id, lookup_text, text_field, Field,
    FieldView,
};

verus! {

pub const ID_FIELD: &'static str = "_id";

pub const BROKERAGE_ID_FIELD: &'static str = "brokerage_id";

pub const ACCOUNT_ID_FIELD: &'static str = "account_id";

/// The field under which a record refers to its account's identity.
pub const BROKERAGE_ACCOUNT_ID_FIELD: &'static str = "brokerage_account_id";

/// The document under which the document database keeps an account.
pub open spec fn account_document(a: BrokerageAccount) -> Seq<(Seq<char>, FieldView)> {
    seq![
        (ID_FIELD@, FieldView::Id(a.id.bytes@)),
        (BROKERAGE_ID_FIELD@, FieldView::Text(a.brokerage_id@)),
        (ACCOUNT_ID_FIELD@, FieldView::Text(a.account_id@)),
    ]
}

/// The account that a document stands for, as (identity, brokerage id, account id).
pub open spec fn decode_account_document(d: Seq<(Seq<char>, FieldView)>) -> Option<(Seq<u8>, Seq<char>, Seq<char>)> {
    match (lookup_id(d, ID_FIELD@), lookup_text(d, BROKERAGE_ID_FIELD@), lookup_text(d, ACCOUNT_ID_FIELD@)) {
        (Some(id), Some(b), Some(a)) => Some((id, b, a)),
        _ => None,
    }
}

/// The filter of a lookup by business key.
pub open spec fn account_key_filter_view(brokerage_id: Seq<char>, account_id: Seq<char>) -> Seq<(Seq<char>, FieldView)> {
    seq![(BROKERAGE_ID_FIELD@, FieldView::Text(brokerage_id)), (ACCOUNT_ID_FIELD@, FieldView::Text(account_id))]
}

/// The filter of a lookup by identity.
pub open spec fn id_filter_view(id: Seq<u8>) -> Seq<(Seq<char>, FieldView)> {
    seq![(ID_FIELD@, FieldView::Id(id))]
}

/// The outcome class of a single-document lookup, from what it found.
pub open spec fn document_find_outcome(doc: Option<Seq<(Seq<char>, FieldView)>>) -> Outcome {
    match doc {
        None => Outcome::NotFound,
        Some(d) => if decode_account_document(d) is Some {
            Outcome::Success
        } else {
            Outcome::Failure
        },
    }
}

pub fn account_document_of(account: &BrokerageAccount) -> (r: Vec<Field>)
    ensures
        fields_view(r@) == account_document(*account),
{
    let mut doc: Vec<Field> = Vec::new();
    doc.push(id_field(ID_FIELD, account.id));
    doc.push(text_field(BROKERAGE_ID_FIELD, account.brokerage_id.as_str()));
    doc.push(text_field(ACCOUNT_ID_FIELD, account.account_id.as_str()));
    assert(fields_view(doc@) =~= account_document(*account));
    doc
}

/// The account that a stored document stands for; a document without an
/// identity, a brokerage id or an account id of the right type is malformed.
pub fn account_from_document(doc: &Vec<Field>) -> (r: Result<BrokerageAccount, StoreError>)
    ensures
        match r {
            Ok(a) => decode_account_document(fields_view(doc@)) == Some(a@),
            Err(e) => decode_account_document(fields_view(doc@)) is None && e is MalformedRecord,
        },
{
    let id = find_id(doc, ID_FIELD);
    let brokerage_id = find_text(doc, BROKERAGE_ID_FIELD);
    let account_id = find_text(doc, ACCOUNT_ID_FIELD);
    match (id, brokerage_id, account_id) {
        (Some(id), Some(b), Some(a)) => Ok(BrokerageAccount::with_id(id, b.as_str(), a.as_str())),
        (None, _, _) => Err(StoreError::MalformedRecord { field: ID_FIELD.to_owned() }),
        (_, None, _) => Err(StoreError::MalformedRecord { field: BROKERAGE_ID_FIELD.to_owned() }),
        (_, _, None) => Err(StoreError::MalformedRecord { field: ACCOUNT_ID_FIELD.to_owned() }),
    }
}

pub fn account_key_filter(brokerage_id: &str, account_id: &str) -> (r: Vec<Field>)
    ensures
        fields_view(r@) == account_key_filter_view(brokerage_id@, account_id@),
{
    let mut f: Vec<Field> = Vec::new();
    f.push(text_field(BROKERAGE_ID_FIELD, brokerage_id));
    f.push(text_field(ACCOUNT_ID_FIELD, account_id));
    assert(fields_view(f@) =~= account_key_filter_view(brokerage_id@, account_id@));
    f
}

pub fn id_filter(id: DocId) -> (r: Vec<Field>)
    ensures
        fields_view(r@) == id_filter_view(id.bytes@),
{
    let mut f: Vec<Field> = Vec::new();
    f.push(id_field(ID_FIELD, id));
    assert(fields_view(f@) =~= id_filter_view(id.bytes@));
    f
}

/// The result of a single-document lookup of an account.
pub fn account_from_find_one(doc: Option<Vec<Field>>) -> (r: Result<Option<BrokerageAccount>, StoreError>)
    ensures
        match doc {
            None => r == Ok::<Option<BrokerageAccount>, StoreError>(None),
            Some(d) => match r {
                Ok(Some(a)) => decode_account_document(fields_view(d@)) == Some(a@),
                Ok(None) => false,
                Err(e) => decode_account_document(fields_view(d@)) is None && e is MalformedRecord,
            },
        },
        found_outcome(r) == document_find_outcome(
            match doc {
                Some(d) => Some(fields_view(d@)),
                None => None,
            },
        ),
{
    match doc {
        None => Ok(None),
        Some(d) => match account_from_document(&d) {
            Ok(a) => Ok(Some(a)),
            Err(e) => Err(e),
        },
    }
}

/// Every account of a listing, in the order of the documents; the first
/// malformed document makes the whole result an error.
pub fn accounts_from_documents(docs: &Vec<Vec<Field>>) -> (r: Result<Vec<BrokerageAccount>, StoreError>)
    ensures
        match r {
            Ok(v) => v.len() == docs.len() && forall|i: int|
                0 <= i < v.len() ==> decode_account_document(fields_view(#[trigger] docs[i]@)) == Some(v[i]@),
            Err(e) => e is MalformedRecord && exists|i: int|
                0 <= i < docs.len() && decode_account_document(fields_view(#[trigger] docs[i]@)) is None,
        },
        (list_outcome(r) == Outcome::Success) == (forall|i: int|
            0 <= i < docs.len() ==> decode_account_document(fields_view(#[trigger] docs[i]@)) is Some),
{
    let mut out: Vec<BrokerageAccount> = Vec::new();
    let mut i: usize = 0;
    while i < docs.len()
        invariant
            i <= docs.len(),
            out.len() == i,
            forall|j: int|
                0 <= j < i ==> decode_account_document(fields_view(#[trigger] docs[j]@)) == Some(out[j]@),
        decreases docs.len() - i,
    {
        match account_from_document(&docs[i]) {
            Ok(a) => out.push(a),
            Err(e) => {
                return Err(e);
            },
        }
        i = i + 1;
    }
    Ok(out)
}

} // verus!
