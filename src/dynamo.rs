use vstd::prelude::*;
use vstd::string::*;

use crate::account::{partition_key, DynamoBrokerageAccount};
use crate::error::{found_outcome, list_outcome, Outcome, StoreError};
use crate::record::{fields_view, find_text, lookup_text, text_field, Field, FieldView};

verus! {

pub const TABLE_NAME: &'static str = "brokerage_accounts";

pub const PK_COL_NAME: &'static str = "PK";

pub const ACCOUNT_ID_COL_NAME: &'static str = "account_id";

pub const BROKERAGE_ID_COL_NAME: &'static str = "brokerage_id";

/// The item under which the key-value store keeps an account: its partition
/// key, account id and brokerage id, each as a string attribute.
pub open spec fn account_item(a: DynamoBrokerageAccount) -> Seq<(Seq<char>, FieldView)> {
    seq![
        (PK_COL_NAME@, FieldView::Text(a.pk@)),
        (ACCOUNT_ID_COL_NAME@, FieldView::Text(a.account_id@)),
        (BROKERAGE_ID_COL_NAME@, FieldView::Text(a.brokerage_id@)),
    ]
}

/// The account that an item stands for, as (partition key, account id,
/// brokerage id): the key is derived again from the business key.
pub open spec fn decode_account(item: Seq<(Seq<char>, FieldView)>) -> Option<(Seq<char>, Seq<char>, Seq<char>)> {
    match (lookup_text(item, ACCOUNT_ID_COL_NAME@), lookup_text(item, BROKERAGE_ID_COL_NAME@)) {
        (Some(a), Some(b)) => Some((partition_key(b, a), a, b)),
        _ => None,
    }
}

/// The guard that makes a put fail when an item with the same partition key
/// is already stored.
pub open spec fn insert_guard() -> Seq<char> {
    "attribute_not_exists("@ + PK_COL_NAME@ + ")"@
}

/// The outcome class of a lookup by key, from the items it returned: an
/// item whose business key is not the one asked for is not a match.
pub open spec fn item_query_outcome(
    brokerage_id: Seq<char>,
    account_id: Seq<char>,
    items: Option<Seq<Seq<(Seq<char>, FieldView)>>>,
) -> Outcome {
    match items {
        None => Outcome::NotFound,
        Some(v) => if v.len() == 0 {
            Outcome::NotFound
        } else if v.len() == 1 {
            match decode_account(v[0]) {
                Some(d) => if d.2 == brokerage_id && d.1 == account_id {
                    Outcome::Success
                } else {
                    Outcome::NotFound
                },
                None => Outcome::Failure,
            }
        } else {
            Outcome::Failure
        },
    }
}

pub open spec fn items_view(v: Seq<Vec<Field>>) -> Seq<Seq<(Seq<char>, FieldView)>> {
    v.map_values(|i: Vec<Field>| fields_view(i@))
}

/// The guard that makes a put fail unless an item with the same partition
/// key is stored, so that a replacement never creates an account.
pub open spec fn replace_guard() -> Seq<char> {
    "attribute_exists("@ + PK_COL_NAME@ + ")"@
}

/// A conditional put of one item.
pub struct PutRequest {
    pub table: String,
    pub item: Vec<Field>,
    pub condition: String,
}

/// A query for the items under one partition key: `#PK = :PK`, with the
/// attribute name and the value bound to the two placeholders.
pub struct KeyQuery {
    pub table: String,
    pub key_condition: String,
    pub name_placeholder: String,
    pub attribute_name: String,
    pub value_placeholder: String,
    pub value: String,
}

/// The put that inserts an account, guarded so that a second account with the
/// same business key is refused by the store.
pub fn put_account_request(account: &DynamoBrokerageAccount) -> (r: PutRequest)
    ensures
        r.table@ == TABLE_NAME@,
        fields_view(r.item@) == account_item(*account),
        r.condition@ == insert_guard(),
{
    let mut item: Vec<Field> = Vec::new();
    item.push(text_field(PK_COL_NAME, account.pk.as_str()));
    item.push(text_field(ACCOUNT_ID_COL_NAME, account.account_id.as_str()));
    item.push(text_field(BROKERAGE_ID_COL_NAME, account.brokerage_id.as_str()));
    let mut condition = String::from_str("attribute_not_exists(");
    condition.append(PK_COL_NAME);
    condition.append(")");
    proof {
        assert(fields_view(item@) =~= account_item(*account));
    }
    PutRequest { table: String::from_str(TABLE_NAME), item, condition }
}

/// The put that replaces a stored account by its identity (its partition
/// key), guarded so that it fails when no such account is stored.
pub fn replace_account_request(account: &DynamoBrokerageAccount) -> (r: PutRequest)
    ensures
        r.table@ == TABLE_NAME@,
        fields_view(r.item@) == account_item(*account),
        r.condition@ == replace_guard(),
{
    let mut item: Vec<Field> = Vec::new();
    item.push(text_field(PK_COL_NAME, account.pk.as_str()));
    item.push(text_field(ACCOUNT_ID_COL_NAME, account.account_id.as_str()));
    item.push(text_field(BROKERAGE_ID_COL_NAME, account.brokerage_id.as_str()));
    let mut condition = String::from_str("attribute_exists(");
    condition.append(PK_COL_NAME);
    condition.append(")");
    proof {
        assert(fields_view(item@) =~= account_item(*account));
    }
    PutRequest { table: String::from_str(TABLE_NAME), item, condition }
}

/// The query that looks an account up by its business key.
pub fn account_key_query(brokerage_id: &str, account_id: &str) -> (r: KeyQuery)
    ensures
        r.table@ == TABLE_NAME@,
        r.name_placeholder@ == "#"@ + PK_COL_NAME@,
        r.value_placeholder@ == ":"@ + PK_COL_NAME@,
        r.key_condition@ == r.name_placeholder@ + " = "@ + r.value_placeholder@,
        r.attribute_name@ == PK_COL_NAME@,
        r.value@ == partition_key(brokerage_id@, account_id@),
{
    let mut name_placeholder = String::from_str("#");
    name_placeholder.append(PK_COL_NAME);
    let mut value_placeholder = String::from_str(":");
    value_placeholder.append(PK_COL_NAME);
    let mut key_condition = name_placeholder.clone();
    key_condition.append(" = ");
    key_condition.append(value_placeholder.as_str());
    KeyQuery {
        table: String::from_str(TABLE_NAME),
        key_condition,
        name_placeholder,
        attribute_name: String::from_str(PK_COL_NAME),
        value_placeholder,
        value: DynamoBrokerageAccount::pk(brokerage_id, account_id),
    }
}

/// The account that a stored item stands for; an item without a string
/// account id or brokerage id is malformed.
pub fn account_from_item(item: &Vec<Field>) -> (r: Result<DynamoBrokerageAccount, StoreError>)
    ensures
        match r {
            Ok(a) => a.wf() && decode_account(fields_view(item@)) == Some(a@),
            Err(e) => decode_account(fields_view(item@)) is None && e is MalformedRecord,
        },
{
    let account_id = find_text(item, ACCOUNT_ID_COL_NAME);
    let brokerage_id = find_text(item, BROKERAGE_ID_COL_NAME);
    match (account_id, brokerage_id) {
        (Some(a), Some(b)) => Ok(DynamoBrokerageAccount::new(b.as_str(), a.as_str())),
        (None, _) => Err(StoreError::MalformedRecord { field: String::from_str(ACCOUNT_ID_COL_NAME) }),
        (_, None) => Err(StoreError::MalformedRecord { field: String::from_str(BROKERAGE_ID_COL_NAME) }),
    }
}

/// The result of a lookup by business key, from the items that the key
/// query for (`brokerage_id`, `account_id`) returned: none is an empty
/// result, one is the account if its business key is the one asked for (two
/// business keys can share a partition key when their ids hold `#`), more
/// than one breaks the uniqueness of the key.
pub fn account_from_query(brokerage_id: &str, account_id: &str, items: Option<Vec<Vec<Field>>>) -> (r: Result<
    Option<DynamoBrokerageAccount>,
    StoreError,
>)
    ensures
        match items {
            None => r == Ok::<Option<DynamoBrokerageAccount>, StoreError>(None),
            Some(v) => if v.len() == 0 {
                r == Ok::<Option<DynamoBrokerageAccount>, StoreError>(None)
            } else if v.len() > 1 {
                r is Err && r->Err_0 is MultipleMatches
            } else {
                match r {
                    Ok(Some(a)) => a.wf() && decode_account(fields_view(v[0]@)) == Some(a@),
                    Ok(None) => decode_account(fields_view(v[0]@)) matches Some(d) && !(d.2 == brokerage_id@
                        && d.1 == account_id@),
                    Err(e) => decode_account(fields_view(v[0]@)) is None && e is MalformedRecord,
                }
            },
        },
        r matches Ok(Some(f)) ==> f.brokerage_id@ == brokerage_id@ && f.account_id@ == account_id@,
        found_outcome(r) == item_query_outcome(
            brokerage_id@,
            account_id@,
            match items {
                Some(v) => Some(items_view(v@)),
                None => None,
            },
        ),
{
    match items {
        None => Ok(None),
        Some(v) => {
            if v.len() == 0 {
                Ok(None)
            } else if v.len() > 1 {
                Err(StoreError::MultipleMatches)
            } else {
                match account_from_item(&v[0]) {
                    Ok(a) => {
                        if a.brokerage_id == String::from_str(brokerage_id) && a.account_id == String::from_str(
                            account_id,
                        ) {
                            Ok(Some(a))
                        } else {
                            Ok(None)
                        }
                    },
                    Err(e) => Err(e),
                }
            }
        },
    }
}

/// Every account of a full scan, in the order of the items; the first
/// malformed item makes the whole result an error.
pub fn accounts_from_scan(items: &Vec<Vec<Field>>) -> (r: Result<Vec<DynamoBrokerageAccount>, StoreError>)
    ensures
        match r {
            Ok(v) => v.len() == items.len() && forall|i: int|
                0 <= i < v.len() ==> v[i].wf() && decode_account(fields_view(#[trigger] items[i]@)) == Some(v[i]@),
            Err(e) => e is MalformedRecord && exists|i: int|
                0 <= i < items.len() && decode_account(fields_view(#[trigger] items[i]@)) is None,
        },
        (list_outcome(r) == Outcome::Success) == (forall|i: int|
            0 <= i < items.len() ==> decode_account(fields_view(#[trigger] items[i]@)) is Some),
{
    let mut out: Vec<DynamoBrokerageAccount> = Vec::new();
    let mut i: usize = 0;
    while i < items.len()
        invariant
            i <= items.len(),
            out.len() == i,
            forall|j: int|
                0 <= j < i ==> out[j].wf() && decode_account(fields_view(#[trigger] items[j]@)) == Some(out[j]@),
        decreases items.len() - i,
    {
        match account_from_item(&items[i]) {
            Ok(a) => out.push(a),
            Err(e) => {
                return Err(e);
            },
        }
        i = i + 1;
    }
    Ok(out)
}

} // verus!
