use brokerage_db::account::{BrokerageAccount, DynamoBrokerageAccount};
use brokerage_db::dynamo::{
    account_from_item, account_from_query, account_key_query, accounts_from_scan, put_account_request,
    replace_account_request,
};
use brokerage_db::error::{
    dynamo_put_error, dynamo_update_error, mongo_update_result, mongo_write_error, Outcome, StoreError,
};
use brokerage_db::ids::DocId;
use brokerage_db::mongo::{
    account_document_of, account_from_document, account_from_find_one, account_key_filter,
    accounts_from_documents, id_filter,
};
use brokerage_db::record::{Field, FieldValue};

const BROKERAGE_ID: &str = "batch-brokers";
const BROKERAGE_ACCOUNT_ID: &str = "A1234567";
const BROKERAGE_ID_2: &str = "another-broker";
const BROKERAGE_ACCOUNT_ID_2: &str = "DA7654321";

fn text(name: &str, value: &str) -> Field {
    Field { name: name.to_string(), value: FieldValue::Text(value.to_string()) }
}

fn field_text(fields: &[Field], name: &str) -> Option<String> {
    fields.iter().find(|f| f.name == name).and_then(|f| match &f.value {
        FieldValue::Text(s) => Some(s.clone()),
        _ => None,
    })
}

#[test]
fn partition_key_joins_business_key_with_hash() {
    assert_eq!(DynamoBrokerageAccount::pk(BROKERAGE_ID, BROKERAGE_ACCOUNT_ID), "batch-brokers#A1234567");
    assert_eq!(DynamoBrokerageAccount::pk("", ""), "#");
}

#[test]
fn dynamo_account_new_derives_its_key() {
    let a = DynamoBrokerageAccount::new(BROKERAGE_ID, BROKERAGE_ACCOUNT_ID);
    assert_eq!(a.pk, "batch-brokers#A1234567");
    assert_eq!(a.brokerage_id(), BROKERAGE_ID);
    assert_eq!(a.account_id(), BROKERAGE_ACCOUNT_ID);
}

#[test]
fn put_request_is_guarded_on_the_partition_key() {
    let a = DynamoBrokerageAccount::new(BROKERAGE_ID, BROKERAGE_ACCOUNT_ID);
    let put = put_account_request(&a);
    assert_eq!(put.table, "brokerage_accounts");
    assert_eq!(put.condition, "attribute_not_exists(PK)");
    assert_eq!(put.item.len(), 3);
    assert_eq!(field_text(&put.item, "PK").as_deref(), Some("batch-brokers#A1234567"));
    assert_eq!(field_text(&put.item, "account_id").as_deref(), Some(BROKERAGE_ACCOUNT_ID));
    assert_eq!(field_text(&put.item, "brokerage_id").as_deref(), Some(BROKERAGE_ID));
}

#[test]
fn key_query_binds_the_partition_key() {
    let q = account_key_query(BROKERAGE_ID, BROKERAGE_ACCOUNT_ID);
    assert_eq!(q.table, "brokerage_accounts");
    assert_eq!(q.key_condition, "#PK = :PK");
    assert_eq!(q.name_placeholder, "#PK");
    assert_eq!(q.attribute_name, "PK");
    assert_eq!(q.value_placeholder, ":PK");
    assert_eq!(q.value, "batch-brokers#A1234567");
}

#[test]
fn item_round_trip_gives_an_equal_account() {
    let a = DynamoBrokerageAccount::new(BROKERAGE_ID, BROKERAGE_ACCOUNT_ID);
    let put = put_account_request(&a);
    let back = account_from_item(&put.item).unwrap();
    assert_eq!(back, a);
    let q = account_key_query(BROKERAGE_ID, BROKERAGE_ACCOUNT_ID);
    assert_eq!(Some(q.value), field_text(&put.item, "PK"));
}

#[test]
fn item_without_account_id_is_malformed() {
    let item = vec![text("PK", "b#a"), text("brokerage_id", "b")];
    match account_from_item(&item) {
        Err(StoreError::MalformedRecord { field }) => assert_eq!(field, "account_id"),
        other => panic!("unexpected {:?}", other),
    }
    let item = vec![text("account_id", "a")];
    match account_from_item(&item) {
        Err(StoreError::MalformedRecord { field }) => assert_eq!(field, "brokerage_id"),
        other => panic!("unexpected {:?}", other),
    }
}

#[test]
fn key_query_results_are_classified() {
    assert!(matches!(account_from_query(BROKERAGE_ID, BROKERAGE_ACCOUNT_ID, None), Ok(None)));
    assert!(matches!(account_from_query(BROKERAGE_ID, BROKERAGE_ACCOUNT_ID, Some(vec![])), Ok(None)));
    let a = DynamoBrokerageAccount::new(BROKERAGE_ID, BROKERAGE_ACCOUNT_ID);
    let found = account_from_query(BROKERAGE_ID, BROKERAGE_ACCOUNT_ID, Some(vec![put_account_request(&a).item])).unwrap().unwrap();
    assert_eq!(found, a);
    let twice = vec![put_account_request(&a).item, put_account_request(&a).item];
    assert!(matches!(account_from_query(BROKERAGE_ID, BROKERAGE_ACCOUNT_ID, Some(twice)), Err(StoreError::MultipleMatches)));
}

#[test]
fn scan_returns_every_account() {
    let a = DynamoBrokerageAccount::new(BROKERAGE_ID, BROKERAGE_ACCOUNT_ID);
    let b = DynamoBrokerageAccount::new(BROKERAGE_ID_2, BROKERAGE_ACCOUNT_ID_2);
    let items = vec![put_account_request(&b).item, put_account_request(&a).item];
    let all = accounts_from_scan(&items).unwrap();
    assert_eq!(all.len(), 2);
    assert!(all.contains(&a));
    assert!(all.contains(&b));
    let bad = vec![put_account_request(&a).item, vec![text("PK", "x")]];
    assert!(matches!(accounts_from_scan(&bad), Err(StoreError::MalformedRecord { .. })));
    assert!(accounts_from_scan(&vec![]).unwrap().is_empty());
}

#[test]
fn document_round_trip_gives_an_equal_account() {
    let a = BrokerageAccount::new(BROKERAGE_ID, BROKERAGE_ACCOUNT_ID);
    let doc = account_document_of(&a);
    assert_eq!(doc.len(), 3);
    assert_eq!(doc[0].name, "_id");
    assert_eq!(field_text(&doc, "brokerage_id").as_deref(), Some(BROKERAGE_ID));
    assert_eq!(field_text(&doc, "account_id").as_deref(), Some(BROKERAGE_ACCOUNT_ID));
    let back = account_from_document(&doc).unwrap();
    assert_eq!(back, a);
    assert_eq!(back.id(), a.id());
}

#[test]
fn document_lookups_are_classified() {
    assert!(matches!(account_from_find_one(None), Ok(None)));
    let a = BrokerageAccount::new(BROKERAGE_ID, BROKERAGE_ACCOUNT_ID);
    assert_eq!(account_from_find_one(Some(account_document_of(&a))).unwrap().unwrap(), a);
    let no_id = vec![text("brokerage_id", "b"), text("account_id", "a")];
    match account_from_find_one(Some(no_id)) {
        Err(StoreError::MalformedRecord { field }) => assert_eq!(field, "_id"),
        other => panic!("unexpected {:?}", other),
    }
}

#[test]
fn document_listing_returns_every_account() {
    let a = BrokerageAccount::new(BROKERAGE_ID, BROKERAGE_ACCOUNT_ID);
    let b = BrokerageAccount::new(BROKERAGE_ID_2, BROKERAGE_ACCOUNT_ID_2);
    let all = accounts_from_documents(&vec![account_document_of(&a), account_document_of(&b)]).unwrap();
    assert_eq!(all.len(), 2);
    assert!(all.contains(&a) && all.contains(&b));
}

#[test]
fn filters_name_the_business_key_and_identity() {
    let f = account_key_filter(BROKERAGE_ID, BROKERAGE_ACCOUNT_ID);
    assert_eq!(f.len(), 2);
    assert_eq!(field_text(&f, "brokerage_id").as_deref(), Some(BROKERAGE_ID));
    assert_eq!(field_text(&f, "account_id").as_deref(), Some(BROKERAGE_ACCOUNT_ID));
    let id = DocId::from_bytes([1, 2, 3, 4, 5, 6, 7, 8, 9, 10, 11, 12]);
    let f = id_filter(id);
    assert_eq!(f.len(), 1);
    assert_eq!(f[0].name, "_id");
    assert!(matches!(&f[0].value, FieldValue::Id(x) if *x == id));
}

#[test]
fn distinct_accounts_have_distinct_identities() {
    let a = BrokerageAccount::new(BROKERAGE_ID, BROKERAGE_ACCOUNT_ID);
    let b = BrokerageAccount::new(BROKERAGE_ID, BROKERAGE_ACCOUNT_ID);
    assert_ne!(a.id(), b.id());
    assert_ne!(a, b);
    let c = BrokerageAccount::with_id(a.id(), BROKERAGE_ID, BROKERAGE_ACCOUNT_ID);
    assert_eq!(a, c);
}

#[test]
fn duplicate_key_write_is_a_conflict_on_both_backends() {
    let m = mongo_write_error(Some(11000), "E11000 duplicate key".to_string());
    let d = dynamo_put_error(true, "ConditionalCheckFailedException".to_string());
    assert!(matches!(m, StoreError::Conflict));
    assert!(matches!(d, StoreError::Conflict));
    assert_eq!(m.outcome(), Outcome::Conflict);
    assert_eq!(d.outcome(), Outcome::Conflict);
}

#[test]
fn other_write_failures_are_transport_errors() {
    match mongo_write_error(Some(121), "validation".to_string()) {
        StoreError::Transport { message } => assert_eq!(message, "validation"),
        other => panic!("unexpected {:?}", other),
    }
    assert!(matches!(mongo_write_error(None, "io".to_string()), StoreError::Transport { .. }));
    match dynamo_put_error(false, "throttled".to_string()) {
        StoreError::Transport { message } => assert_eq!(message, "throttled"),
        other => panic!("unexpected {:?}", other),
    }
    assert_eq!(dynamo_put_error(false, String::new()).outcome(), Outcome::Failure);
}

#[test]
fn same_operations_classify_alike_on_both_backends() {
    let m = BrokerageAccount::new(BROKERAGE_ID, BROKERAGE_ACCOUNT_ID);
    let d = DynamoBrokerageAccount::new(BROKERAGE_ID, BROKERAGE_ACCOUNT_ID);
    // Lookup before insert.
    assert!(matches!(account_from_find_one(None), Ok(None)));
    assert!(matches!(account_from_query(BROKERAGE_ID, BROKERAGE_ACCOUNT_ID, Some(vec![])), Ok(None)));
    // Duplicate insert.
    assert_eq!(mongo_write_error(Some(11000), String::new()).outcome(), dynamo_put_error(true, String::new()).outcome());
    // Lookup after insert.
    let fm = account_from_find_one(Some(account_document_of(&m))).unwrap().unwrap();
    let fd = account_from_query(BROKERAGE_ID, BROKERAGE_ACCOUNT_ID, Some(vec![put_account_request(&d).item])).unwrap().unwrap();
    assert_eq!(fm.brokerage_id(), fd.brokerage_id());
    assert_eq!(fm.account_id(), fd.account_id());
}

#[test]
fn key_lookup_ignores_an_account_that_shares_the_partition_key() {
    let stored = DynamoBrokerageAccount::new("a#b", "c");
    let asked = DynamoBrokerageAccount::new("a", "b#c");
    assert_eq!(stored.pk, asked.pk);
    let item = put_account_request(&stored).item;
    assert!(matches!(account_from_query("a", "b#c", Some(vec![item.clone()])), Ok(None)));
    assert_eq!(account_from_query("a#b", "c", Some(vec![item])).unwrap().unwrap(), stored);
}

#[test]
fn replacement_is_guarded_on_an_existing_key() {
    let a = DynamoBrokerageAccount::new(BROKERAGE_ID, BROKERAGE_ACCOUNT_ID);
    let put = replace_account_request(&a);
    assert_eq!(put.table, "brokerage_accounts");
    assert_eq!(put.condition, "attribute_exists(PK)");
    assert_eq!(account_from_item(&put.item).unwrap(), a);
    assert!(matches!(dynamo_update_error(true, String::new()), StoreError::NotStored));
    assert!(matches!(dynamo_update_error(false, "x".to_string()), StoreError::Transport { .. }));
    assert!(matches!(mongo_update_result(0), Err(StoreError::NotStored)));
    assert!(mongo_update_result(1).is_ok());
}
