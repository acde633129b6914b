use vstd::prelude::*;
use vstd::string::*;

use crate::account::{partition_key, BrokerageAccount, DynamoBrokerageAccount};
use crate::dynamo::{
    account_item, decode_account, insert_guard, item_query_outcome, ACCOUNT_ID_COL_NAME,
    BROKERAGE_ID_COL_NAME, PK_COL_NAME,
};
use crate::error::{dynamo_error_outcome, mongo_error_outcome, Outcome, MONGO_DUPLICATE_KEY_CODE};
use crate::migration::ProvisionView;
use crate::migrations::{migration_001, migration_002};
use crate::mongo::{
    account_document, account_key_filter_view, decode_account_document, document_find_outcome,
    ACCOUNT_ID_FIELD, BROKERAGE_ID_FIELD, ID_FIELD,
};
use crate::record::{lookup, satisfies, FieldView};
use crate::security::{
    decode_conid, decode_security_document, security_document, kind_named, Security, IBKR_CONID_FIELD,
    LISTING_EXCHANGE_FIELD, SECURITY_TYPE_FIELD, TICKER_FIELD,
};

verus! {

proof fn lemma_document_fields_distinct()
    ensures
        ID_FIELD@ != BROKERAGE_ID_FIELD@,
        ID_FIELD@ != ACCOUNT_ID_FIELD@,
        BROKERAGE_ID_FIELD@ != ACCOUNT_ID_FIELD@,
{
    reveal_strlit("_id");
    reveal_strlit("brokerage_id");
    reveal_strlit("account_id");
    assert(ID_FIELD@.len() != BROKERAGE_ID_FIELD@.len());
    assert(ID_FIELD@.len() != ACCOUNT_ID_FIELD@.len());
    assert(BROKERAGE_ID_FIELD@.len() != ACCOUNT_ID_FIELD@.len());
}

proof fn lemma_item_fields_distinct()
    ensures
        PK_COL_NAME@ != ACCOUNT_ID_COL_NAME@,
        PK_COL_NAME@ != BROKERAGE_ID_COL_NAME@,
        ACCOUNT_ID_COL_NAME@ != BROKERAGE_ID_COL_NAME@,
{
    reveal_strlit("PK");
    reveal_strlit("account_id");
    reveal_strlit("brokerage_id");
    assert(PK_COL_NAME@.len() != ACCOUNT_ID_COL_NAME@.len());
    assert(PK_COL_NAME@.len() != BROKERAGE_ID_COL_NAME@.len());
    assert(ACCOUNT_ID_COL_NAME@.len() != BROKERAGE_ID_COL_NAME@.len());
}

/// Each field of an account's document is found under its name.
proof fn lemma_account_document_lookup(a: BrokerageAccount)
    ensures
        lookup(account_document(a), ID_FIELD@) == Some(FieldView::Id(a.id.bytes@)),
        lookup(account_document(a), BROKERAGE_ID_FIELD@) == Some(FieldView::Text(a.brokerage_id@)),
        lookup(account_document(a), ACCOUNT_ID_FIELD@) == Some(FieldView::Text(a.account_id@)),
{
    lemma_document_fields_distinct();
    let d = account_document(a);
    assert(d.drop_first().drop_first().drop_first() =~= Seq::<(Seq<char>, FieldView)>::empty());
    reveal_with_fuel(lookup, 4);
}

/// Each attribute of an account's item is found under its name.
proof fn lemma_account_item_lookup(a: DynamoBrokerageAccount)
    ensures
        lookup(account_item(a), PK_COL_NAME@) == Some(FieldView::Text(a.pk@)),
        lookup(account_item(a), ACCOUNT_ID_COL_NAME@) == Some(FieldView::Text(a.account_id@)),
        lookup(account_item(a), BROKERAGE_ID_COL_NAME@) == Some(FieldView::Text(a.brokerage_id@)),
{
    lemma_item_fields_distinct();
    let d = account_item(a);
    assert(d.drop_first().drop_first().drop_first() =~= Seq::<(Seq<char>, FieldView)>::empty());
    reveal_with_fuel(lookup, 4);
}

proof fn lemma_security_fields_distinct()
    ensures
        ID_FIELD@ != LISTING_EXCHANGE_FIELD@,
        ID_FIELD@ != SECURITY_TYPE_FIELD@,
        ID_FIELD@ != TICKER_FIELD@,
        ID_FIELD@ != IBKR_CONID_FIELD@,
        LISTING_EXCHANGE_FIELD@ != SECURITY_TYPE_FIELD@,
        LISTING_EXCHANGE_FIELD@ != TICKER_FIELD@,
        LISTING_EXCHANGE_FIELD@ != IBKR_CONID_FIELD@,
        SECURITY_TYPE_FIELD@ != TICKER_FIELD@,
        SECURITY_TYPE_FIELD@ != IBKR_CONID_FIELD@,
        TICKER_FIELD@ != IBKR_CONID_FIELD@,
{
    reveal_strlit("_id");
    reveal_strlit("listing_exchange");
    reveal_strlit("security_type");
    reveal_strlit("ticker");
    reveal_strlit("ibkr_conid");
    assert(ID_FIELD@.len() == 3);
    assert(LISTING_EXCHANGE_FIELD@.len() == 16);
    assert(SECURITY_TYPE_FIELD@.len() == 13);
    assert(TICKER_FIELD@.len() == 6);
    assert(IBKR_CONID_FIELD@.len() == 10);
}

/// Each field of a security's document is found under its name.
pub proof fn lemma_security_document_lookup(s: Security)
    ensures
        lookup(security_document(s), ID_FIELD@) == Some(FieldView::Id(s.id.bytes@)),
        lookup(security_document(s), LISTING_EXCHANGE_FIELD@) == Some(FieldView::Text(s.listing_exchange@)),
        lookup(security_document(s), SECURITY_TYPE_FIELD@) == Some(FieldView::Text(s.security_type.name_spec())),
        lookup(security_document(s), TICKER_FIELD@) == Some(FieldView::Text(s.ticker@)),
        lookup(security_document(s), IBKR_CONID_FIELD@) == match s.ibkr_conid {
            Some(c) => Some(FieldView::Int(c as int)),
            None => None::<FieldView>,
        },
{
    lemma_security_fields_distinct();
    let d = security_document(s);
    let rest = d.drop_first().drop_first().drop_first().drop_first();
    match s.ibkr_conid {
        Some(c) => {
            assert(rest =~= seq![(IBKR_CONID_FIELD@, FieldView::Int(c as int))]);
            assert(rest.drop_first() =~= Seq::<(Seq<char>, FieldView)>::empty());
        },
        None => {
            assert(rest =~= Seq::<(Seq<char>, FieldView)>::empty());
        },
    }
    reveal_with_fuel(lookup, 6);
}

/// A security's document reads back as a security equal to it in every field.
pub proof fn lemma_security_document_round_trip(s: Security)
    ensures
        decode_security_document(security_document(s)) == Some(s@),
{
    lemma_security_document_lookup(s);
    assert(kind_named(s.security_type.name_spec()) == Some(s.security_type));
    assert(decode_conid(security_document(s)) == Some(s.ibkr_conid));
}

/// An account inserted into the document database is selected by the filter
/// of a lookup by its business key, and its document reads back as an account
/// equal to it in every field.
pub proof fn lemma_document_round_trip(a: BrokerageAccount)
    ensures
        satisfies(account_key_filter_view(a.brokerage_id@, a.account_id@), account_document(a)),
        decode_account_document(account_document(a)) == Some(a@),
{
    lemma_account_document_lookup(a);
    let f = account_key_filter_view(a.brokerage_id@, a.account_id@);
    assert forall|i: int| 0 <= i < f.len() implies lookup(account_document(a), #[trigger] f[i].0) == Some(
        f[i].1,
    ) by {}
}

/// An account inserted into the key-value store is under the partition key
/// that a lookup by its business key asks for, and its item reads back as an
/// account equal to it in every field.
pub proof fn lemma_item_round_trip(a: DynamoBrokerageAccount)
    requires
        a.wf(),
    ensures
        lookup(account_item(a), PK_COL_NAME@) == Some(
            FieldView::Text(partition_key(a.brokerage_id@, a.account_id@)),
        ),
        decode_account(account_item(a)) == Some(a@),
{
    lemma_account_item_lookup(a);
}

/// Two accounts with the same business key collide in the document database:
/// the unique index over the accounts covers exactly the fields that hold the
/// business key, both documents agree on them, and the write that breaks the
/// index is reported as a conflict.
pub proof fn lemma_document_duplicate_conflicts(x: BrokerageAccount, y: BrokerageAccount)
    requires
        x.brokerage_id@ == y.brokerage_id@,
        x.account_id@ == y.account_id@,
    ensures
        migration_001().1 matches ProvisionView::Collection(_, idx) && idx.len() == 1 && idx[0].2
            && idx[0].1 == seq![BROKERAGE_ID_FIELD@, ACCOUNT_ID_FIELD@],
        lookup(account_document(x), BROKERAGE_ID_FIELD@) == lookup(account_document(y), BROKERAGE_ID_FIELD@),
        lookup(account_document(x), ACCOUNT_ID_FIELD@) == lookup(account_document(y), ACCOUNT_ID_FIELD@),
        mongo_error_outcome(Some(MONGO_DUPLICATE_KEY_CODE)) == Outcome::Conflict,
{
    lemma_account_document_lookup(x);
    lemma_account_document_lookup(y);
}

/// Two accounts with the same business key collide in the key-value store:
/// their items carry the same partition key, the put is guarded on that key
/// being absent, and the failed guard is reported as a conflict.
pub proof fn lemma_item_duplicate_conflicts(x: DynamoBrokerageAccount, y: DynamoBrokerageAccount)
    requires
        x.wf(),
        y.wf(),
        x.brokerage_id@ == y.brokerage_id@,
        x.account_id@ == y.account_id@,
    ensures
        lookup(account_item(x), PK_COL_NAME@) == lookup(account_item(y), PK_COL_NAME@),
        insert_guard() == "attribute_not_exists("@ + PK_COL_NAME@ + ")"@,
        dynamo_error_outcome(true) == Outcome::Conflict,
{
    lemma_account_item_lookup(x);
    lemma_account_item_lookup(y);
}

/// The two backends classify the outcome of each account operation alike:
/// an insert that breaks the business key is a conflict on both, any other
/// write failure is a failure on both, a lookup of an absent key is an empty
/// result on both, and a lookup of a stored account succeeds on both.
pub proof fn lemma_backend_parity(a: BrokerageAccount, d: DynamoBrokerageAccount, code: Option<i32>)
    requires
        d.wf(),
    ensures
        mongo_error_outcome(code) == dynamo_error_outcome(code == Some(MONGO_DUPLICATE_KEY_CODE)),
        mongo_error_outcome(Some(MONGO_DUPLICATE_KEY_CODE)) == Outcome::Conflict,
        document_find_outcome(None) == Outcome::NotFound,
        item_query_outcome(d.brokerage_id@, d.account_id@, None) == Outcome::NotFound,
        item_query_outcome(d.brokerage_id@, d.account_id@, Some(Seq::empty())) == Outcome::NotFound,
        document_find_outcome(Some(account_document(a))) == Outcome::Success,
        item_query_outcome(d.brokerage_id@, d.account_id@, Some(seq![account_item(d)])) == Outcome::Success,
{
    lemma_document_round_trip(a);
    lemma_item_round_trip(d);
}

/// The two backends list the same business keys: where the document
/// database holds accounts and the key-value store holds accounts with the
/// same business keys, each record of either listing reads back as an
/// account, and the records at the same place carry the same business key.
pub proof fn lemma_listing_parity(ms: Seq<BrokerageAccount>, ds: Seq<DynamoBrokerageAccount>)
    requires
        ms.len() == ds.len(),
        forall|i: int|
            0 <= i < ds.len() ==> (#[trigger] ds[i]).wf() && ds[i].brokerage_id@ == ms[i].brokerage_id@
                && ds[i].account_id@ == ms[i].account_id@,
    ensures
        forall|i: int|
            0 <= i < ms.len() ==> (decode_account_document(account_document(#[trigger] ms[i])) matches Some(x)
                && decode_account(account_item(ds[i])) matches Some(y) && x.1 == y.2 && x.2 == y.1),
{
    assert forall|i: int| 0 <= i < ms.len() implies (decode_account_document(account_document(#[trigger] ms[i]))
        matches Some(x) && decode_account(account_item(ds[i])) matches Some(y) && x.1 == y.2 && x.2 == y.1) by {
        lemma_document_round_trip(ms[i]);
        assert(ds[i].wf());
        lemma_item_round_trip(ds[i]);
    }
}

/// Contract ids are unique where present: the securities index over the
/// contract id is unique and sparse, two securities with the same contract
/// id agree on the indexed field, so the second insert breaks the index and
/// is reported as a conflict, and a security without a contract id leaves
/// the field out of its document, so the index does not bind it.
pub proof fn lemma_security_conid_conflicts(x: Security, y: Security)
    ensures
        migration_002().1 matches ProvisionView::Collection(_, idx) && idx.len() == 2 && idx[1].1 == seq![
            IBKR_CONID_FIELD@,
        ] && idx[1].2 && idx[1].3,
        x.ibkr_conid is Some && x.ibkr_conid == y.ibkr_conid ==> lookup(security_document(x), IBKR_CONID_FIELD@)
            is Some && lookup(security_document(x), IBKR_CONID_FIELD@) == lookup(
            security_document(y),
            IBKR_CONID_FIELD@,
        ),
        x.ibkr_conid is None ==> lookup(security_document(x), IBKR_CONID_FIELD@) is None,
        mongo_error_outcome(Some(MONGO_DUPLICATE_KEY_CODE)) == Outcome::Conflict,
{
    lemma_security_document_lookup(x);
    lemma_security_document_lookup(y);
}

} // verus!
