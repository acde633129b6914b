use vstd::prelude::*;
use vstd::string::*;

use crate::dynamo::{PK_COL_NAME, TABLE_NAME};
use crate::migration::{
    indexes_view, strings_view, units_view, BillingMode, IndexSpec, KeyAttributeType, MigrationUnit, Provision,
    ProvisionView,
};
use crate::migration::{down_plan, up_plan};
use crate::schema::{
    apply_steps, distinct_containers, fresh_for, lemma_down_undoes_up, lemma_up_idempotent, plan_steps,
    same_container, SchemaObject,
};

verus! {

pub const ACCOUNTS_COLLECTION: &'static str = "brokerage_accounts";

pub const SECURITIES_COLLECTION: &'static str = "securities";

pub const TRADE_EXECUTIONS_COLLECTION: &'static str = "trade_executions";

pub const EOD_SUMMARIES_COLLECTION: &'static str = "eod_summaries";

pub const BROKERAGE_ACCOUNT_UNIQUE_INDEX_NAME: &'static str = "brokerage_account_unique_idx";

pub const SECURITIES_UNIQUE_INDEX_NAME: &'static str = "securities_unique_idx";

pub const SECURITIES_IBKR_CONID_INDEX_NAME: &'static str = "securities_conid_idx";

pub const TRADE_EXECUTIONS_UNIQUE_INDEX_NAME: &'static str = "trade_executions_unique_idx";

pub const TRADE_EXECUTIONS_BY_ACCOUNT_SECURITY_TIMESTAMP_INDEX_NAME: &'static str =
    "trade_executions_by_account_security_timestamp_idx";

pub const EOD_SUMMARIES_UNIQUE_INDEX_NAME: &'static str = "eod_summaries_unique_idx";

fn keys1(a: &str) -> (r: Vec<String>)
    ensures
        strings_view(r@) == seq![a@],
{
    let mut v: Vec<String> = Vec::new();
    v.push(String::from_str(a));
    assert(strings_view(v@) =~= seq![a@]);
    v
}

fn keys2(a: &str, b: &str) -> (r: Vec<String>)
    ensures
        strings_view(r@) == seq![a@, b@],
{
    let mut v: Vec<String> = Vec::new();
    v.push(String::from_str(a));
    v.push(String::from_str(b));
    assert(strings_view(v@) =~= seq![a@, b@]);
    v
}

fn keys3(a: &str, b: &str, c: &str) -> (r: Vec<String>)
    ensures
        strings_view(r@) == seq![a@, b@, c@],
{
    let mut v: Vec<String> = Vec::new();
    v.push(String::from_str(a));
    v.push(String::from_str(b));
    v.push(String::from_str(c));
    assert(strings_view(v@) =~= seq![a@, b@, c@]);
    v
}

/// Accounts: the collection, unique over (brokerage id, account id).
pub struct Migration001 {}

pub open spec fn migration_001() -> (Seq<char>, ProvisionView) {
    (
        "v001_add_accounts"@,
        ProvisionView::Collection(
            ACCOUNTS_COLLECTION@,
            seq![(BROKERAGE_ACCOUNT_UNIQUE_INDEX_NAME@, seq!["brokerage_id"@, "account_id"@], true, false)],
        ),
    )
}

impl Migration001 {
    pub fn unit(&self) -> (r: MigrationUnit)
        ensures
            r@ == migration_001(),
    {
        let mut indexes: Vec<IndexSpec> = Vec::new();
        indexes.push(IndexSpec::new(BROKERAGE_ACCOUNT_UNIQUE_INDEX_NAME, keys2("brokerage_id", "account_id"), true, false));
        assert(indexes_view(indexes@) =~= migration_001().1->Collection_1);
        let r = MigrationUnit {
            id: String::from_str("v001_add_accounts"),
            provision: Provision::Collection { name: String::from_str(ACCOUNTS_COLLECTION), indexes },
        };
        assert(r@ =~= migration_001());
        r
    }
}

/// Securities: the collection, unique over (ticker, listing exchange), and
/// unique over the external contract id among the securities that have one
/// (the index is sparse; a security without a contract id leaves the field out).
pub struct Migration002 {}

pub open spec fn migration_002() -> (Seq<char>, ProvisionView) {
    (
        "v002_add_security"@,
        ProvisionView::Collection(
            SECURITIES_COLLECTION@,
            seq![
                (SECURITIES_UNIQUE_INDEX_NAME@, seq!["ticker"@, "listing_exchange"@], true, false),
                (SECURITIES_IBKR_CONID_INDEX_NAME@, seq!["ibkr_conid"@], true, true),
            ],
        ),
    )
}

impl Migration002 {
    pub fn unit(&self) -> (r: MigrationUnit)
        ensures
            r@ == migration_002(),
    {
        let mut indexes: Vec<IndexSpec> = Vec::new();
        indexes.push(IndexSpec::new(SECURITIES_UNIQUE_INDEX_NAME, keys2("ticker", "listing_exchange"), true, false));
        indexes.push(IndexSpec::new(SECURITIES_IBKR_CONID_INDEX_NAME, keys1("ibkr_conid"), true, true));
        assert(indexes_view(indexes@) =~= migration_002().1->Collection_1);
        let r = MigrationUnit {
            id: String::from_str("v002_add_security"),
            provision: Provision::Collection { name: String::from_str(SECURITIES_COLLECTION), indexes },
        };
        assert(r@ =~= migration_002());
        r
    }
}

/// Trade executions: the collection, unique over (account identity, brokerage
/// execution id), and a lookup index over (account, security, timestamp).
pub struct Migration003 {}

pub open spec fn migration_003() -> (Seq<char>, ProvisionView) {
    (
        "v003_add_trade_executions"@,
        ProvisionView::Collection(
            TRADE_EXECUTIONS_COLLECTION@,
            seq![
                (TRADE_EXECUTIONS_UNIQUE_INDEX_NAME@, seq!["brokerage_account_id"@, "brokerage_execution_id"@], true, false),
                (
                    TRADE_EXECUTIONS_BY_ACCOUNT_SECURITY_TIMESTAMP_INDEX_NAME@,
                    seq!["brokerage_account_id"@, "security_id"@, "execution_timestamp"@],
                    false,
                    false,
                ),
            ],
        ),
    )
}

impl Migration003 {
    pub fn unit(&self) -> (r: MigrationUnit)
        ensures
            r@ == migration_003(),
    {
        let mut indexes: Vec<IndexSpec> = Vec::new();
        indexes.push(
            IndexSpec::new(
                TRADE_EXECUTIONS_UNIQUE_INDEX_NAME,
                keys2("brokerage_account_id", "brokerage_execution_id"),
                true,
                false,
            ),
        );
        indexes.push(
            IndexSpec::new(
                TRADE_EXECUTIONS_BY_ACCOUNT_SECURITY_TIMESTAMP_INDEX_NAME,
                keys3("brokerage_account_id", "security_id", "execution_timestamp"),
                false,
                false,
            ),
        );
        assert(indexes_view(indexes@) =~= migration_003().1->Collection_1);
        let r = MigrationUnit {
            id: String::from_str("v003_add_trade_executions"),
            provision: Provision::Collection { name: String::from_str(TRADE_EXECUTIONS_COLLECTION), indexes },
        };
        assert(r@ =~= migration_003());
        r
    }
}

/// End-of-day summaries: the collection, unique over (account identity, end
/// timestamp).
pub struct Migration004 {}

pub open spec fn migration_004() -> (Seq<char>, ProvisionView) {
    (
        "v004_add_eod_summary"@,
        ProvisionView::Collection(
            EOD_SUMMARIES_COLLECTION@,
            seq![(EOD_SUMMARIES_UNIQUE_INDEX_NAME@, seq!["brokerage_account_id"@, "end_timestamp_ms"@], true, false)],
        ),
    )
}

impl Migration004 {
    pub fn unit(&self) -> (r: MigrationUnit)
        ensures
            r@ == migration_004(),
    {
        let mut indexes: Vec<IndexSpec> = Vec::new();
        indexes.push(
            IndexSpec::new(EOD_SUMMARIES_UNIQUE_INDEX_NAME, keys2("brokerage_account_id", "end_timestamp_ms"), true, false),
        );
        assert(indexes_view(indexes@) =~= migration_004().1->Collection_1);
        let r = MigrationUnit {
            id: String::from_str("v004_add_eod_summary"),
            provision: Provision::Collection { name: String::from_str(EOD_SUMMARIES_COLLECTION), indexes },
        };
        assert(r@ =~= migration_004());
        r
    }
}

/// Accounts in the key-value store: the table, keyed by the partition key, a
/// string attribute, and billed per request.
pub struct MigrationV001 {}

pub open spec fn migration_v001() -> (Seq<char>, ProvisionView) {
    (
        "v001_add_brokerage_account"@,
        ProvisionView::Table(TABLE_NAME@, PK_COL_NAME@, KeyAttributeType::String, BillingMode::PayPerRequest),
    )
}

impl MigrationV001 {
    pub fn unit(&self) -> (r: MigrationUnit)
        ensures
            r@ == migration_v001(),
    {
        MigrationUnit {
            id: String::from_str("v001_add_brokerage_account"),
            provision: Provision::Table {
                name: String::from_str(TABLE_NAME),
                partition_key: String::from_str(PK_COL_NAME),
                key_type: KeyAttributeType::String,
                billing: BillingMode::PayPerRequest,
            },
        }
    }
}

pub open spec fn document_units() -> Seq<(Seq<char>, ProvisionView)> {
    seq![migration_001(), migration_002(), migration_003(), migration_004()]
}

pub open spec fn table_units() -> Seq<(Seq<char>, ProvisionView)> {
    seq![migration_v001()]
}

/// The document database's units, in version order.
pub fn document_migrations() -> (r: Vec<MigrationUnit>)
    ensures
        units_view(r@) == document_units(),
{
    let mut v: Vec<MigrationUnit> = Vec::new();
    v.push(Migration001 {}.unit());
    v.push(Migration002 {}.unit());
    v.push(Migration003 {}.unit());
    v.push(Migration004 {}.unit());
    assert(units_view(v@) =~= document_units());
    v
}

/// The key-value store's units, in version order.
pub fn table_migrations() -> (r: Vec<MigrationUnit>)
    ensures
        units_view(r@) == table_units(),
{
    let mut v: Vec<MigrationUnit> = Vec::new();
    v.push(MigrationV001 {}.unit());
    assert(units_view(v@) =~= table_units());
    v
}

/// Each of the document database's units provisions a collection of its own.
pub proof fn lemma_document_units_distinct()
    ensures
        distinct_containers(document_units()),
{
    reveal_strlit("brokerage_accounts");
    reveal_strlit("securities");
    reveal_strlit("trade_executions");
    reveal_strlit("eod_summaries");
    let u = document_units();
    assert(ACCOUNTS_COLLECTION@.len() == 18);
    assert(SECURITIES_COLLECTION@.len() == 10);
    assert(TRADE_EXECUTIONS_COLLECTION@.len() == 16);
    assert(EOD_SUMMARIES_COLLECTION@.len() == 13);
    assert forall|i: int, j: int| 0 <= i < j < u.len() implies !same_container(#[trigger] u[i].1, #[trigger] u[j].1) by {
        assert(u[0].1 == migration_001().1);
        assert(u[1].1 == migration_002().1);
        assert(u[2].1 == migration_003().1);
        assert(u[3].1 == migration_004().1);
    }
}

pub proof fn lemma_table_units_distinct()
    ensures
        distinct_containers(table_units()),
{
}

/// On a store that holds none of the library's collections, running the
/// document database's forward plan and then its reverse plan leaves the
/// schema as it was; running the forward plan twice leaves it as once.
pub proof fn lemma_document_plans(s: Set<SchemaObject>)
    requires
        fresh_for(s, document_units()),
    ensures
        apply_steps(apply_steps(s, plan_steps(up_plan(document_units()))), plan_steps(down_plan(document_units())))
            == s,
        apply_steps(apply_steps(s, plan_steps(up_plan(document_units()))), plan_steps(up_plan(document_units())))
            == apply_steps(s, plan_steps(up_plan(document_units()))),
{
    lemma_document_units_distinct();
    lemma_down_undoes_up(s, document_units());
    lemma_up_idempotent(s, document_units());
}

/// The same of the key-value store's plans, on a store without the
/// accounts table.
pub proof fn lemma_table_plans(s: Set<SchemaObject>)
    requires
        fresh_for(s, table_units()),
    ensures
        apply_steps(apply_steps(s, plan_steps(up_plan(table_units()))), plan_steps(down_plan(table_units()))) == s,
        apply_steps(apply_steps(s, plan_steps(up_plan(table_units()))), plan_steps(up_plan(table_units())))
            == apply_steps(s, plan_steps(up_plan(table_units()))),
{
    lemma_table_units_distinct();
    lemma_down_undoes_up(s, table_units());
    lemma_up_idempotent(s, table_units());
}

} // verus!
