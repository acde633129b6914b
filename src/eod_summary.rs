use vstd::prelude::*;

use crate::account::BrokerageAccount;
use crate::amount::Amount;
use crate::error::StoreError;
use crate::ids::{fresh_doc_id, DocId};
use crate::mongo::{
    account_from_find_one, decode_account_document, id_filter, id_filter_view, BROKERAGE_ACCOUNT_ID_FIELD,
    ID_FIELD,
};
use crate::record::{
    amount_bits, amount_field, fields_view, find_amount, find_id, find_int, find_optional_amount, id_field, int_field,
    lookup_amount, lookup_id, lookup_int, lookup_optional_amount, optional_amount_field, optional_amount_view,
    Field, FieldView,
};
use crate::trade_execution::MissingField;

verus! {


pub const START_TIMESTAMP_MS_FIELD: &'static str = "start_timestamp_ms";

pub const END_TIMESTAMP_MS_FIELD: &'static str = "end_timestamp_ms";

pub const STARTING_CASH_FIELD: &'static str = "starting_cash";

pub const ENDING_CASH_FIELD: &'static str = "ending_cash";

pub const COMMISSIONS_FIELD: &'static str = "commissions";

pub const COMMISSIONS_MTD_FIELD: &'static str = "commissions_mtd";

pub const COMMISSIONS_YTD_FIELD: &'static str = "commissions_ytd";

pub const DEPOSITS_FIELD: &'static str = "deposits";

pub const DEPOSITS_MTD_FIELD: &'static str = "deposits_mtd";

pub const DEPOSITS_YTD_FIELD: &'static str = "deposits_ytd";

pub const DIVIDENDS_FIELD: &'static str = "dividends";

pub const DIVIDENDS_MTD_FIELD: &'static str = "dividends_mtd";

pub const DIVIDENDS_YTD_FIELD: &'static str = "dividends_ytd";

pub const INTEREST_FIELD: &'static str = "interest";

pub const INTEREST_MTD_FIELD: &'static str = "interest_mtd";

pub const INTEREST_YTD_FIELD: &'static str = "interest_ytd";

pub const NET_TRADE_PURCHASES_FIELD: &'static str = "net_trade_purchases";

pub const NET_TRADE_SALES_FIELD: &'static str = "net_trade_sales";

pub const OTHER_FEES_FIELD: &'static str = "other_fees";

pub const OTHER_FEES_MTD_FIELD: &'static str = "other_fees_mtd";

pub const OTHER_FEES_YTD_FIELD: &'static str = "other_fees_ytd";

pub const WITHDRAWALS_FIELD: &'static str = "withdrawals";

pub const WITHDRAWALS_MTD_FIELD: &'static str = "withdrawals_mtd";

pub const WITHDRAWALS_YTD_FIELD: &'static str = "withdrawals_ytd";

/// The document under which the document database keeps a summary; an
/// unknown month-to-date or year-to-date total is kept as null.
pub open spec fn eod_summary_document(s: EODSummary) -> Seq<(Seq<char>, FieldView)> {
    seq![
        (ID_FIELD@, FieldView::Id(s.id.bytes@)),
        (BROKERAGE_ACCOUNT_ID_FIELD@, FieldView::Id(s.brokerage_account_id.bytes@)),
        (START_TIMESTAMP_MS_FIELD@, FieldView::Int(s.start_timestamp_ms as int)),
        (END_TIMESTAMP_MS_FIELD@, FieldView::Int(s.end_timestamp_ms as int)),
        (STARTING_CASH_FIELD@, FieldView::Double(s.starting_cash.bits)),
        (ENDING_CASH_FIELD@, FieldView::Double(s.ending_cash.bits)),
        (COMMISSIONS_FIELD@, FieldView::Double(s.commissions.bits)),
        (COMMISSIONS_MTD_FIELD@, optional_amount_view(s.commissions_mtd)),
        (COMMISSIONS_YTD_FIELD@, optional_amount_view(s.commissions_ytd)),
        (DEPOSITS_FIELD@, FieldView::Double(s.deposits.bits)),
        (DEPOSITS_MTD_FIELD@, optional_amount_view(s.deposits_mtd)),
        (DEPOSITS_YTD_FIELD@, optional_amount_view(s.deposits_ytd)),
        (DIVIDENDS_FIELD@, FieldView::Double(s.dividends.bits)),
        (DIVIDENDS_MTD_FIELD@, optional_amount_view(s.dividends_mtd)),
        (DIVIDENDS_YTD_FIELD@, optional_amount_view(s.dividends_ytd)),
        (INTEREST_FIELD@, FieldView::Double(s.interest.bits)),
        (INTEREST_MTD_FIELD@, optional_amount_view(s.interest_mtd)),
        (INTEREST_YTD_FIELD@, optional_amount_view(s.interest_ytd)),
        (NET_TRADE_PURCHASES_FIELD@, FieldView::Double(s.net_trade_purchases.bits)),
        (NET_TRADE_SALES_FIELD@, FieldView::Double(s.net_trade_sales.bits)),
        (OTHER_FEES_FIELD@, FieldView::Double(s.other_fees.bits)),
        (OTHER_FEES_MTD_FIELD@, optional_amount_view(s.other_fees_mtd)),
        (OTHER_FEES_YTD_FIELD@, optional_amount_view(s.other_fees_ytd)),
        (WITHDRAWALS_FIELD@, FieldView::Double(s.withdrawals.bits)),
        (WITHDRAWALS_MTD_FIELD@, optional_amount_view(s.withdrawals_mtd)),
        (WITHDRAWALS_YTD_FIELD@, optional_amount_view(s.withdrawals_ytd)),
    ]
}

/// A document holds every required field of a summary, and each optional
/// total as an amount or null (or not at all).
pub open spec fn eod_summary_document_valid(d: Seq<(Seq<char>, FieldView)>) -> bool {
    &&& lookup_id(d, ID_FIELD@) is Some
    &&& lookup_id(d, BROKERAGE_ACCOUNT_ID_FIELD@) is Some
    &&& lookup_int(d, START_TIMESTAMP_MS_FIELD@) is Some
    &&& lookup_int(d, END_TIMESTAMP_MS_FIELD@) is Some
    &&& lookup_amount(d, STARTING_CASH_FIELD@) is Some
    &&& lookup_amount(d, ENDING_CASH_FIELD@) is Some
    &&& lookup_amount(d, COMMISSIONS_FIELD@) is Some
    &&& lookup_optional_amount(d, COMMISSIONS_MTD_FIELD@) is Some
    &&& lookup_optional_amount(d, COMMISSIONS_YTD_FIELD@) is Some
    &&& lookup_amount(d, DEPOSITS_FIELD@) is Some
    &&& lookup_optional_amount(d, DEPOSITS_MTD_FIELD@) is Some
    &&& lookup_optional_amount(d, DEPOSITS_YTD_FIELD@) is Some
    &&& lookup_amount(d, DIVIDENDS_FIELD@) is Some
    &&& lookup_optional_amount(d, DIVIDENDS_MTD_FIELD@) is Some
    &&& lookup_optional_amount(d, DIVIDENDS_YTD_FIELD@) is Some
    &&& lookup_amount(d, INTEREST_FIELD@) is Some
    &&& lookup_optional_amount(d, INTEREST_MTD_FIELD@) is Some
    &&& lookup_optional_amount(d, INTEREST_YTD_FIELD@) is Some
    &&& lookup_amount(d, NET_TRADE_PURCHASES_FIELD@) is Some
    &&& lookup_amount(d, NET_TRADE_SALES_FIELD@) is Some
    &&& lookup_amount(d, OTHER_FEES_FIELD@) is Some
    &&& lookup_optional_amount(d, OTHER_FEES_MTD_FIELD@) is Some
    &&& lookup_optional_amount(d, OTHER_FEES_YTD_FIELD@) is Some
    &&& lookup_amount(d, WITHDRAWALS_FIELD@) is Some
    &&& lookup_optional_amount(d, WITHDRAWALS_MTD_FIELD@) is Some
    &&& lookup_optional_amount(d, WITHDRAWALS_YTD_FIELD@) is Some
}

/// A document holds exactly the fields of summary `s`.
pub open spec fn describes_eod_summary(d: Seq<(Seq<char>, FieldView)>, s: EODSummary) -> bool {
    &&& lookup_id(d, ID_FIELD@) == Some(s.id.bytes@)
    &&& lookup_id(d, BROKERAGE_ACCOUNT_ID_FIELD@) == Some(s.brokerage_account_id.bytes@)
    &&& lookup_int(d, START_TIMESTAMP_MS_FIELD@) == Some(s.start_timestamp_ms as int)
    &&& lookup_int(d, END_TIMESTAMP_MS_FIELD@) == Some(s.end_timestamp_ms as int)
    &&& lookup_amount(d, STARTING_CASH_FIELD@) == Some(s.starting_cash.bits)
    &&& lookup_amount(d, ENDING_CASH_FIELD@) == Some(s.ending_cash.bits)
    &&& lookup_amount(d, COMMISSIONS_FIELD@) == Some(s.commissions.bits)
    &&& lookup_optional_amount(d, COMMISSIONS_MTD_FIELD@) == Some(amount_bits(s.commissions_mtd))
    &&& lookup_optional_amount(d, COMMISSIONS_YTD_FIELD@) == Some(amount_bits(s.commissions_ytd))
    &&& lookup_amount(d, DEPOSITS_FIELD@) == Some(s.deposits.bits)
    &&& lookup_optional_amount(d, DEPOSITS_MTD_FIELD@) == Some(amount_bits(s.deposits_mtd))
    &&& lookup_optional_amount(d, DEPOSITS_YTD_FIELD@) == Some(amount_bits(s.deposits_ytd))
    &&& lookup_amount(d, DIVIDENDS_FIELD@) == Some(s.dividends.bits)
    &&& lookup_optional_amount(d, DIVIDENDS_MTD_FIELD@) == Some(amount_bits(s.dividends_mtd))
    &&& lookup_optional_amount(d, DIVIDENDS_YTD_FIELD@) == Some(amount_bits(s.dividends_ytd))
    &&& lookup_amount(d, INTEREST_FIELD@) == Some(s.interest.bits)
    &&& lookup_optional_amount(d, INTEREST_MTD_FIELD@) == Some(amount_bits(s.interest_mtd))
    &&& lookup_optional_amount(d, INTEREST_YTD_FIELD@) == Some(amount_bits(s.interest_ytd))
    &&& lookup_amount(d, NET_TRADE_PURCHASES_FIELD@) == Some(s.net_trade_purchases.bits)
    &&& lookup_amount(d, NET_TRADE_SALES_FIELD@) == Some(s.net_trade_sales.bits)
    &&& lookup_amount(d, OTHER_FEES_FIELD@) == Some(s.other_fees.bits)
    &&& lookup_optional_amount(d, OTHER_FEES_MTD_FIELD@) == Some(amount_bits(s.other_fees_mtd))
    &&& lookup_optional_amount(d, OTHER_FEES_YTD_FIELD@) == Some(amount_bits(s.other_fees_ytd))
    &&& lookup_amount(d, WITHDRAWALS_FIELD@) == Some(s.withdrawals.bits)
    &&& lookup_optional_amount(d, WITHDRAWALS_MTD_FIELD@) == Some(amount_bits(s.withdrawals_mtd))
    &&& lookup_optional_amount(d, WITHDRAWALS_YTD_FIELD@) == Some(amount_bits(s.withdrawals_ytd))
}

pub fn eod_summary_document_of(s: &EODSummary) -> (r: Vec<Field>)
    ensures
        fields_view(r@) == eod_summary_document(*s),
{
    let mut doc: Vec<Field> = Vec::new();
    doc.push(id_field(ID_FIELD, s.id));
    doc.push(id_field(BROKERAGE_ACCOUNT_ID_FIELD, s.brokerage_account_id));
    doc.push(int_field(START_TIMESTAMP_MS_FIELD, s.start_timestamp_ms));
    doc.push(int_field(END_TIMESTAMP_MS_FIELD, s.end_timestamp_ms));
    doc.push(amount_field(STARTING_CASH_FIELD, s.starting_cash));
    doc.push(amount_field(ENDING_CASH_FIELD, s.ending_cash));
    doc.push(amount_field(COMMISSIONS_FIELD, s.commissions));
    doc.push(optional_amount_field(COMMISSIONS_MTD_FIELD, s.commissions_mtd));
    doc.push(optional_amount_field(COMMISSIONS_YTD_FIELD, s.commissions_ytd));
    doc.push(amount_field(DEPOSITS_FIELD, s.deposits));
    doc.push(optional_amount_field(DEPOSITS_MTD_FIELD, s.deposits_mtd));
    doc.push(optional_amount_field(DEPOSITS_YTD_FIELD, s.deposits_ytd));
    doc.push(amount_field(DIVIDENDS_FIELD, s.dividends));
    doc.push(optional_amount_field(DIVIDENDS_MTD_FIELD, s.dividends_mtd));
    doc.push(optional_amount_field(DIVIDENDS_YTD_FIELD, s.dividends_ytd));
    doc.push(amount_field(INTEREST_FIELD, s.interest));
    doc.push(optional_amount_field(INTEREST_MTD_FIELD, s.interest_mtd));
    doc.push(optional_amount_field(INTEREST_YTD_FIELD, s.interest_ytd));
    doc.push(amount_field(NET_TRADE_PURCHASES_FIELD, s.net_trade_purchases));
    doc.push(amount_field(NET_TRADE_SALES_FIELD, s.net_trade_sales));
    doc.push(amount_field(OTHER_FEES_FIELD, s.other_fees));
    doc.push(optional_amount_field(OTHER_FEES_MTD_FIELD, s.other_fees_mtd));
    doc.push(optional_amount_field(OTHER_FEES_YTD_FIELD, s.other_fees_ytd));
    doc.push(amount_field(WITHDRAWALS_FIELD, s.withdrawals));
    doc.push(optional_amount_field(WITHDRAWALS_MTD_FIELD, s.withdrawals_mtd));
    doc.push(optional_amount_field(WITHDRAWALS_YTD_FIELD, s.withdrawals_ytd));
    assert(fields_view(doc@) =~= eod_summary_document(*s));
    doc
}

/// The summary that a stored document stands for.
pub fn eod_summary_from_document(doc: &Vec<Field>) -> (r: Result<EODSummary, StoreError>)
    ensures
        eod_summary_document_valid(fields_view(doc@)) <==> r is Ok,
        match r {
            Ok(s) => describes_eod_summary(fields_view(doc@), s),
            Err(e) => e is MalformedRecord,
        },
{
    let id = match find_id(doc, ID_FIELD) {
        Some(v) => v,
        None => { return Err(StoreError::MalformedRecord { field: ID_FIELD.to_owned() }); },
    };
    let brokerage_account_id = match find_id(doc, BROKERAGE_ACCOUNT_ID_FIELD) {
        Some(v) => v,
        None => { return Err(StoreError::MalformedRecord { field: BROKERAGE_ACCOUNT_ID_FIELD.to_owned() }); },
    };
    let start_timestamp_ms = match find_int(doc, START_TIMESTAMP_MS_FIELD) {
        Some(v) => v,
        None => { return Err(StoreError::MalformedRecord { field: START_TIMESTAMP_MS_FIELD.to_owned() }); },
    };
    let end_timestamp_ms = match find_int(doc, END_TIMESTAMP_MS_FIELD) {
        Some(v) => v,
        None => { return Err(StoreError::MalformedRecord { field: END_TIMESTAMP_MS_FIELD.to_owned() }); },
    };
    let starting_cash = match find_amount(doc, STARTING_CASH_FIELD) {
        Some(v) => v,
        None => { return Err(StoreError::MalformedRecord { field: STARTING_CASH_FIELD.to_owned() }); },
    };
    let ending_cash = match find_amount(doc, ENDING_CASH_FIELD) {
        Some(v) => v,
        None => { return Err(StoreError::MalformedRecord { field: ENDING_CASH_FIELD.to_owned() }); },
    };
    let commissions = match find_amount(doc, COMMISSIONS_FIELD) {
        Some(v) => v,
        None => { return Err(StoreError::MalformedRecord { field: COMMISSIONS_FIELD.to_owned() }); },
    };
    let commissions_mtd = match find_optional_amount(doc, COMMISSIONS_MTD_FIELD) {
        Some(v) => v,
        None => { return Err(StoreError::MalformedRecord { field: COMMISSIONS_MTD_FIELD.to_owned() }); },
    };
    let commissions_ytd = match find_optional_amount(doc, COMMISSIONS_YTD_FIELD) {
        Some(v) => v,
        None => { return Err(StoreError::MalformedRecord { field: COMMISSIONS_YTD_FIELD.to_owned() }); },
    };
    let deposits = match find_amount(doc, DEPOSITS_FIELD) {
        Some(v) => v,
        None => { return Err(StoreError::MalformedRecord { field: DEPOSITS_FIELD.to_owned() }); },
    };
    let deposits_mtd = match find_optional_amount(doc, DEPOSITS_MTD_FIELD) {
        Some(v) => v,
        None => { return Err(StoreError::MalformedRecord { field: DEPOSITS_MTD_FIELD.to_owned() }); },
    };
    let deposits_ytd = match find_optional_amount(doc, DEPOSITS_YTD_FIELD) {
        Some(v) => v,
        None => { return Err(StoreError::MalformedRecord { field: DEPOSITS_YTD_FIELD.to_owned() }); },
    };
    let dividends = match find_amount(doc, DIVIDENDS_FIELD) {
        Some(v) => v,
        None => { return Err(StoreError::MalformedRecord { field: DIVIDENDS_FIELD.to_owned() }); },
    };
    let dividends_mtd = match find_optional_amount(doc, DIVIDENDS_MTD_FIELD) {
        Some(v) => v,
        None => { return Err(StoreError::MalformedRecord { field: DIVIDENDS_MTD_FIELD.to_owned() }); },
    };
    let dividends_ytd = match find_optional_amount(doc, DIVIDENDS_YTD_FIELD) {
        Some(v) => v,
        None => { return Err(StoreError::MalformedRecord { field: DIVIDENDS_YTD_FIELD.to_owned() }); },
    };
    let interest = match find_amount(doc, INTEREST_FIELD) {
        Some(v) => v,
        None => { return Err(StoreError::MalformedRecord { field: INTEREST_FIELD.to_owned() }); },
    };
    let interest_mtd = match find_optional_amount(doc, INTEREST_MTD_FIELD) {
        Some(v) => v,
        None => { return Err(StoreError::MalformedRecord { field: INTEREST_MTD_FIELD.to_owned() }); },
    };
    let interest_ytd = match find_optional_amount(doc, INTEREST_YTD_FIELD) {
        Some(v) => v,
        None => { return Err(StoreError::MalformedRecord { field: INTEREST_YTD_FIELD.to_owned() }); },
    };
    let net_trade_purchases = match find_amount(doc, NET_TRADE_PURCHASES_FIELD) {
        Some(v) => v,
        None => { return Err(StoreError::MalformedRecord { field: NET_TRADE_PURCHASES_FIELD.to_owned() }); },
    };
    let net_trade_sales = match find_amount(doc, NET_TRADE_SALES_FIELD) {
        Some(v) => v,
        None => { return Err(StoreError::MalformedRecord { field: NET_TRADE_SALES_FIELD.to_owned() }); },
    };
    let other_fees = match find_amount(doc, OTHER_FEES_FIELD) {
        Some(v) => v,
        None => { return Err(StoreError::MalformedRecord { field: OTHER_FEES_FIELD.to_owned() }); },
    };
    let other_fees_mtd = match find_optional_amount(doc, OTHER_FEES_MTD_FIELD) {
        Some(v) => v,
        None => { return Err(StoreError::MalformedRecord { field: OTHER_FEES_MTD_FIELD.to_owned() }); },
    };
    let other_fees_ytd = match find_optional_amount(doc, OTHER_FEES_YTD_FIELD) {
        Some(v) => v,
        None => { return Err(StoreError::MalformedRecord { field: OTHER_FEES_YTD_FIELD.to_owned() }); },
    };
    let withdrawals = match find_amount(doc, WITHDRAWALS_FIELD) {
        Some(v) => v,
        None => { return Err(StoreError::MalformedRecord { field: WITHDRAWALS_FIELD.to_owned() }); },
    };
    let withdrawals_mtd = match find_optional_amount(doc, WITHDRAWALS_MTD_FIELD) {
        Some(v) => v,
        None => { return Err(StoreError::MalformedRecord { field: WITHDRAWALS_MTD_FIELD.to_owned() }); },
    };
    let withdrawals_ytd = match find_optional_amount(doc, WITHDRAWALS_YTD_FIELD) {
        Some(v) => v,
        None => { return Err(StoreError::MalformedRecord { field: WITHDRAWALS_YTD_FIELD.to_owned() }); },
    };
    Ok(EODSummary {
        id,
        brokerage_account_id,
        start_timestamp_ms,
        end_timestamp_ms,
        starting_cash,
        ending_cash,
        commissions,
        commissions_mtd,
        commissions_ytd,
        deposits,
        deposits_mtd,
        deposits_ytd,
        dividends,
        dividends_mtd,
        dividends_ytd,
        interest,
        interest_mtd,
        interest_ytd,
        net_trade_purchases,
        net_trade_sales,
        other_fees,
        other_fees_mtd,
        other_fees_ytd,
        withdrawals,
        withdrawals_mtd,
        withdrawals_ytd,
    })
}

/// Every summary of a listing, in the order of the documents; the first
/// malformed document makes the whole result an error.
pub fn eod_summaries_from_documents(docs: &Vec<Vec<Field>>) -> (r: Result<Vec<EODSummary>, StoreError>)
    ensures
        match r {
            Ok(v) => v.len() == docs.len() && forall|i: int|
                0 <= i < v.len() ==> describes_eod_summary(fields_view(#[trigger] docs[i]@), v[i]),
            Err(e) => e is MalformedRecord && exists|i: int|
                0 <= i < docs.len() && !eod_summary_document_valid(fields_view(#[trigger] docs[i]@)),
        },
{
    let mut out: Vec<EODSummary> = Vec::new();
    let mut i: usize = 0;
    while i < docs.len()
        invariant
            i <= docs.len(),
            out.len() == i,
            forall|j: int| 0 <= j < i ==> describes_eod_summary(fields_view(#[trigger] docs[j]@), out[j]),
        decreases docs.len() - i,
    {
        match eod_summary_from_document(&docs[i]) {
            Ok(s) => out.push(s),
            Err(e) => {
                return Err(e);
            },
        }
        i = i + 1;
    }
    Ok(out)
}

/// The cash summary of one account over one trading day. Each flow has its
/// amount for the day and, where known, its month-to-date and year-to-date
/// totals.
#[derive(Clone, Debug)]
pub struct EODSummary {
    pub id: DocId,
    pub brokerage_account_id: DocId,
    pub start_timestamp_ms: i64,
    pub end_timestamp_ms: i64,
    pub starting_cash: Amount,
    pub ending_cash: Amount,
    pub commissions: Amount,
    pub commissions_mtd: Option<Amount>,
    pub commissions_ytd: Option<Amount>,
    pub deposits: Amount,
    pub deposits_mtd: Option<Amount>,
    pub deposits_ytd: Option<Amount>,
    pub dividends: Amount,
    pub dividends_mtd: Option<Amount>,
    pub dividends_ytd: Option<Amount>,
    pub interest: Amount,
    pub interest_mtd: Option<Amount>,
    pub interest_ytd: Option<Amount>,
    pub net_trade_purchases: Amount,
    pub net_trade_sales: Amount,
    pub other_fees: Amount,
    pub other_fees_mtd: Option<Amount>,
    pub other_fees_ytd: Option<Amount>,
    pub withdrawals: Amount,
    pub withdrawals_mtd: Option<Amount>,
    pub withdrawals_ytd: Option<Amount>,
}

/// Assembles an end-of-day summary; the month-to-date and year-to-date
/// totals are optional, every other field is required.
#[derive(Clone, Debug)]
pub struct Builder {
    pub id: DocId,
    pub brokerage_account_id: Option<DocId>,
    pub start_timestamp_ms: Option<i64>,
    pub end_timestamp_ms: Option<i64>,
    pub starting_cash: Option<Amount>,
    pub ending_cash: Option<Amount>,
    pub commissions: Option<Amount>,
    pub commissions_mtd: Option<Amount>,
    pub commissions_ytd: Option<Amount>,
    pub deposits: Option<Amount>,
    pub deposits_mtd: Option<Amount>,
    pub deposits_ytd: Option<Amount>,
    pub dividends: Option<Amount>,
    pub dividends_mtd: Option<Amount>,
    pub dividends_ytd: Option<Amount>,
    pub interest: Option<Amount>,
    pub interest_mtd: Option<Amount>,
    pub interest_ytd: Option<Amount>,
    pub net_trade_purchases: Option<Amount>,
    pub net_trade_sales: Option<Amount>,
    pub other_fees: Option<Amount>,
    pub other_fees_mtd: Option<Amount>,
    pub other_fees_ytd: Option<Amount>,
    pub withdrawals: Option<Amount>,
    pub withdrawals_mtd: Option<Amount>,
    pub withdrawals_ytd: Option<Amount>,
}

/// The first required field, in declaration order, that a builder lacks.
pub open spec fn first_missing(b: Builder) -> Option<Seq<char>> {
    if b.brokerage_account_id is None {
        Some("brokerage_account_id"@)
    } else if b.start_timestamp_ms is None {
        Some("start_timestamp_ms"@)
    } else if b.end_timestamp_ms is None {
        Some("end_timestamp_ms"@)
    } else if b.starting_cash is None {
        Some("starting_cash"@)
    } else if b.ending_cash is None {
        Some("ending_cash"@)
    } else if b.commissions is None {
        Some("commissions"@)
    } else if b.deposits is None {
        Some("deposits"@)
    } else if b.dividends is None {
        Some("dividends"@)
    } else if b.interest is None {
        Some("interest"@)
    } else if b.net_trade_purchases is None {
        Some("net_trade_purchases"@)
    } else if b.net_trade_sales is None {
        Some("net_trade_sales"@)
    } else if b.other_fees is None {
        Some("other_fees"@)
    } else if b.withdrawals is None {
        Some("withdrawals"@)
    } else {
        None
    }
}

impl EODSummary {
    pub fn builder() -> (r: Builder)
        ensures
            r.brokerage_account_id is None,
            r.start_timestamp_ms is None,
            r.end_timestamp_ms is None,
            r.starting_cash is None,
            r.ending_cash is None,
            r.commissions is None,
            r.commissions_mtd is None,
            r.commissions_ytd is None,
            r.deposits is None,
            r.deposits_mtd is None,
            r.deposits_ytd is None,
            r.dividends is None,
            r.dividends_mtd is None,
            r.dividends_ytd is None,
            r.interest is None,
            r.interest_mtd is None,
            r.interest_ytd is None,
            r.net_trade_purchases is None,
            r.net_trade_sales is None,
            r.other_fees is None,
            r.other_fees_mtd is None,
            r.other_fees_ytd is None,
            r.withdrawals is None,
            r.withdrawals_mtd is None,
            r.withdrawals_ytd is None,
    {
        Builder {
            id: fresh_doc_id(),
            brokerage_account_id: None,
            start_timestamp_ms: None,
            end_timestamp_ms: None,
            starting_cash: None,
            ending_cash: None,
            commissions: None,
            commissions_mtd: None,
            commissions_ytd: None,
            deposits: None,
            deposits_mtd: None,
            deposits_ytd: None,
            dividends: None,
            dividends_mtd: None,
            dividends_ytd: None,
            interest: None,
            interest_mtd: None,
            interest_ytd: None,
            net_trade_purchases: None,
            net_trade_sales: None,
            other_fees: None,
            other_fees_mtd: None,
            other_fees_ytd: None,
            withdrawals: None,
            withdrawals_mtd: None,
            withdrawals_ytd: None,
        }
    }

    pub fn id(&self) -> (r: DocId)
        ensures
            r == self.id,
    {
        self.id
    }

    pub fn brokerage_account_id(&self) -> (r: DocId)
        ensures
            r == self.brokerage_account_id,
    {
        self.brokerage_account_id
    }

    pub fn start_timestamp_ms(&self) -> (r: i64)
        ensures
            r == self.start_timestamp_ms,
    {
        self.start_timestamp_ms
    }

    pub fn end_timestamp_ms(&self) -> (r: i64)
        ensures
            r == self.end_timestamp_ms,
    {
        self.end_timestamp_ms
    }

    pub fn starting_cash(&self) -> (r: Amount)
        ensures
            r == self.starting_cash,
    {
        self.starting_cash
    }

    pub fn ending_cash(&self) -> (r: Amount)
        ensures
            r == self.ending_cash,
    {
        self.ending_cash
    }

    pub fn commissions(&self) -> (r: Amount)
        ensures
            r == self.commissions,
    {
        self.commissions
    }

    pub fn deposits(&self) -> (r: Amount)
        ensures
            r == self.deposits,
    {
        self.deposits
    }

    pub fn dividends(&self) -> (r: Amount)
        ensures
            r == self.dividends,
    {
        self.dividends
    }

    pub fn interest(&self) -> (r: Amount)
        ensures
            r == self.interest,
    {
        self.interest
    }

    pub fn net_trade_purchases(&self) -> (r: Amount)
        ensures
            r == self.net_trade_purchases,
    {
        self.net_trade_purchases
    }

    pub fn net_trade_sales(&self) -> (r: Amount)
        ensures
            r == self.net_trade_sales,
    {
        self.net_trade_sales
    }

    pub fn other_fees(&self) -> (r: Amount)
        ensures
            r == self.other_fees,
    {
        self.other_fees
    }

    pub fn withdrawals(&self) -> (r: Amount)
        ensures
            r == self.withdrawals,
    {
        self.withdrawals
    }

    /// The filter that finds the account this summary belongs to.
    pub fn brokerage_account_filter(&self) -> (r: Vec<Field>)
        ensures
            fields_view(r@) == id_filter_view(self.brokerage_account_id.bytes@),
    {
        id_filter(self.brokerage_account_id)
    }

    /// The filter that lists the summaries of one account.
    pub fn account_filter(brokerage_account_id: DocId) -> (r: Vec<Field>)
        ensures
            fields_view(r@) == seq![(BROKERAGE_ACCOUNT_ID_FIELD@, FieldView::Id(brokerage_account_id.bytes@))],
    {
        let mut f: Vec<Field> = Vec::new();
        f.push(id_field(BROKERAGE_ACCOUNT_ID_FIELD, brokerage_account_id));
        assert(fields_view(f@) =~= seq![(BROKERAGE_ACCOUNT_ID_FIELD@, FieldView::Id(brokerage_account_id.bytes@))]);
        f
    }

    /// The account this summary belongs to, from what the lookup with
    /// `brokerage_account_filter` found: nothing, or a document of another
    /// identity, means the reference dangles.
    pub fn brokerage_account(&self, found: Option<Vec<Field>>) -> (r: Result<BrokerageAccount, StoreError>)
        ensures
            match found {
                None => r is Err && r->Err_0 is DanglingReference,
                Some(d) => match decode_account_document(fields_view(d@)) {
                    None => r is Err && r->Err_0 is MalformedRecord,
                    Some(v) => if v.0 == self.brokerage_account_id.bytes@ {
                        r is Ok && r->Ok_0@ == v
                    } else {
                        r is Err && r->Err_0 is DanglingReference
                    },
                },
            },
    {
        match account_from_find_one(found) {
            Ok(Some(a)) => if a.id == self.brokerage_account_id {
                Ok(a)
            } else {
                Err(StoreError::DanglingReference)
            },
            Ok(None) => Err(StoreError::DanglingReference),
            Err(e) => Err(e),
        }
    }
}

impl Builder {
    pub fn brokerage_account_id(self, value: DocId) -> (r: Builder)
        ensures
            r == (Builder { brokerage_account_id: Some(value), ..self }),
    {
        Builder { brokerage_account_id: Some(value), ..self }
    }

    pub fn start_timestamp_ms(self, value: i64) -> (r: Builder)
        ensures
            r == (Builder { start_timestamp_ms: Some(value), ..self }),
    {
        Builder { start_timestamp_ms: Some(value), ..self }
    }

    pub fn end_timestamp_ms(self, value: i64) -> (r: Builder)
        ensures
            r == (Builder { end_timestamp_ms: Some(value), ..self }),
    {
        Builder { end_timestamp_ms: Some(value), ..self }
    }

    pub fn starting_cash(self, value: Amount) -> (r: Builder)
        ensures
            r == (Builder { starting_cash: Some(value), ..self }),
    {
        Builder { starting_cash: Some(value), ..self }
    }

    pub fn ending_cash(self, value: Amount) -> (r: Builder)
        ensures
            r == (Builder { ending_cash: Some(value), ..self }),
    {
        Builder { ending_cash: Some(value), ..self }
    }

    pub fn commissions(self, value: Amount) -> (r: Builder)
        ensures
            r == (Builder { commissions: Some(value), ..self }),
    {
        Builder { commissions: Some(value), ..self }
    }

    pub fn commissions_mtd(self, value: Amount) -> (r: Builder)
        ensures
            r == (Builder { commissions_mtd: Some(value), ..self }),
    {
        Builder { commissions_mtd: Some(value), ..self }
    }

    pub fn commissions_ytd(self, value: Amount) -> (r: Builder)
        ensures
            r == (Builder { commissions_ytd: Some(value), ..self }),
    {
        Builder { commissions_ytd: Some(value), ..self }
    }

    pub fn deposits(self, value: Amount) -> (r: Builder)
        ensures
            r == (Builder { deposits: Some(value), ..self }),
    {
        Builder { deposits: Some(value), ..self }
    }

    pub fn deposits_mtd(self, value: Amount) -> (r: Builder)
        ensures
            r == (Builder { deposits_mtd: Some(value), ..self }),
    {
        Builder { deposits_mtd: Some(value), ..self }
    }

    pub fn deposits_ytd(self, value: Amount) -> (r: Builder)
        ensures
            r == (Builder { deposits_ytd: Some(value), ..self }),
    {
        Builder { deposits_ytd: Some(value), ..self }
    }

    pub fn dividends(self, value: Amount) -> (r: Builder)
        ensures
            r == (Builder { dividends: Some(value), ..self }),
    {
        Builder { dividends: Some(value), ..self }
    }

    pub fn dividends_mtd(self, value: Amount) -> (r: Builder)
        ensures
            r == (Builder { dividends_mtd: Some(value), ..self }),
    {
        Builder { dividends_mtd: Some(value), ..self }
    }

    pub fn dividends_ytd(self, value: Amount) -> (r: Builder)
        ensures
            r == (Builder { dividends_ytd: Some(value), ..self }),
    {
        Builder { dividends_ytd: Some(value), ..self }
    }

    pub fn interest(self, value: Amount) -> (r: Builder)
        ensures
            r == (Builder { interest: Some(value), ..self }),
    {
        Builder { interest: Some(value), ..self }
    }

    pub fn interest_mtd(self, value: Amount) -> (r: Builder)
        ensures
            r == (Builder { interest_mtd: Some(value), ..self }),
    {
        Builder { interest_mtd: Some(value), ..self }
    }

    pub fn interest_ytd(self, value: Amount) -> (r: Builder)
        ensures
            r == (Builder { interest_ytd: Some(value), ..self }),
    {
        Builder { interest_ytd: Some(value), ..self }
    }

    pub fn net_trade_purchases(self, value: Amount) -> (r: Builder)
        ensures
            r == (Builder { net_trade_purchases: Some(value), ..self }),
    {
        Builder { net_trade_purchases: Some(value), ..self }
    }

    pub fn net_trade_sales(self, value: Amount) -> (r: Builder)
        ensures
            r == (Builder { net_trade_sales: Some(value), ..self }),
    {
        Builder { net_trade_sales: Some(value), ..self }
    }

    pub fn other_fees(self, value: Amount) -> (r: Builder)
        ensures
            r == (Builder { other_fees: Some(value), ..self }),
    {
        Builder { other_fees: Some(value), ..self }
    }

    pub fn other_fees_mtd(self, value: Amount) -> (r: Builder)
        ensures
            r == (Builder { other_fees_mtd: Some(value), ..self }),
    {
        Builder { other_fees_mtd: Some(value), ..self }
    }

    pub fn other_fees_ytd(self, value: Amount) -> (r: Builder)
        ensures
            r == (Builder { other_fees_ytd: Some(value), ..self }),
    {
        Builder { other_fees_ytd: Some(value), ..self }
    }

    pub fn withdrawals(self, value: Amount) -> (r: Builder)
        ensures
            r == (Builder { withdrawals: Some(value), ..self }),
    {
        Builder { withdrawals: Some(value), ..self }
    }

    pub fn withdrawals_mtd(self, value: Amount) -> (r: Builder)
        ensures
            r == (Builder { withdrawals_mtd: Some(value), ..self }),
    {
        Builder { withdrawals_mtd: Some(value), ..self }
    }

    pub fn withdrawals_ytd(self, value: Amount) -> (r: Builder)
        ensures
            r == (Builder { withdrawals_ytd: Some(value), ..self }),
    {
        Builder { withdrawals_ytd: Some(value), ..self }
    }

    /// The summary, when every required field is set; otherwise the first
    /// required field that is missing. Unset optional totals stay unset.
    pub fn build(self) -> (r: Result<EODSummary, MissingField>)
        ensures
            match r {
                Ok(s) => first_missing(self) is None && s.id == self.id
                    && Some(s.brokerage_account_id) == self.brokerage_account_id
                    && Some(s.start_timestamp_ms) == self.start_timestamp_ms
                    && Some(s.end_timestamp_ms) == self.end_timestamp_ms
                    && Some(s.starting_cash) == self.starting_cash
                    && Some(s.ending_cash) == self.ending_cash
                    && Some(s.commissions) == self.commissions
                    && s.commissions_mtd == self.commissions_mtd
                    && s.commissions_ytd == self.commissions_ytd
                    && Some(s.deposits) == self.deposits
                    && s.deposits_mtd == self.deposits_mtd
                    && s.deposits_ytd == self.deposits_ytd
                    && Some(s.dividends) == self.dividends
                    && s.dividends_mtd == self.dividends_mtd
                    && s.dividends_ytd == self.dividends_ytd
                    && Some(s.interest) == self.interest
                    && s.interest_mtd == self.interest_mtd
                    && s.interest_ytd == self.interest_ytd
                    && Some(s.net_trade_purchases) == self.net_trade_purchases
                    && Some(s.net_trade_sales) == self.net_trade_sales
                    && Some(s.other_fees) == self.other_fees
                    && s.other_fees_mtd == self.other_fees_mtd
                    && s.other_fees_ytd == self.other_fees_ytd
                    && Some(s.withdrawals) == self.withdrawals
                    && s.withdrawals_mtd == self.withdrawals_mtd
                    && s.withdrawals_ytd == self.withdrawals_ytd
,
                Err(e) => first_missing(self) == Some(e.field@),
            },
    {
        let brokerage_account_id = match self.brokerage_account_id {
            Some(v) => v,
            None => { return Err(MissingField { field: "brokerage_account_id" }); },
        };
        let start_timestamp_ms = match self.start_timestamp_ms {
            Some(v) => v,
            None => { return Err(MissingField { field: "start_timestamp_ms" }); },
        };
        let end_timestamp_ms = match self.end_timestamp_ms {
            Some(v) => v,
            None => { return Err(MissingField { field: "end_timestamp_ms" }); },
        };
        let starting_cash = match self.starting_cash {
            Some(v) => v,
            None => { return Err(MissingField { field: "starting_cash" }); },
        };
        let ending_cash = match self.ending_cash {
            Some(v) => v,
            None => { return Err(MissingField { field: "ending_cash" }); },
        };
        let commissions = match self.commissions {
            Some(v) => v,
            None => { return Err(MissingField { field: "commissions" }); },
        };
        let deposits = match self.deposits {
            Some(v) => v,
            None => { return Err(MissingField { field: "deposits" }); },
        };
        let dividends = match self.dividends {
            Some(v) => v,
            None => { return Err(MissingField { field: "dividends" }); },
        };
        let interest = match self.interest {
            Some(v) => v,
            None => { return Err(MissingField { field: "interest" }); },
        };
        let net_trade_purchases = match self.net_trade_purchases {
            Some(v) => v,
            None => { return Err(MissingField { field: "net_trade_purchases" }); },
        };
        let net_trade_sales = match self.net_trade_sales {
            Some(v) => v,
            None => { return Err(MissingField { field: "net_trade_sales" }); },
        };
        let other_fees = match self.other_fees {
            Some(v) => v,
            None => { return Err(MissingField { field: "other_fees" }); },
        };
        let withdrawals = match self.withdrawals {
            Some(v) => v,
            None => { return Err(MissingField { field: "withdrawals" }); },
        };
        Ok(EODSummary {
            id: self.id,
            brokerage_account_id,
            start_timestamp_ms,
            end_timestamp_ms,
            starting_cash,
            ending_cash,
            commissions,
            commissions_mtd: self.commissions_mtd,
            commissions_ytd: self.commissions_ytd,
            deposits,
            deposits_mtd: self.deposits_mtd,
            deposits_ytd: self.deposits_ytd,
            dividends,
            dividends_mtd: self.dividends_mtd,
            dividends_ytd: self.dividends_ytd,
            interest,
            interest_mtd: self.interest_mtd,
            interest_ytd: self.interest_ytd,
            net_trade_purchases,
            net_trade_sales,
            other_fees,
            other_fees_mtd: self.other_fees_mtd,
            other_fees_ytd: self.other_fees_ytd,
            withdrawals,
            withdrawals_mtd: self.withdrawals_mtd,
            withdrawals_ytd: self.withdrawals_ytd,
        })
    }
}

} // verus!
