use vstd::prelude::*;
use vstd::string::*;

use crate::error::StoreError;
use crate::ids::{fresh_doc_id, DocId};
use crate::mongo::ID_FIELD;
use crate::record::{
    fields_view, find_field, find_id, find_text, id_field, int_field, lookup, lookup_id, lookup_text,
    text_field, Field, FieldValue, FieldView,
};

verus! {

pub const LISTING_EXCHANGE_FIELD: &'static str = "listing_exchange";

pub const SECURITY_TYPE_FIELD: &'static str = "security_type";

pub const TICKER_FIELD: &'static str = "ticker";

pub const IBKR_CONID_FIELD: &'static str = "ibkr_conid";

pub const STOCK_NAME: &'static str = "Stock";

#[derive(Clone, Copy, Debug, PartialEq, Eq, Structural)]
pub enum SecurityType {
    Stock,
}

impl SecurityType {
    pub open spec fn name_spec(&self) -> Seq<char> {
        match self {
            SecurityType::Stock => STOCK_NAME@,
        }
    }

    /// The name under which a document keeps the type.
    pub fn name(&self) -> (r: &'static str)
        ensures
            r@ == self.name_spec(),
    {
        match self {
            SecurityType::Stock => STOCK_NAME,
        }
    }

    pub fn from_name(name: &str) -> (r: Option<SecurityType>)
        ensures
            match r {
                Some(t) => t.name_spec() == name@,
                None => name@ != STOCK_NAME@,
            },
    {
        if String::from_str(name) == String::from_str(STOCK_NAME) {
            Some(SecurityType::Stock)
        } else {
            None
        }
    }
}

pub open spec fn kind_named(name: Seq<char>) -> Option<SecurityType> {
    if name == STOCK_NAME@ {
        Some(SecurityType::Stock)
    } else {
        None
    }
}

/// A tradable security: identity, ticker, listing exchange, type and, when
/// known, the broker's contract id.
#[derive(Clone, Debug)]
pub struct Security {
    pub id: DocId,
    pub listing_exchange: String,
    pub security_type: SecurityType,
    pub ticker: String,
    pub ibkr_conid: Option<u32>,
}

impl View for Security {
    type V = (Seq<u8>, Seq<char>, SecurityType, Seq<char>, Option<u32>);

    /// (identity, listing exchange, type, ticker, contract id)
    open spec fn view(&self) -> (Seq<u8>, Seq<char>, SecurityType, Seq<char>, Option<u32>) {
        (self.id.bytes@, self.listing_exchange@, self.security_type, self.ticker@, self.ibkr_conid)
    }
}

impl PartialEq for Security {
    fn eq(&self, other: &Security) -> (r: bool) {
        self.id == other.id && self.listing_exchange == other.listing_exchange && self.security_type
            == other.security_type && self.ticker == other.ticker && self.ibkr_conid == other.ibkr_conid
    }
}

impl vstd::std_specs::cmp::PartialEqSpecImpl for Security {
    open spec fn obeys_eq_spec() -> bool {
        true
    }

    open spec fn eq_spec(&self, other: &Security) -> bool {
        self@ == other@
    }
}

impl Security {
    /// A new security value with a freshly generated identity; nothing is stored.
    pub fn new(security_type: SecurityType, ticker: &str, listing_exchange: &str, ibkr_conid: Option<u32>) -> (r:
        Security)
        ensures
            r.security_type == security_type,
            r.ticker@ == ticker@,
            r.listing_exchange@ == listing_exchange@,
            r.ibkr_conid == ibkr_conid,
    {
        Security {
            id: fresh_doc_id(),
            listing_exchange: listing_exchange.to_owned(),
            security_type,
            ticker: ticker.to_owned(),
            ibkr_conid,
        }
    }

    pub fn get_id(&self) -> (r: DocId)
        ensures
            r == self.id,
    {
        self.id
    }

    pub fn get_listing_exchange(&self) -> (r: &str)
        ensures
            r@ == self.listing_exchange@,
    {
        self.listing_exchange.as_str()
    }

    pub fn get_security_type(&self) -> (r: &SecurityType)
        ensures
            *r == self.security_type,
    {
        &self.security_type
    }

    pub fn get_ticker(&self) -> (r: &str)
        ensures
            r@ == self.ticker@,
    {
        self.ticker.as_str()
    }

    pub fn get_ibkr_conid(&self) -> (r: Option<u32>)
        ensures
            r == self.ibkr_conid,
    {
        self.ibkr_conid
    }
}

/// The document under which the document database keeps a security; a
/// security without a contract id leaves the field out, so that the sparse
/// unique index over contract ids does not bind it.
pub open spec fn security_document(s: Security) -> Seq<(Seq<char>, FieldView)> {
    seq![
        (ID_FIELD@, FieldView::Id(s.id.bytes@)),
        (LISTING_EXCHANGE_FIELD@, FieldView::Text(s.listing_exchange@)),
        (SECURITY_TYPE_FIELD@, FieldView::Text(s.security_type.name_spec())),
        (TICKER_FIELD@, FieldView::Text(s.ticker@)),
    ] + match s.ibkr_conid {
        Some(c) => seq![(IBKR_CONID_FIELD@, FieldView::Int(c as int))],
        None => Seq::empty(),
    }
}

/// The contract id that a document holds: `Some(None)` where the field is
/// absent or null, `None` where it holds anything but a 32-bit unsigned integer.
pub open spec fn decode_conid(d: Seq<(Seq<char>, FieldView)>) -> Option<Option<u32>> {
    match lookup(d, IBKR_CONID_FIELD@) {
        None => Some(None),
        Some(FieldView::Null) => Some(None),
        Some(FieldView::Int(n)) => if 0 <= n <= u32::MAX {
            Some(Some(n as u32))
        } else {
            None
        },
        _ => None,
    }
}

/// The security that a document stands for.
pub open spec fn decode_security_document(d: Seq<(Seq<char>, FieldView)>) -> Option<
    (Seq<u8>, Seq<char>, SecurityType, Seq<char>, Option<u32>),
> {
    match (lookup_id(d, ID_FIELD@), lookup_text(d, LISTING_EXCHANGE_FIELD@), lookup_text(d, SECURITY_TYPE_FIELD@), lookup_text(d, TICKER_FIELD@), decode_conid(d)) {
        (Some(id), Some(le), Some(tn), Some(t), Some(c)) => match kind_named(tn) {
            Some(st) => Some((id, le, st, t, c)),
            None => None,
        },
        _ => None,
    }
}

pub fn security_document_of(s: &Security) -> (r: Vec<Field>)
    ensures
        fields_view(r@) == security_document(*s),
{
    let mut doc: Vec<Field> = Vec::new();
    doc.push(id_field(ID_FIELD, s.id));
    doc.push(text_field(LISTING_EXCHANGE_FIELD, s.listing_exchange.as_str()));
    doc.push(text_field(SECURITY_TYPE_FIELD, s.security_type.name()));
    doc.push(text_field(TICKER_FIELD, s.ticker.as_str()));
    match s.ibkr_conid {
        Some(c) => doc.push(int_field(IBKR_CONID_FIELD, c as i64)),
        None => {},
    }
    assert(fields_view(doc@) =~= security_document(*s));
    doc
}

fn conid_of(doc: &Vec<Field>) -> (r: Option<Option<u32>>)
    ensures
        r == decode_conid(fields_view(doc@)),
{
    match find_field(doc, IBKR_CONID_FIELD) {
        None => Some(None),
        Some(FieldValue::Null) => Some(None),
        Some(FieldValue::Int(n)) => if 0 <= *n && *n <= u32::MAX as i64 {
            Some(Some(*n as u32))
        } else {
            None
        },
        Some(_) => None,
    }
}

/// The security that a stored document stands for.
pub fn security_from_document(doc: &Vec<Field>) -> (r: Result<Security, StoreError>)
    ensures
        match r {
            Ok(s) => decode_security_document(fields_view(doc@)) == Some(s@),
            Err(e) => decode_security_document(fields_view(doc@)) is None && e is MalformedRecord,
        },
{
    let id = find_id(doc, ID_FIELD);
    let listing_exchange = find_text(doc, LISTING_EXCHANGE_FIELD);
    let kind_name = find_text(doc, SECURITY_TYPE_FIELD);
    let ticker = find_text(doc, TICKER_FIELD);
    let conid = conid_of(doc);
    let security_type = match &kind_name {
        Some(n) => SecurityType::from_name(n.as_str()),
        None => None,
    };
    proof {
        reveal_strlit("Stock");
    }
    match (id, listing_exchange, security_type, ticker, conid) {
        (Some(id), Some(le), Some(st), Some(t), Some(c)) => Ok(
            Security { id, listing_exchange: le, security_type: st, ticker: t, ibkr_conid: c },
        ),
        (None, _, _, _, _) => Err(StoreError::MalformedRecord { field: ID_FIELD.to_owned() }),
        (_, None, _, _, _) => Err(StoreError::MalformedRecord { field: LISTING_EXCHANGE_FIELD.to_owned() }),
        (_, _, None, _, _) => Err(StoreError::MalformedRecord { field: SECURITY_TYPE_FIELD.to_owned() }),
        (_, _, _, None, _) => Err(StoreError::MalformedRecord { field: TICKER_FIELD.to_owned() }),
        (_, _, _, _, None) => Err(StoreError::MalformedRecord { field: IBKR_CONID_FIELD.to_owned() }),
    }
}

pub open spec fn ticker_exchange_filter_view(ticker: Seq<char>, listing_exchange: Seq<char>) -> Seq<(Seq<char>, FieldView)> {
    seq![(TICKER_FIELD@, FieldView::Text(ticker)), (LISTING_EXCHANGE_FIELD@, FieldView::Text(listing_exchange))]
}

/// The filter of a lookup by business key (ticker, listing exchange).
pub fn ticker_exchange_filter(ticker: &str, listing_exchange: &str) -> (r: Vec<Field>)
    ensures
        fields_view(r@) == ticker_exchange_filter_view(ticker@, listing_exchange@),
{
    let mut f: Vec<Field> = Vec::new();
    f.push(text_field(TICKER_FIELD, ticker));
    f.push(text_field(LISTING_EXCHANGE_FIELD, listing_exchange));
    assert(fields_view(f@) =~= ticker_exchange_filter_view(ticker@, listing_exchange@));
    f
}

/// The filter of a lookup by the broker's contract id.
pub fn conid_filter(ibkr_conid: u32) -> (r: Vec<Field>)
    ensures
        fields_view(r@) == seq![(IBKR_CONID_FIELD@, FieldView::Int(ibkr_conid as int))],
{
    let mut f: Vec<Field> = Vec::new();
    f.push(int_field(IBKR_CONID_FIELD, ibkr_conid as i64));
    assert(fields_view(f@) =~= seq![(IBKR_CONID_FIELD@, FieldView::Int(ibkr_conid as int))]);
    f
}

/// The filter of a listing by ticker, across exchanges.
pub fn ticker_filter(ticker: &str) -> (r: Vec<Field>)
    ensures
        fields_view(r@) == seq![(TICKER_FIELD@, FieldView::Text(ticker@))],
{
    let mut f: Vec<Field> = Vec::new();
    f.push(text_field(TICKER_FIELD, ticker));
    assert(fields_view(f@) =~= seq![(TICKER_FIELD@, FieldView::Text(ticker@))]);
    f
}

/// The result of a single-document lookup of a security.
pub fn security_from_find_one(doc: Option<Vec<Field>>) -> (r: Result<Option<Security>, StoreError>)
    ensures
        match doc {
            None => r == Ok::<Option<Security>, StoreError>(None),
            Some(d) => match r {
                Ok(Some(s)) => decode_security_document(fields_view(d@)) == Some(s@),
                Ok(None) => false,
                Err(e) => decode_security_document(fields_view(d@)) is None && e is MalformedRecord,
            },
        },
{
    match doc {
        None => Ok(None),
        Some(d) => match security_from_document(&d) {
            Ok(s) => Ok(Some(s)),
            Err(e) => Err(e),
        },
    }
}

/// Every security of a listing, in the order of the documents; the first
/// malformed document makes the whole result an error.
pub fn securities_from_documents(docs: &Vec<Vec<Field>>) -> (r: Result<Vec<Security>, StoreError>)
    ensures
        match r {
            Ok(v) => v.len() == docs.len() && forall|i: int|
                0 <= i < v.len() ==> decode_security_document(fields_view(#[trigger] docs[i]@)) == Some(v[i]@),
            Err(e) => e is MalformedRecord && exists|i: int|
                0 <= i < docs.len() && decode_security_document(fields_view(#[trigger] docs[i]@)) is None,
        },
{
    let mut out: Vec<Security> = Vec::new();
    let mut i: usize = 0;
    while i < docs.len()
        invariant
            i <= docs.len(),
            out.len() == i,
            forall|j: int|
                0 <= j < i ==> decode_security_document(fields_view(#[trigger] docs[j]@)) == Some(out[j]@),
        decreases docs.len() - i,
    {
        match security_from_document(&docs[i]) {
            Ok(s) => out.push(s),
            Err(e) => {
                return Err(e);
            },
        }
        i = i + 1;
    }
    Ok(out)
}

} // verus!
