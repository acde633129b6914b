use vstd::prelude::*;

use crate::account::BrokerageAccount;
use crate::amount::Amount;
use crate::error::StoreError;
use crate::ids::{fresh_doc_id, DocId};
use crate::mongo::{
    account_document, account_from_find_one, decode_account_document, id_filter, id_filter_view,
    BROKERAGE_ACCOUNT_ID_FIELD, ID_FIELD,
};
use crate::record::{
    amount_field, fields_view, find_amount, find_id, find_int, find_text, id_field, int_field, lookup,
    lookup_amount, lookup_id, lookup_int, lookup_text, satisfies, text_field, Field, FieldView,
};
use vstd::string::*;
use crate::security::{decode_security_document, security_document, security_from_find_one, Security};

verus! {

#[derive(Clone, Copy, Debug, PartialEq, Eq, Structural)]
pub enum TradeSide {
    Buy,
    Sell,
}

pub const BROKERAGE_EXECUTION_ID_FIELD: &'static str = "brokerage_execution_id";

pub const EXECUTION_TIMESTAMP_MS_FIELD: &'static str = "execution_timestamp_ms";

pub const COMMISSION_FIELD: &'static str = "commission";

pub const QUANTITY_FIELD: &'static str = "quantity";

pub const PRICE_FIELD: &'static str = "price";

pub const SECURITY_ID_FIELD: &'static str = "security_id";

pub const SIDE_FIELD: &'static str = "side";

pub const BUY_NAME: &'static str = "Buy";

pub const SELL_NAME: &'static str = "Sell";

impl TradeSide {
    pub open spec fn name_spec(&self) -> Seq<char> {
        match self {
            TradeSide::Buy => BUY_NAME@,
            TradeSide::Sell => SELL_NAME@,
        }
    }

    /// The name under which a document keeps the side.
    pub fn name(&self) -> (r: &'static str)
        ensures
            r@ == self.name_spec(),
    {
        match self {
            TradeSide::Buy => BUY_NAME,
            TradeSide::Sell => SELL_NAME,
        }
    }

    pub fn from_name(name: &str) -> (r: Option<TradeSide>)
        ensures
            r == side_named(name@),
    {
        let n = String::from_str(name);
        if n == String::from_str(BUY_NAME) {
            Some(TradeSide::Buy)
        } else if n == String::from_str(SELL_NAME) {
            Some(TradeSide::Sell)
        } else {
            None
        }
    }
}

pub open spec fn side_named(name: Seq<char>) -> Option<TradeSide> {
    if name == BUY_NAME@ {
        Some(TradeSide::Buy)
    } else if name == SELL_NAME@ {
        Some(TradeSide::Sell)
    } else {
        None
    }
}

/// A builder was asked for a value while a required field was still unset.
#[derive(Clone, Copy, Debug, PartialEq, Eq)]
pub struct MissingField {
    pub field: &'static str,
}

/// One execution of a trade: which account traded which security, when, how
/// much, at what price and commission, and on which side.
#[derive(Clone, Debug)]
pub struct TradeExecution {
    pub id: DocId,
    pub brokerage_account_id: DocId,
    pub brokerage_execution_id: String,
    pub execution_timestamp_ms: i64,
    pub commission: Amount,
    pub quantity: u64,
    pub price: Amount,
    pub security_id: DocId,
    pub side: TradeSide,
}

impl TradeExecution {
    pub fn builder() -> (r: Builder)
        ensures
            r.brokerage_account_id is None,
            r.brokerage_execution_id is None,
            r.execution_timestamp_ms is None,
            r.commission is None,
            r.quantity is None,
            r.price is None,
            r.security_id is None,
            r.side is None,
    {
        Builder {
            id: fresh_doc_id(),
            brokerage_account_id: None,
            brokerage_execution_id: None,
            execution_timestamp_ms: None,
            commission: None,
            quantity: None,
            price: None,
            security_id: None,
            side: None,
        }
    }

    pub fn id(&self) -> (r: DocId)
        ensures
            r == self.id,
    {
        self.id
    }

    pub fn brokerage_account_id(&self) -> (r: DocId)
        ensures
            r == self.brokerage_account_id,
    {
        self.brokerage_account_id
    }

    pub fn brokerage_execution_id(&self) -> (r: &str)
        ensures
            r@ == self.brokerage_execution_id@,
    {
        self.brokerage_execution_id.as_str()
    }

    pub fn execution_timestamp_ms(&self) -> (r: i64)
        ensures
            r == self.execution_timestamp_ms,
    {
        self.execution_timestamp_ms
    }

    pub fn commission(&self) -> (r: Amount)
        ensures
            r == self.commission,
    {
        self.commission
    }

    pub fn quantity(&self) -> (r: u64)
        ensures
            r == self.quantity,
    {
        self.quantity
    }

    pub fn price(&self) -> (r: Amount)
        ensures
            r == self.price,
    {
        self.price
    }

    pub fn security_id(&self) -> (r: DocId)
        ensures
            r == self.security_id,
    {
        self.security_id
    }

    pub fn side(&self) -> (r: &TradeSide)
        ensures
            *r == self.side,
    {
        &self.side
    }

    /// The filter that finds the account this execution belongs to.
    pub fn brokerage_account_filter(&self) -> (r: Vec<Field>)
        ensures
            fields_view(r@) == id_filter_view(self.brokerage_account_id.bytes@),
    {
        id_filter(self.brokerage_account_id)
    }

    /// The filter that finds the security this execution traded.
    pub fn security_filter(&self) -> (r: Vec<Field>)
        ensures
            fields_view(r@) == id_filter_view(self.security_id.bytes@),
    {
        id_filter(self.security_id)
    }

    /// The account this execution belongs to, from what the lookup with
    /// `brokerage_account_filter` found: nothing, or a document of another
    /// identity, means the reference dangles.
    pub fn brokerage_account(&self, found: Option<Vec<Field>>) -> (r: Result<BrokerageAccount, StoreError>)
        ensures
            match found {
                None => r is Err && r->Err_0 is DanglingReference,
                Some(d) => match decode_account_document(fields_view(d@)) {
                    None => r is Err && r->Err_0 is MalformedRecord,
                    Some(v) => if v.0 == self.brokerage_account_id.bytes@ {
                        r is Ok && r->Ok_0@ == v
                    } else {
                        r is Err && r->Err_0 is DanglingReference
                    },
                },
            },
    {
        match account_from_find_one(found) {
            Ok(Some(a)) => if a.id == self.brokerage_account_id {
                Ok(a)
            } else {
                Err(StoreError::DanglingReference)
            },
            Ok(None) => Err(StoreError::DanglingReference),
            Err(e) => Err(e),
        }
    }

    /// The security this execution traded, from what the lookup with
    /// `security_filter` found.
    pub fn security(&self, found: Option<Vec<Field>>) -> (r: Result<Security, StoreError>)
        ensures
            match found {
                None => r is Err && r->Err_0 is DanglingReference,
                Some(d) => match decode_security_document(fields_view(d@)) {
                    None => r is Err && r->Err_0 is MalformedRecord,
                    Some(v) => if v.0 == self.security_id.bytes@ {
                        r is Ok && r->Ok_0@ == v
                    } else {
                        r is Err && r->Err_0 is DanglingReference
                    },
                },
            },
    {
        match security_from_find_one(found) {
            Ok(Some(s)) => if s.id == self.security_id {
                Ok(s)
            } else {
                Err(StoreError::DanglingReference)
            },
            Ok(None) => Err(StoreError::DanglingReference),
            Err(e) => Err(e),
        }
    }
}

/// The document under which the document database keeps an execution.
pub open spec fn trade_execution_document(t: TradeExecution) -> Seq<(Seq<char>, FieldView)> {
    seq![
        (ID_FIELD@, FieldView::Id(t.id.bytes@)),
        (BROKERAGE_ACCOUNT_ID_FIELD@, FieldView::Id(t.brokerage_account_id.bytes@)),
        (BROKERAGE_EXECUTION_ID_FIELD@, FieldView::Text(t.brokerage_execution_id@)),
        (EXECUTION_TIMESTAMP_MS_FIELD@, FieldView::Int(t.execution_timestamp_ms as int)),
        (COMMISSION_FIELD@, FieldView::Double(t.commission.bits)),
        (QUANTITY_FIELD@, FieldView::Int(t.quantity as int)),
        (PRICE_FIELD@, FieldView::Double(t.price.bits)),
        (SECURITY_ID_FIELD@, FieldView::Id(t.security_id.bytes@)),
        (SIDE_FIELD@, FieldView::Text(t.side.name_spec())),
    ]
}

/// A document holds every field of an execution, each with the right type.
pub open spec fn trade_execution_document_valid(d: Seq<(Seq<char>, FieldView)>) -> bool {
    &&& lookup_id(d, ID_FIELD@) is Some
    &&& lookup_id(d, BROKERAGE_ACCOUNT_ID_FIELD@) is Some
    &&& lookup_text(d, BROKERAGE_EXECUTION_ID_FIELD@) is Some
    &&& lookup_int(d, EXECUTION_TIMESTAMP_MS_FIELD@) is Some
    &&& lookup_amount(d, COMMISSION_FIELD@) is Some
    &&& lookup_int(d, QUANTITY_FIELD@) matches Some(q) && q >= 0
    &&& lookup_amount(d, PRICE_FIELD@) is Some
    &&& lookup_id(d, SECURITY_ID_FIELD@) is Some
    &&& lookup_text(d, SIDE_FIELD@) matches Some(s) && side_named(s) is Some
}

/// A document holds exactly the fields of execution `t`.
pub open spec fn describes_trade_execution(d: Seq<(Seq<char>, FieldView)>, t: TradeExecution) -> bool {
    &&& lookup_id(d, ID_FIELD@) == Some(t.id.bytes@)
    &&& lookup_id(d, BROKERAGE_ACCOUNT_ID_FIELD@) == Some(t.brokerage_account_id.bytes@)
    &&& lookup_text(d, BROKERAGE_EXECUTION_ID_FIELD@) == Some(t.brokerage_execution_id@)
    &&& lookup_int(d, EXECUTION_TIMESTAMP_MS_FIELD@) == Some(t.execution_timestamp_ms as int)
    &&& lookup_amount(d, COMMISSION_FIELD@) == Some(t.commission.bits)
    &&& lookup_int(d, QUANTITY_FIELD@) == Some(t.quantity as int)
    &&& lookup_amount(d, PRICE_FIELD@) == Some(t.price.bits)
    &&& lookup_id(d, SECURITY_ID_FIELD@) == Some(t.security_id.bytes@)
    &&& lookup_text(d, SIDE_FIELD@) matches Some(s) && side_named(s) == Some(t.side)
}

/// The document of an execution; a quantity above what a signed 64-bit
/// integer holds cannot be stored.
pub fn trade_execution_document_of(t: &TradeExecution) -> (r: Result<Vec<Field>, StoreError>)
    ensures
        t.quantity <= i64::MAX ==> r is Ok && fields_view(r->Ok_0@) == trade_execution_document(*t),
        t.quantity > i64::MAX ==> r is Err && r->Err_0 is Unrepresentable,
{
    if t.quantity > i64::MAX as u64 {
        return Err(StoreError::Unrepresentable { field: QUANTITY_FIELD.to_owned() });
    }
    let mut doc: Vec<Field> = Vec::new();
    doc.push(id_field(ID_FIELD, t.id));
    doc.push(id_field(BROKERAGE_ACCOUNT_ID_FIELD, t.brokerage_account_id));
    doc.push(text_field(BROKERAGE_EXECUTION_ID_FIELD, t.brokerage_execution_id.as_str()));
    doc.push(int_field(EXECUTION_TIMESTAMP_MS_FIELD, t.execution_timestamp_ms));
    doc.push(amount_field(COMMISSION_FIELD, t.commission));
    doc.push(int_field(QUANTITY_FIELD, t.quantity as i64));
    doc.push(amount_field(PRICE_FIELD, t.price));
    doc.push(id_field(SECURITY_ID_FIELD, t.security_id));
    doc.push(text_field(SIDE_FIELD, t.side.name()));
    assert(fields_view(doc@) =~= trade_execution_document(*t));
    Ok(doc)
}

/// The execution that a stored document stands for.
pub fn trade_execution_from_document(doc: &Vec<Field>) -> (r: Result<TradeExecution, StoreError>)
    ensures
        trade_execution_document_valid(fields_view(doc@)) <==> r is Ok,
        match r {
            Ok(t) => describes_trade_execution(fields_view(doc@), t),
            Err(e) => e is MalformedRecord,
        },
{
    let id = match find_id(doc, ID_FIELD) {
        Some(v) => v,
        None => { return Err(StoreError::MalformedRecord { field: ID_FIELD.to_owned() }); },
    };
    let brokerage_account_id = match find_id(doc, BROKERAGE_ACCOUNT_ID_FIELD) {
        Some(v) => v,
        None => { return Err(StoreError::MalformedRecord { field: BROKERAGE_ACCOUNT_ID_FIELD.to_owned() }); },
    };
    let brokerage_execution_id = match find_text(doc, BROKERAGE_EXECUTION_ID_FIELD) {
        Some(v) => v,
        None => { return Err(StoreError::MalformedRecord { field: BROKERAGE_EXECUTION_ID_FIELD.to_owned() }); },
    };
    let execution_timestamp_ms = match find_int(doc, EXECUTION_TIMESTAMP_MS_FIELD) {
        Some(v) => v,
        None => { return Err(StoreError::MalformedRecord { field: EXECUTION_TIMESTAMP_MS_FIELD.to_owned() }); },
    };
    let commission = match find_amount(doc, COMMISSION_FIELD) {
        Some(v) => v,
        None => { return Err(StoreError::MalformedRecord { field: COMMISSION_FIELD.to_owned() }); },
    };
    let quantity = match find_int(doc, QUANTITY_FIELD) {
        Some(v) => if v >= 0 {
            v as u64
        } else {
            return Err(StoreError::MalformedRecord { field: QUANTITY_FIELD.to_owned() });
        },
        None => { return Err(StoreError::MalformedRecord { field: QUANTITY_FIELD.to_owned() }); },
    };
    let price = match find_amount(doc, PRICE_FIELD) {
        Some(v) => v,
        None => { return Err(StoreError::MalformedRecord { field: PRICE_FIELD.to_owned() }); },
    };
    let security_id = match find_id(doc, SECURITY_ID_FIELD) {
        Some(v) => v,
        None => { return Err(StoreError::MalformedRecord { field: SECURITY_ID_FIELD.to_owned() }); },
    };
    let side = match find_text(doc, SIDE_FIELD) {
        Some(n) => match TradeSide::from_name(n.as_str()) {
            Some(s) => s,
            None => { return Err(StoreError::MalformedRecord { field: SIDE_FIELD.to_owned() }); },
        },
        None => { return Err(StoreError::MalformedRecord { field: SIDE_FIELD.to_owned() }); },
    };
    Ok(TradeExecution {
        id,
        brokerage_account_id,
        brokerage_execution_id,
        execution_timestamp_ms,
        commission,
        quantity,
        price,
        security_id,
        side,
    })
}

/// The filter of a lookup by the broker's execution id.
pub fn execution_id_filter(execution_id: &str) -> (r: Vec<Field>)
    ensures
        fields_view(r@) == seq![(BROKERAGE_EXECUTION_ID_FIELD@, FieldView::Text(execution_id@))],
{
    let mut f: Vec<Field> = Vec::new();
    f.push(text_field(BROKERAGE_EXECUTION_ID_FIELD, execution_id));
    assert(fields_view(f@) =~= seq![(BROKERAGE_EXECUTION_ID_FIELD@, FieldView::Text(execution_id@))]);
    f
}

/// Assembles a trade execution; every field is required.
#[derive(Clone, Debug)]
pub struct Builder {
    pub id: DocId,
    pub brokerage_account_id: Option<DocId>,
    pub brokerage_execution_id: Option<String>,
    pub execution_timestamp_ms: Option<i64>,
    pub commission: Option<Amount>,
    pub quantity: Option<u64>,
    pub price: Option<Amount>,
    pub security_id: Option<DocId>,
    pub side: Option<TradeSide>,
}

/// The first required field, in declaration order, that a builder lacks.
pub open spec fn first_missing(b: Builder) -> Option<Seq<char>> {
    if b.brokerage_account_id is None {
        Some("brokerage_account_id"@)
    } else if b.brokerage_execution_id is None {
        Some("brokerage_execution_id"@)
    } else if b.execution_timestamp_ms is None {
        Some("execution_timestamp_ms"@)
    } else if b.commission is None {
        Some("commission"@)
    } else if b.quantity is None {
        Some("quantity"@)
    } else if b.price is None {
        Some("price"@)
    } else if b.security_id is None {
        Some("security_id"@)
    } else if b.side is None {
        Some("side"@)
    } else {
        None
    }
}

impl Builder {
    /// A builder that holds every field of an existing execution, under a
    /// fresh identity.
    pub fn from_trade_execution(t: &TradeExecution) -> (r: Builder)
        ensures
            r.brokerage_account_id == Some(t.brokerage_account_id),
            r.brokerage_execution_id is Some && r.brokerage_execution_id->Some_0@ == t.brokerage_execution_id@,
            r.execution_timestamp_ms == Some(t.execution_timestamp_ms),
            r.commission == Some(t.commission),
            r.quantity == Some(t.quantity),
            r.price == Some(t.price),
            r.security_id == Some(t.security_id),
            r.side == Some(t.side),
    {
        Builder {
            id: fresh_doc_id(),
            brokerage_account_id: Some(t.brokerage_account_id),
            brokerage_execution_id: Some(t.brokerage_execution_id.clone()),
            execution_timestamp_ms: Some(t.execution_timestamp_ms),
            commission: Some(t.commission),
            quantity: Some(t.quantity),
            price: Some(t.price),
            security_id: Some(t.security_id),
            side: Some(t.side),
        }
    }

    pub fn brokerage_account_id(self, id: DocId) -> (r: Builder)
        ensures
            r == (Builder { brokerage_account_id: Some(id), ..self }),
    {
        Builder { brokerage_account_id: Some(id), ..self }
    }

    pub fn brokerage_execution_id(self, id: &str) -> (r: Builder)
        ensures
            r.brokerage_execution_id is Some && r.brokerage_execution_id->Some_0@ == id@,
            r == (Builder { brokerage_execution_id: r.brokerage_execution_id, ..self }),
    {
        Builder { brokerage_execution_id: Some(id.to_owned()), ..self }
    }

    pub fn execution_timestamp_ms(self, timestamp: i64) -> (r: Builder)
        ensures
            r == (Builder { execution_timestamp_ms: Some(timestamp), ..self }),
    {
        Builder { execution_timestamp_ms: Some(timestamp), ..self }
    }

    pub fn commission(self, commission: Amount) -> (r: Builder)
        ensures
            r == (Builder { commission: Some(commission), ..self }),
    {
        Builder { commission: Some(commission), ..self }
    }

    pub fn quantity(self, quantity: u64) -> (r: Builder)
        ensures
            r == (Builder { quantity: Some(quantity), ..self }),
    {
        Builder { quantity: Some(quantity), ..self }
    }

    pub fn price(self, price: Amount) -> (r: Builder)
        ensures
            r == (Builder { price: Some(price), ..self }),
    {
        Builder { price: Some(price), ..self }
    }

    pub fn security_id(self, id: DocId) -> (r: Builder)
        ensures
            r == (Builder { security_id: Some(id), ..self }),
    {
        Builder { security_id: Some(id), ..self }
    }

    pub fn side(self, side: TradeSide) -> (r: Builder)
        ensures
            r == (Builder { side: Some(side), ..self }),
    {
        Builder { side: Some(side), ..self }
    }

    /// The execution, when every field is set; otherwise the first field
    /// that is missing.
    pub fn build(self) -> (r: Result<TradeExecution, MissingField>)
        ensures
            match r {
                Ok(t) => first_missing(self) is None && t.id == self.id && Some(t.brokerage_account_id)
                    == self.brokerage_account_id && self.brokerage_execution_id is Some
                    && t.brokerage_execution_id == self.brokerage_execution_id->Some_0 && Some(
                    t.execution_timestamp_ms,
                ) == self.execution_timestamp_ms && Some(t.commission) == self.commission && Some(t.quantity)
                    == self.quantity && Some(t.price) == self.price && Some(t.security_id) == self.security_id
                    && Some(t.side) == self.side,
                Err(e) => first_missing(self) == Some(e.field@),
            },
    {
        let brokerage_account_id = match self.brokerage_account_id {
            Some(v) => v,
            None => { return Err(MissingField { field: "brokerage_account_id" }); },
        };
        let brokerage_execution_id = match self.brokerage_execution_id {
            Some(v) => v,
            None => { return Err(MissingField { field: "brokerage_execution_id" }); },
        };
        let execution_timestamp_ms = match self.execution_timestamp_ms {
            Some(v) => v,
            None => { return Err(MissingField { field: "execution_timestamp_ms" }); },
        };
        let commission = match self.commission {
            Some(v) => v,
            None => { return Err(MissingField { field: "commission" }); },
        };
        let quantity = match self.quantity {
            Some(v) => v,
            None => { return Err(MissingField { field: "quantity" }); },
        };
        let price = match self.price {
            Some(v) => v,
            None => { return Err(MissingField { field: "price" }); },
        };
        let security_id = match self.security_id {
            Some(v) => v,
            None => { return Err(MissingField { field: "security_id" }); },
        };
        let side = match self.side {
            Some(v) => v,
            None => { return Err(MissingField { field: "side" }); },
        };
        Ok(TradeExecution {
            id: self.id,
            brokerage_account_id,
            brokerage_execution_id,
            execution_timestamp_ms,
            commission,
            quantity,
            price,
            security_id,
            side,
        })
    }
}

/// An execution that refers to a stored account and a stored security by
/// their identities reads both back unchanged: the lookup filters it makes
/// select their documents, and those documents read back as values equal to
/// the stored account and security, under the identities the execution names
/// (so that `brokerage_account` and `security` return them).
pub proof fn lemma_reference_read_through(t: TradeExecution, a: BrokerageAccount, s: Security)
    requires
        t.brokerage_account_id == a.id,
        t.security_id == s.id,
    ensures
        satisfies(id_filter_view(t.brokerage_account_id.bytes@), account_document(a)),
        satisfies(id_filter_view(t.security_id.bytes@), security_document(s)),
        decode_account_document(account_document(a)) == Some(a@),
        decode_security_document(security_document(s)) == Some(s@),
        decode_account_document(account_document(a)).unwrap().0 == t.brokerage_account_id.bytes@,
        decode_security_document(security_document(s)).unwrap().0 == t.security_id.bytes@,
{
    crate::guarantees::lemma_document_round_trip(a);
    crate::guarantees::lemma_security_document_round_trip(s);
    assert(lookup(account_document(a), crate::mongo::ID_FIELD@) == Some(FieldView::Id(a.id.bytes@)));
    assert(lookup(security_document(s), crate::mongo::ID_FIELD@) == Some(FieldView::Id(s.id.bytes@)));
}

} // verus!
