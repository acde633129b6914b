use brokerage_db::account::BrokerageAccount;
use brokerage_db::trade_execution::{execution_id_filter, trade_execution_document_of, trade_execution_from_document};
use brokerage_db::eod_summary::{eod_summaries_from_documents, eod_summary_document_of, eod_summary_from_document};
use brokerage_db::amount::Amount;
use brokerage_db::config::{
    BackendConfig, BackendKind, DbConnectionFactoryManager, DynamoDbConnectionFactory, MdbConnectionFactory,
};
use brokerage_db::eod_summary::EODSummary;
use brokerage_db::error::StoreError;
use brokerage_db::ids::DocId;
use brokerage_db::mongo::account_document_of;
use brokerage_db::record::{Field, FieldValue};
use brokerage_db::security::{
    conid_filter, securities_from_documents, security_document_of, security_from_document,
    security_from_find_one, ticker_exchange_filter, ticker_filter, Security, SecurityType,
};
use brokerage_db::trade_execution::{Builder, MissingField, TradeExecution, TradeSide};

fn amount(x: f64) -> Amount {
    Amount::from_bits(x.to_bits())
}

fn execution(account: DocId, security: DocId) -> TradeExecution {
    TradeExecution::builder()
        .brokerage_account_id(account)
        .brokerage_execution_id("abc-123-def-1")
        .execution_timestamp_ms(1746665451000)
        .commission(amount(1.25))
        .quantity(100)
        .price(amount(187.5))
        .security_id(security)
        .side(TradeSide::Buy)
        .build()
        .unwrap()
}

#[test]
fn security_new_keeps_its_fields() {
    let s = Security::new(SecurityType::Stock, "AAPL", "NASDAQ", Some(265598));
    assert_eq!(s.get_ticker(), "AAPL");
    assert_eq!(s.get_listing_exchange(), "NASDAQ");
    assert_eq!(*s.get_security_type(), SecurityType::Stock);
    assert_eq!(s.get_ibkr_conid(), Some(265598));
}

#[test]
fn security_document_round_trip() {
    let s = Security::new(SecurityType::Stock, "AAPL", "NASDAQ", Some(265598));
    assert_eq!(security_from_document(&security_document_of(&s)).unwrap(), s);
    let t = Security::new(SecurityType::Stock, "MSFT", "NASDAQ", None);
    let doc = security_document_of(&t);
    assert_eq!(doc.len(), 4);
    assert!(doc.iter().all(|f| f.name != "ibkr_conid"));
    assert_eq!(security_from_document(&doc).unwrap(), t);
    assert!(matches!(security_from_find_one(None), Ok(None)));
}

#[test]
fn security_document_with_bad_fields_is_malformed() {
    let s = Security::new(SecurityType::Stock, "AAPL", "NASDAQ", None);
    let mut doc = security_document_of(&s);
    doc.push(Field { name: "ibkr_conid".to_string(), value: FieldValue::Int(-1) });
    match security_from_document(&doc) {
        Err(StoreError::MalformedRecord { field }) => assert_eq!(field, "ibkr_conid"),
        other => panic!("unexpected {:?}", other),
    }
    let mut doc = security_document_of(&s);
    doc[2] = Field { name: "security_type".to_string(), value: FieldValue::Text("Bond".to_string()) };
    match security_from_document(&doc) {
        Err(StoreError::MalformedRecord { field }) => assert_eq!(field, "security_type"),
        other => panic!("unexpected {:?}", other),
    }
    let doc: Vec<Field> = security_document_of(&s).into_iter().filter(|f| f.name != "conid").collect();
    assert!(security_from_document(&doc).is_ok());
}

#[test]
fn security_listing_and_filters() {
    let a = Security::new(SecurityType::Stock, "SPY", "NYSE", None);
    let b = Security::new(SecurityType::Stock, "SPY", "ARCA", Some(756733));
    let all = securities_from_documents(&vec![security_document_of(&a), security_document_of(&b)]).unwrap();
    assert_eq!(all, vec![a, b]);
    let f = ticker_exchange_filter("SPY", "NYSE");
    assert_eq!(f.len(), 2);
    assert_eq!(f[0].name, "ticker");
    assert_eq!(f[1].name, "listing_exchange");
    let f = conid_filter(756733);
    assert_eq!(f[0].name, "ibkr_conid");
    assert!(matches!(f[0].value, FieldValue::Int(756733)));
    let f = ticker_filter("SPY");
    assert!(matches!(&f[0].value, FieldValue::Text(t) if t == "SPY"));
    assert_eq!(SecurityType::from_name("Stock"), Some(SecurityType::Stock));
    assert_eq!(SecurityType::from_name("stock"), None);
    assert_eq!(SecurityType::Stock.name(), "Stock");
}

#[test]
fn trade_execution_builder_sets_every_field() {
    let account = DocId::from_bytes([1; 12]);
    let security = DocId::from_bytes([2; 12]);
    let t = execution(account, security);
    assert_eq!(t.brokerage_account_id(), account);
    assert_eq!(t.security_id(), security);
    assert_eq!(t.brokerage_execution_id(), "abc-123-def-1");
    assert_eq!(t.execution_timestamp_ms(), 1746665451000);
    assert_eq!(f64::from_bits(t.commission().to_bits()), 1.25);
    assert_eq!(t.quantity(), 100);
    assert_eq!(f64::from_bits(t.price().to_bits()), 187.5);
    assert_eq!(*t.side(), TradeSide::Buy);
}

#[test]
fn trade_execution_builder_reports_the_missing_field() {
    let r = TradeExecution::builder().brokerage_account_id(DocId::from_bytes([1; 12])).build();
    assert_eq!(r.unwrap_err(), MissingField { field: "brokerage_execution_id" });
    assert_eq!(TradeExecution::builder().build().unwrap_err().field, "brokerage_account_id");
    let r = TradeExecution::builder()
        .brokerage_account_id(DocId::from_bytes([1; 12]))
        .brokerage_execution_id("x")
        .execution_timestamp_ms(0)
        .commission(amount(0.0))
        .quantity(1)
        .security_id(DocId::from_bytes([2; 12]))
        .side(TradeSide::Sell)
        .build();
    assert_eq!(r.unwrap_err().field, "price");
}

#[test]
fn builder_from_execution_copies_under_a_new_identity() {
    let t = execution(DocId::from_bytes([1; 12]), DocId::from_bytes([2; 12]));
    let u = Builder::from_trade_execution(&t)
        .brokerage_execution_id("abc-123-def-2")
        .execution_timestamp_ms(1746665452000)
        .build()
        .unwrap();
    assert_ne!(u.id(), t.id());
    assert_eq!(u.brokerage_execution_id(), "abc-123-def-2");
    assert_eq!(u.execution_timestamp_ms(), 1746665452000);
    assert_eq!(u.brokerage_account_id(), t.brokerage_account_id());
    assert_eq!(u.quantity(), t.quantity());
}

#[test]
fn execution_references_read_back_the_stored_values() {
    let account = BrokerageAccount::new("batch-brokers", "A1234567");
    let security = Security::new(SecurityType::Stock, "AAPL", "NASDAQ", Some(265598));
    let t = execution(account.id(), security.get_id());
    let f = t.brokerage_account_filter();
    assert!(matches!(&f[0].value, FieldValue::Id(id) if *id == account.id()));
    let found = t.brokerage_account(Some(account_document_of(&account))).unwrap();
    assert_eq!(found, account);
    let found = t.security(Some(security_document_of(&security))).unwrap();
    assert_eq!(found, security);
    assert!(matches!(t.security_filter()[0].value, FieldValue::Id(id) if id == security.get_id()));
}

#[test]
fn dangling_references_are_errors() {
    let account = BrokerageAccount::new("batch-brokers", "A1234567");
    let other = BrokerageAccount::new("batch-brokers", "A1234567");
    let t = execution(account.id(), DocId::from_bytes([9; 12]));
    assert!(matches!(t.brokerage_account(None), Err(StoreError::DanglingReference)));
    assert!(matches!(t.brokerage_account(Some(account_document_of(&other))), Err(StoreError::DanglingReference)));
    assert!(matches!(t.security(None), Err(StoreError::DanglingReference)));
    let malformed = vec![Field { name: "_id".to_string(), value: FieldValue::Int(3) }];
    assert!(matches!(t.brokerage_account(Some(malformed)), Err(StoreError::MalformedRecord { .. })));
}

fn full_summary() -> brokerage_db::eod_summary::Builder {
    EODSummary::builder()
        .brokerage_account_id(DocId::from_bytes([1; 12]))
        .start_timestamp_ms(1746576000000)
        .end_timestamp_ms(1746662399000)
        .starting_cash(amount(1000.0))
        .ending_cash(amount(1100.0))
        .commissions(amount(2.5))
        .deposits(amount(0.0))
        .dividends(amount(102.5))
        .interest(amount(0.0))
        .net_trade_purchases(amount(0.0))
        .net_trade_sales(amount(0.0))
        .other_fees(amount(0.0))
        .withdrawals(amount(0.0))
}

#[test]
fn eod_summary_builder_keeps_required_and_optional_fields() {
    let s = full_summary().dividends_ytd(amount(300.0)).build().unwrap();
    assert_eq!(s.start_timestamp_ms(), 1746576000000);
    assert_eq!(s.end_timestamp_ms(), 1746662399000);
    assert_eq!(f64::from_bits(s.ending_cash().to_bits()), 1100.0);
    assert_eq!(f64::from_bits(s.dividends().to_bits()), 102.5);
    assert_eq!(s.dividends_ytd, Some(amount(300.0)));
    assert_eq!(s.dividends_mtd, None);
    assert_eq!(s.commissions_mtd, None);
}

#[test]
fn eod_summary_builder_reports_the_missing_field() {
    assert_eq!(EODSummary::builder().build().unwrap_err().field, "brokerage_account_id");
    let r = EODSummary::builder()
        .brokerage_account_id(DocId::from_bytes([1; 12]))
        .start_timestamp_ms(0)
        .end_timestamp_ms(1)
        .starting_cash(amount(0.0))
        .ending_cash(amount(0.0))
        .commissions(amount(0.0))
        .commissions_mtd(amount(0.0))
        .build();
    assert_eq!(r.unwrap_err().field, "deposits");
}

#[test]
fn eod_summary_account_reference() {
    let account = BrokerageAccount::new("batch-brokers", "A1234567");
    let s = full_summary().brokerage_account_id(account.id()).build().unwrap();
    assert_eq!(s.brokerage_account(Some(account_document_of(&account))).unwrap(), account);
    let f = EODSummary::account_filter(account.id());
    assert_eq!(f[0].name, "brokerage_account_id");
}

#[test]
fn backends_are_selected_by_identifier() {
    assert_eq!(BackendKind::from_id("mongodb"), Some(BackendKind::Mongo));
    assert_eq!(BackendKind::from_id("dynamodb"), Some(BackendKind::Dynamo));
    assert_eq!(BackendKind::from_id("sqlite"), None);
    assert_eq!(BackendKind::Dynamo.id(), "dynamodb");
    let mut m = DbConnectionFactoryManager::new();
    assert_eq!(m.select("mongodb"), None);
    m.register_factory(BackendConfig::Mongo(MdbConnectionFactory::new("mongodb://localhost:27017", "test")));
    assert_eq!(m.select("mongodb"), Some(BackendKind::Mongo));
    assert_eq!(m.select("dynamodb"), None);
    m.register_factory(BackendConfig::Dynamo(DynamoDbConnectionFactory::new(
        "fakeKey",
        "fakeSecret",
        Some("http://localhost:8000".to_string()),
    )));
    m.register_factory(BackendConfig::Mongo(MdbConnectionFactory::new("mongodb://db:27017", "prod")));
    assert_eq!(m.mongo.as_ref().unwrap().db_name, "prod");
    assert_eq!(m.dynamo.as_ref().unwrap().endpoint_url.as_deref(), Some("http://localhost:8000"));
    assert_eq!(m.select("dynamodb"), Some(BackendKind::Dynamo));
    assert_eq!(MdbConnectionFactory::new("u", "d").id(), "mongodb");
}

#[test]
fn trade_execution_document_round_trip() {
    let t = execution(DocId::from_bytes([1; 12]), DocId::from_bytes([2; 12]));
    let doc = trade_execution_document_of(&t).unwrap();
    assert_eq!(doc.len(), 9);
    assert!(matches!(&doc[8].value, FieldValue::Text(s) if s == "Buy"));
    let back = trade_execution_from_document(&doc).unwrap();
    assert_eq!(back.id(), t.id());
    assert_eq!(back.brokerage_execution_id(), "abc-123-def-1");
    assert_eq!(back.quantity(), 100);
    assert_eq!(back.price(), t.price());
    assert_eq!(*back.side(), TradeSide::Buy);
    let f = execution_id_filter("abc-123-def-2");
    assert_eq!(f[0].name, "brokerage_execution_id");
}

#[test]
fn trade_execution_document_limits() {
    let mut t = execution(DocId::from_bytes([1; 12]), DocId::from_bytes([2; 12]));
    t.quantity = u64::MAX;
    match trade_execution_document_of(&t) {
        Err(StoreError::Unrepresentable { field }) => assert_eq!(field, "quantity"),
        other => panic!("unexpected {:?}", other),
    }
    t.quantity = i64::MAX as u64;
    let mut doc = trade_execution_document_of(&t).unwrap();
    assert_eq!(trade_execution_from_document(&doc).unwrap().quantity(), i64::MAX as u64);
    doc[8] = Field { name: "side".to_string(), value: FieldValue::Text("Short".to_string()) };
    match trade_execution_from_document(&doc) {
        Err(StoreError::MalformedRecord { field }) => assert_eq!(field, "side"),
        other => panic!("unexpected {:?}", other),
    }
    assert_eq!(TradeSide::from_name("Sell"), Some(TradeSide::Sell));
    assert_eq!(TradeSide::Sell.name(), "Sell");
}

#[test]
fn eod_summary_document_round_trip() {
    let s = full_summary().interest_mtd(amount(4.5)).build().unwrap();
    let doc = eod_summary_document_of(&s);
    assert_eq!(doc.len(), 26);
    let back = eod_summary_from_document(&doc).unwrap();
    assert_eq!(back.id(), s.id());
    assert_eq!(back.interest_mtd, Some(amount(4.5)));
    assert_eq!(back.interest_ytd, None);
    assert_eq!(back.ending_cash(), s.ending_cash());
    let without_optionals: Vec<Field> =
        doc.iter().filter(|f| !f.name.ends_with("_ytd")).cloned().collect();
    assert!(eod_summary_from_document(&without_optionals).is_ok());
    let without_required: Vec<Field> = doc.iter().filter(|f| f.name != "withdrawals").cloned().collect();
    match eod_summary_from_document(&without_required) {
        Err(StoreError::MalformedRecord { field }) => assert_eq!(field, "withdrawals"),
        other => panic!("unexpected {:?}", other),
    }
    assert_eq!(eod_summaries_from_documents(&vec![doc.clone(), doc]).unwrap().len(), 2);
}

#[test]
fn security_with_contract_id_stores_it() {
    let s = Security::new(SecurityType::Stock, "AAPL", "NASDAQ", Some(12345678));
    let doc = security_document_of(&s);
    assert_eq!(doc.len(), 5);
    assert!(matches!(doc[4].value, FieldValue::Int(12345678)));
    let mut with_null = security_document_of(&Security::new(SecurityType::Stock, "MSFT", "NYSE", None));
    with_null.push(Field { name: "ibkr_conid".to_string(), value: FieldValue::Null });
    assert_eq!(security_from_document(&with_null).unwrap().get_ibkr_conid(), None);
}
