use std::collections::BTreeSet;
use brokerage_db::migration::{dynamo_step_result, mongo_step_result, TableFailure};

use brokerage_db::error::StoreError;
use brokerage_db::migration::{step_succeeded, BillingMode, KeyAttributeType, Provision, Runner, SchemaStep, StepResult};
use brokerage_db::migrations::{
    document_migrations, table_migrations, Migration001, Migration002, Migration003, Migration004,
    MigrationV001,
};

/// A stand-in backend schema: the names of the objects it holds.
#[derive(Default)]
struct FakeSchema {
    objects: BTreeSet<String>,
}

impl FakeSchema {
    fn apply(&mut self, step: &SchemaStep) -> StepResult {
        match step {
            SchemaStep::CreateCollection { collection } => {
                if self.objects.insert(format!("c:{collection}")) {
                    StepResult::Applied
                } else {
                    StepResult::AlreadyExists
                }
            }
            SchemaStep::CreateIndex { collection, index } => {
                self.objects.insert(format!("c:{collection}"));
                if self.objects.insert(format!("i:{collection}:{}", index.name)) {
                    StepResult::Applied
                } else {
                    StepResult::AlreadyExists
                }
            }
            SchemaStep::DropIndex { collection, name } => {
                if self.objects.remove(&format!("i:{collection}:{name}")) {
                    StepResult::Applied
                } else {
                    StepResult::NotFound
                }
            }
            SchemaStep::DropCollection { collection } => {
                let had = self.objects.remove(&format!("c:{collection}"));
                let prefix = format!("i:{collection}:");
                self.objects.retain(|o| !o.starts_with(&prefix));
                if had {
                    StepResult::Applied
                } else {
                    StepResult::NotFound
                }
            }
            SchemaStep::CreateTable { table, .. } => {
                if self.objects.insert(format!("t:{table}")) {
                    StepResult::Applied
                } else {
                    StepResult::AlreadyExists
                }
            }
            SchemaStep::DeleteTable { table } => {
                if self.objects.remove(&format!("t:{table}")) {
                    StepResult::Applied
                } else {
                    StepResult::NotFound
                }
            }
        }
    }

    fn run(&mut self, mut runner: Runner) -> Result<(), StoreError> {
        while !runner.is_finished() {
            let result = self.apply(&runner.current().step);
            runner.record(result);
        }
        runner.outcome()
    }
}

fn plan_of(mut runner: Runner) -> Vec<(String, String)> {
    let mut out = Vec::new();
    while !runner.is_finished() {
        let p = runner.current();
        let label = match &p.step {
            SchemaStep::CreateCollection { collection } => format!("create {collection}"),
            SchemaStep::CreateIndex { collection, index } => format!("index {collection}.{}", index.name),
            SchemaStep::DropIndex { collection, name } => format!("drop index {collection}.{name}"),
            SchemaStep::DropCollection { collection } => format!("drop {collection}"),
            SchemaStep::CreateTable { table, partition_key, .. } => format!("table {table}({partition_key})"),
            SchemaStep::DeleteTable { table } => format!("delete {table}"),
        };
        out.push((p.unit_id.clone(), label));
        runner.record(StepResult::Applied);
    }
    out
}

#[test]
fn units_declare_the_named_objects() {
    let u = Migration001 {}.unit();
    assert_eq!(u.id, "v001_add_accounts");
    let steps = u.up_steps();
    assert_eq!(steps.len(), 2);
    match &steps[1] {
        SchemaStep::CreateIndex { collection, index } => {
            assert_eq!(collection, "brokerage_accounts");
            assert_eq!(index.name, "brokerage_account_unique_idx");
            assert_eq!(index.keys, vec!["brokerage_id".to_string(), "account_id".to_string()]);
            assert!(index.unique);
            assert!(!index.sparse);
        }
        other => panic!("unexpected {:?}", other),
    }
    assert_eq!(Migration002 {}.unit().id, "v002_add_security");
    assert_eq!(Migration003 {}.unit().id, "v003_add_trade_executions");
    assert_eq!(Migration004 {}.unit().id, "v004_add_eod_summary");
    assert_eq!(MigrationV001 {}.unit().id, "v001_add_brokerage_account");
}

#[test]
fn up_plan_runs_units_in_ascending_order() {
    let plan = plan_of(Runner::up(&document_migrations()));
    let labels: Vec<&str> = plan.iter().map(|p| p.1.as_str()).collect();
    assert_eq!(
        labels,
        vec![
            "create brokerage_accounts",
            "index brokerage_accounts.brokerage_account_unique_idx",
            "create securities",
            "index securities.securities_unique_idx",
            "index securities.securities_conid_idx",
            "create trade_executions",
            "index trade_executions.trade_executions_unique_idx",
            "index trade_executions.trade_executions_by_account_security_timestamp_idx",
            "create eod_summaries",
            "index eod_summaries.eod_summaries_unique_idx",
        ]
    );
    assert_eq!(plan[0].0, "v001_add_accounts");
    assert_eq!(plan[9].0, "v004_add_eod_summary");
}

#[test]
fn down_plan_runs_units_in_descending_order() {
    let plan = plan_of(Runner::down(&document_migrations()));
    let labels: Vec<&str> = plan.iter().map(|p| p.1.as_str()).collect();
    assert_eq!(
        labels,
        vec![
            "drop index eod_summaries.eod_summaries_unique_idx",
            "drop eod_summaries",
            "drop index trade_executions.trade_executions_by_account_security_timestamp_idx",
            "drop index trade_executions.trade_executions_unique_idx",
            "drop trade_executions",
            "drop index securities.securities_conid_idx",
            "drop index securities.securities_unique_idx",
            "drop securities",
            "drop index brokerage_accounts.brokerage_account_unique_idx",
            "drop brokerage_accounts",
        ]
    );
}

#[test]
fn table_plans_create_and_delete_the_table() {
    let up = plan_of(Runner::up(&table_migrations()));
    assert_eq!(up, vec![("v001_add_brokerage_account".to_string(), "table brokerage_accounts(PK)".to_string())]);
    let down = plan_of(Runner::down(&table_migrations()));
    assert_eq!(down, vec![("v001_add_brokerage_account".to_string(), "delete brokerage_accounts".to_string())]);
}

#[test]
fn running_up_twice_succeeds_and_keeps_the_schema() {
    let mut schema = FakeSchema::default();
    schema.run(Runner::up(&document_migrations())).unwrap();
    let once = schema.objects.clone();
    assert_eq!(once.len(), 10);
    schema.run(Runner::up(&document_migrations())).unwrap();
    assert_eq!(schema.objects, once);

    let mut tables = FakeSchema::default();
    tables.run(Runner::up(&table_migrations())).unwrap();
    tables.run(Runner::up(&table_migrations())).unwrap();
    assert_eq!(tables.objects.len(), 1);
}

#[test]
fn down_after_up_restores_the_schema() {
    let mut schema = FakeSchema::default();
    schema.objects.insert("c:unrelated".to_string());
    let before = schema.objects.clone();
    schema.run(Runner::up(&document_migrations())).unwrap();
    schema.run(Runner::down(&document_migrations())).unwrap();
    assert_eq!(schema.objects, before);
    // Down again finds everything gone, and that is no failure.
    schema.run(Runner::down(&document_migrations())).unwrap();
    assert_eq!(schema.objects, before);

    let mut tables = FakeSchema::default();
    tables.run(Runner::up(&table_migrations())).unwrap();
    tables.run(Runner::down(&table_migrations())).unwrap();
    assert!(tables.objects.is_empty());
}

#[test]
fn run_stops_at_the_first_failed_step() {
    let mut runner = Runner::up(&document_migrations());
    runner.record(StepResult::Applied);
    runner.record(StepResult::Applied);
    runner.record(StepResult::Applied);
    assert!(!runner.is_finished());
    runner.record(StepResult::Failed { message: "index build failed".to_string() });
    assert!(runner.is_finished());
    match runner.outcome() {
        Err(StoreError::Migration { unit_id, message }) => {
            assert_eq!(unit_id, "v002_add_security");
            assert_eq!(message, "index build failed");
        }
        other => panic!("unexpected {:?}", other),
    }
}

#[test]
fn missing_object_on_create_is_a_failure() {
    let mut runner = Runner::down(&table_migrations());
    runner.record(StepResult::AlreadyExists);
    match runner.outcome() {
        Err(StoreError::Migration { unit_id, message }) => {
            assert_eq!(unit_id, "v001_add_brokerage_account");
            assert_eq!(message, "already exists");
        }
        other => panic!("unexpected {:?}", other),
    }
    let runner = Runner::up(&table_migrations());
    let step = &runner.current().step;
    assert!(step_succeeded(step, &StepResult::Applied));
    assert!(step_succeeded(step, &StepResult::AlreadyExists));
    assert!(!step_succeeded(step, &StepResult::NotFound));
    assert!(!step_succeeded(step, &StepResult::Failed { message: String::new() }));
}

#[test]
fn empty_unit_list_finishes_at_once() {
    let runner = Runner::up(&vec![]);
    assert!(runner.is_finished());
    assert!(runner.outcome().is_ok());
}

#[test]
fn backend_signals_map_to_step_results() {
    assert!(matches!(mongo_step_result(None), StepResult::Applied));
    assert!(matches!(mongo_step_result(Some((Some(48), String::new()))), StepResult::AlreadyExists));
    assert!(matches!(mongo_step_result(Some((Some(26), String::new()))), StepResult::NotFound));
    assert!(matches!(mongo_step_result(Some((Some(27), String::new()))), StepResult::NotFound));
    match mongo_step_result(Some((Some(13), "unauthorized".to_string()))) {
        StepResult::Failed { message } => assert_eq!(message, "unauthorized"),
        other => panic!("unexpected {:?}", other),
    }
    assert!(matches!(mongo_step_result(Some((None, String::new()))), StepResult::Failed { .. }));
    assert!(matches!(dynamo_step_result(None), StepResult::Applied));
    assert!(matches!(dynamo_step_result(Some(TableFailure::InUse)), StepResult::AlreadyExists));
    assert!(matches!(dynamo_step_result(Some(TableFailure::NotFound)), StepResult::NotFound));
    assert!(matches!(
        dynamo_step_result(Some(TableFailure::Other { message: "x".to_string() })),
        StepResult::Failed { .. }
    ));
}

#[test]
fn contract_id_index_is_unique_over_present_ids() {
    let u = Migration002 {}.unit();
    match &u.provision {
        Provision::Collection { name, indexes } => {
            assert_eq!(name, "securities");
            assert_eq!(indexes.len(), 2);
            assert_eq!(indexes[0].name, "securities_unique_idx");
            assert!(indexes[0].unique && !indexes[0].sparse);
            assert_eq!(indexes[1].name, "securities_conid_idx");
            assert_eq!(indexes[1].keys, vec!["ibkr_conid".to_string()]);
            assert!(indexes[1].unique);
            assert!(indexes[1].sparse);
        }
        other => panic!("unexpected {:?}", other),
    }
}

#[test]
fn accounts_table_has_a_string_key_and_per_request_billing() {
    let steps = MigrationV001 {}.unit().up_steps();
    assert_eq!(steps.len(), 1);
    match &steps[0] {
        SchemaStep::CreateTable { table, partition_key, key_type, billing } => {
            assert_eq!(table, "brokerage_accounts");
            assert_eq!(partition_key, "PK");
            assert_eq!(*key_type, KeyAttributeType::String);
            assert_eq!(*billing, BillingMode::PayPerRequest);
        }
        other => panic!("unexpected {:?}", other),
    }
}
