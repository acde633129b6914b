use vstd::prelude::*;
use vstd::string::*;

use crate::error::StoreError;

verus! {

/// An index over a collection: its name, the fields it covers (each in
/// ascending order), whether it is unique, and whether it is sparse (it
/// leaves out the documents that lack the indexed fields, so that uniqueness
/// binds only the documents that have them).
#[derive(Debug)]
pub struct IndexSpec {
    pub name: String,
    pub keys: Vec<String>,
    pub unique: bool,
    pub sparse: bool,
}

pub open spec fn strings_view(v: Seq<String>) -> Seq<Seq<char>> {
    v.map_values(|s: String| s@)
}

impl View for IndexSpec {
    type V = (Seq<char>, Seq<Seq<char>>, bool, bool);

    open spec fn view(&self) -> (Seq<char>, Seq<Seq<char>>, bool, bool) {
        (self.name@, strings_view(self.keys@), self.unique, self.sparse)
    }
}

fn copy_strings(v: &Vec<String>) -> (r: Vec<String>)
    ensures
        strings_view(r@) == strings_view(v@),
{
    let mut out: Vec<String> = Vec::new();
    let mut i: usize = 0;
    while i < v.len()
        invariant
            i <= v.len(),
            strings_view(out@) == strings_view(v@.subrange(0, i as int)),
        decreases v.len() - i,
    {
        out.push(v[i].clone());
        proof {
            assert(strings_view(v@.subrange(0, i + 1)) =~= strings_view(v@.subrange(0, i as int)).push(v@[i as int]@));
            assert(strings_view(out@) =~= strings_view(v@.subrange(0, i as int)).push(v@[i as int]@));
        }
        i = i + 1;
    }
    proof {
        assert(v@.subrange(0, v.len() as int) =~= v@);
    }
    out
}

impl IndexSpec {
    pub fn new(name: &str, keys: Vec<String>, unique: bool, sparse: bool) -> (r: IndexSpec)
        ensures
            r@ == (name@, strings_view(keys@), unique, sparse),
    {
        IndexSpec { name: name.to_owned(), keys, unique, sparse }
    }

    pub fn duplicate(&self) -> (r: IndexSpec)
        ensures
            r@ == self@,
    {
        IndexSpec { name: self.name.clone(), keys: copy_strings(&self.keys), unique: self.unique, sparse: self.sparse }
    }
}

/// The type of a key-value table's partition key attribute.
#[derive(Clone, Copy, Debug, PartialEq, Eq, Structural)]
pub enum KeyAttributeType {
    String,
    Number,
    Binary,
}

/// How a key-value table is billed.
#[derive(Clone, Copy, Debug, PartialEq, Eq, Structural)]
pub enum BillingMode {
    /// Paid per request, with no capacity to provision.
    PayPerRequest,
    /// Provisioned read and write capacity units.
    Provisioned { read_units: u64, write_units: u64 },
}

/// What one migration unit provisions: a collection with its indexes (in the
/// document database) or a table keyed by a partition key (in the key-value store).
#[derive(Debug)]
pub enum Provision {
    Collection { name: String, indexes: Vec<IndexSpec> },
    Table { name: String, partition_key: String, key_type: KeyAttributeType, billing: BillingMode },
}

pub enum ProvisionView {
    Collection(Seq<char>, Seq<(Seq<char>, Seq<Seq<char>>, bool, bool)>),
    Table(Seq<char>, Seq<char>, KeyAttributeType, BillingMode),
}

pub open spec fn indexes_view(v: Seq<IndexSpec>) -> Seq<(Seq<char>, Seq<Seq<char>>, bool, bool)> {
    v.map_values(|i: IndexSpec| i@)
}

impl View for Provision {
    type V = ProvisionView;

    open spec fn view(&self) -> ProvisionView {
        match self {
            Provision::Collection { name, indexes } => ProvisionView::Collection(name@, indexes_view(indexes@)),
            Provision::Table { name, partition_key, key_type, billing } => ProvisionView::Table(
                name@,
                partition_key@,
                *key_type,
                *billing,
            ),
        }
    }
}

/// One versioned, reversible schema change: a stable identifier and what it
/// provisions. Its forward and reverse steps are derived from the latter, so
/// that the reverse undoes exactly what the forward created.
#[derive(Debug)]
pub struct MigrationUnit {
    pub id: String,
    pub provision: Provision,
}

impl View for MigrationUnit {
    type V = (Seq<char>, ProvisionView);

    open spec fn view(&self) -> (Seq<char>, ProvisionView) {
        (self.id@, self.provision@)
    }
}

pub open spec fn units_view(v: Seq<MigrationUnit>) -> Seq<(Seq<char>, ProvisionView)> {
    v.map_values(|u: MigrationUnit| u@)
}

/// One operation on a backend's schema.
#[derive(Debug)]
pub enum SchemaStep {
    CreateCollection { collection: String },
    CreateIndex { collection: String, index: IndexSpec },
    DropIndex { collection: String, name: String },
    DropCollection { collection: String },
    CreateTable { table: String, partition_key: String, key_type: KeyAttributeType, billing: BillingMode },
    DeleteTable { table: String },
}

pub enum StepView {
    CreateCollection(Seq<char>),
    CreateIndex(Seq<char>, (Seq<char>, Seq<Seq<char>>, bool, bool)),
    DropIndex(Seq<char>, Seq<char>),
    DropCollection(Seq<char>),
    CreateTable(Seq<char>, Seq<char>, KeyAttributeType, BillingMode),
    DeleteTable(Seq<char>),
}

impl View for SchemaStep {
    type V = StepView;

    open spec fn view(&self) -> StepView {
        match self {
            SchemaStep::CreateCollection { collection } => StepView::CreateCollection(collection@),
            SchemaStep::CreateIndex { collection, index } => StepView::CreateIndex(collection@, index@),
            SchemaStep::DropIndex { collection, name } => StepView::DropIndex(collection@, name@),
            SchemaStep::DropCollection { collection } => StepView::DropCollection(collection@),
            SchemaStep::CreateTable { table, partition_key, key_type, billing } => StepView::CreateTable(
                table@,
                partition_key@,
                *key_type,
                *billing,
            ),
            SchemaStep::DeleteTable { table } => StepView::DeleteTable(table@),
        }
    }
}

pub open spec fn steps_view(v: Seq<SchemaStep>) -> Seq<StepView> {
    v.map_values(|s: SchemaStep| s@)
}

impl StepView {
    /// A step that creates something, and tolerates finding it there already.
    pub open spec fn is_create(self) -> bool {
        self is CreateCollection || self is CreateIndex || self is CreateTable
    }
}

/// The forward steps of a unit: create the collection, then each index in
/// order; or create the table.
pub open spec fn unit_up(p: ProvisionView) -> Seq<StepView> {
    match p {
        ProvisionView::Collection(c, idx) => seq![StepView::CreateCollection(c)] + Seq::new(
            idx.len(),
            |i: int| StepView::CreateIndex(c, idx[i]),
        ),
        ProvisionView::Table(t, k, a, b) => seq![StepView::CreateTable(t, k, a, b)],
    }
}

/// The reverse steps of a unit: drop the indexes, last first, then the
/// collection; or delete the table.
pub open spec fn unit_down(p: ProvisionView) -> Seq<StepView> {
    match p {
        ProvisionView::Collection(c, idx) => Seq::new(
            idx.len(),
            |i: int| StepView::DropIndex(c, idx[idx.len() - 1 - i].0),
        ) + seq![StepView::DropCollection(c)],
        ProvisionView::Table(t, _, _, _) => seq![StepView::DeleteTable(t)],
    }
}

/// Steps tagged with the identifier of the unit they belong to.
pub open spec fn tagged(id: Seq<char>, steps: Seq<StepView>) -> Seq<(Seq<char>, StepView)> {
    steps.map_values(|s: StepView| (id, s))
}

/// The forward plan: each unit's forward steps, units in ascending order.
pub open spec fn up_plan(units: Seq<(Seq<char>, ProvisionView)>) -> Seq<(Seq<char>, StepView)>
    decreases units.len(),
{
    if units.len() == 0 {
        seq![]
    } else {
        up_plan(units.drop_last()) + tagged(units.last().0, unit_up(units.last().1))
    }
}

/// The reverse plan: each unit's reverse steps, units in descending order.
pub open spec fn down_plan(units: Seq<(Seq<char>, ProvisionView)>) -> Seq<(Seq<char>, StepView)>
    decreases units.len(),
{
    if units.len() == 0 {
        seq![]
    } else {
        tagged(units.last().0, unit_down(units.last().1)) + down_plan(units.drop_last())
    }
}

impl MigrationUnit {
    pub fn up_steps(&self) -> (r: Vec<SchemaStep>)
        ensures
            steps_view(r@) == unit_up(self.provision@),
    {
        let mut out: Vec<SchemaStep> = Vec::new();
        match &self.provision {
            Provision::Collection { name, indexes } => {
                out.push(SchemaStep::CreateCollection { collection: name.clone() });
                let ghost idx = indexes_view(indexes@);
                let mut i: usize = 0;
                while i < indexes.len()
                    invariant
                        i <= indexes.len(),
                        idx == indexes_view(indexes@),
                        self.provision@ == ProvisionView::Collection(name@, idx),
                        steps_view(out@) == seq![StepView::CreateCollection(name@)] + Seq::new(
                            i as nat,
                            |j: int| StepView::CreateIndex(name@, idx[j]),
                        ),
                    decreases indexes.len() - i,
                {
                    let ghost before = steps_view(out@);
                    let index = indexes[i].duplicate();
                    assert(idx[i as int] == indexes@[i as int]@);
                    out.push(SchemaStep::CreateIndex { collection: name.clone(), index });
                    proof {
                        assert(steps_view(out@) =~= before.push(StepView::CreateIndex(name@, idx[i as int])));
                        assert(steps_view(out@) =~= seq![StepView::CreateCollection(name@)] + Seq::new(
                            (i + 1) as nat,
                            |j: int| StepView::CreateIndex(name@, idx[j]),
                        ));
                    }
                    i = i + 1;
                }
            },
            Provision::Table { name, partition_key, key_type, billing } => {
                out.push(
                    SchemaStep::CreateTable {
                        table: name.clone(),
                        partition_key: partition_key.clone(),
                        key_type: *key_type,
                        billing: *billing,
                    },
                );
                proof {
                    assert(steps_view(out@) =~= unit_up(self.provision@));
                }
            },
        }
        out
    }

    pub fn down_steps(&self) -> (r: Vec<SchemaStep>)
        ensures
            steps_view(r@) == unit_down(self.provision@),
    {
        let mut out: Vec<SchemaStep> = Vec::new();
        match &self.provision {
            Provision::Collection { name, indexes } => {
                let ghost idx = indexes_view(indexes@);
                let mut i: usize = indexes.len();
                while i > 0
                    invariant
                        i <= indexes.len(),
                        idx == indexes_view(indexes@),
                        self.provision@ == ProvisionView::Collection(name@, idx),
                        steps_view(out@) == Seq::new(
                            (idx.len() - i) as nat,
                            |j: int| StepView::DropIndex(name@, idx[idx.len() - 1 - j].0),
                        ),
                    decreases i,
                {
                    i = i - 1;
                    let ghost before = steps_view(out@);
                    assert(idx[i as int] == indexes@[i as int]@);
                    out.push(SchemaStep::DropIndex { collection: name.clone(), name: indexes[i].name.clone() });
                    proof {
                        assert(steps_view(out@) =~= before.push(StepView::DropIndex(name@, idx[i as int].0)));
                        assert(steps_view(out@) =~= Seq::new(
                            (idx.len() - i) as nat,
                            |j: int| StepView::DropIndex(name@, idx[idx.len() - 1 - j].0),
                        ));
                    }
                }
                out.push(SchemaStep::DropCollection { collection: name.clone() });
                proof {
                    assert(steps_view(out@) =~= unit_down(self.provision@));
                }
            },
            Provision::Table { name, .. } => {
                out.push(SchemaStep::DeleteTable { table: name.clone() });
                proof {
                    assert(steps_view(out@) =~= unit_down(self.provision@));
                }
            },
        }
        out
    }
}

/// A step of a plan, with the identifier of the unit it belongs to.
#[derive(Debug)]
pub struct PlannedStep {
    pub unit_id: String,
    pub step: SchemaStep,
}

impl View for PlannedStep {
    type V = (Seq<char>, StepView);

    open spec fn view(&self) -> (Seq<char>, StepView) {
        (self.unit_id@, self.step@)
    }
}

pub open spec fn plan_view(v: Seq<PlannedStep>) -> Seq<(Seq<char>, StepView)> {
    v.map_values(|p: PlannedStep| p@)
}

/// What the backend reported for one step.
#[derive(Debug)]
pub enum StepResult {
    Applied,
    AlreadyExists,
    NotFound,
    Failed { message: String },
}

/// Whether a step's result lets the run go on: a creation that finds its
/// object already there, and a removal that finds it already gone, count as
/// done, so that every step can be applied again.
pub open spec fn tolerated(step: StepView, result: StepResult) -> bool {
    match result {
        StepResult::Applied => true,
        StepResult::AlreadyExists => step.is_create(),
        StepResult::NotFound => !step.is_create(),
        StepResult::Failed { .. } => false,
    }
}

/// The message that a run keeps for a step result that stopped it.
pub open spec fn result_message(result: StepResult) -> Seq<char> {
    match result {
        StepResult::Failed { message } => message@,
        StepResult::AlreadyExists => "already exists"@,
        StepResult::NotFound => "not found"@,
        StepResult::Applied => Seq::empty(),
    }
}

fn message_of(result: StepResult) -> (r: String)
    ensures
        r@ == result_message(result),
{
    match result {
        StepResult::Failed { message } => message,
        StepResult::AlreadyExists => String::from_str("already exists"),
        StepResult::NotFound => String::from_str("not found"),
        StepResult::Applied => String::new(),
    }
}

pub fn step_succeeded(step: &SchemaStep, result: &StepResult) -> (r: bool)
    ensures
        r == tolerated(step@, *result),
{
    let create = match step {
        SchemaStep::CreateCollection { .. } => true,
        SchemaStep::CreateIndex { .. } => true,
        SchemaStep::CreateTable { .. } => true,
        _ => false,
    };
    match result {
        StepResult::Applied => true,
        StepResult::AlreadyExists => create,
        StepResult::NotFound => !create,
        StepResult::Failed { .. } => false,
    }
}

/// Server error code of the document database for a collection that exists already.
pub const MONGO_NAMESPACE_EXISTS_CODE: i32 = 48;

/// Server error code of the document database for a collection that does not exist.
pub const MONGO_NAMESPACE_NOT_FOUND_CODE: i32 = 26;

/// Server error code of the document database for an index that does not exist.
pub const MONGO_INDEX_NOT_FOUND_CODE: i32 = 27;

/// The result of a schema step in the document database, from the server's
/// error code when the step failed (`failure` is `None` when it succeeded).
pub fn mongo_step_result(failure: Option<(Option<i32>, String)>) -> (r: StepResult)
    ensures
        match failure {
            None => r is Applied,
            Some((Some(c), m)) => if c == MONGO_NAMESPACE_EXISTS_CODE {
                r is AlreadyExists
            } else if c == MONGO_NAMESPACE_NOT_FOUND_CODE || c == MONGO_INDEX_NOT_FOUND_CODE {
                r is NotFound
            } else {
                r == (StepResult::Failed { message: m })
            },
            Some((None, m)) => r == (StepResult::Failed { message: m }),
        },
{
    match failure {
        None => StepResult::Applied,
        Some((Some(c), m)) => if c == MONGO_NAMESPACE_EXISTS_CODE {
            StepResult::AlreadyExists
        } else if c == MONGO_NAMESPACE_NOT_FOUND_CODE || c == MONGO_INDEX_NOT_FOUND_CODE {
            StepResult::NotFound
        } else {
            StepResult::Failed { message: m }
        },
        Some((None, m)) => StepResult::Failed { message: m },
    }
}

/// What the key-value store said of a failed table operation.
#[derive(Debug)]
pub enum TableFailure {
    /// The table exists already (or is being created or deleted).
    InUse,
    /// The table does not exist.
    NotFound,
    Other { message: String },
}

/// The result of a schema step in the key-value store.
pub fn dynamo_step_result(failure: Option<TableFailure>) -> (r: StepResult)
    ensures
        match failure {
            None => r is Applied,
            Some(TableFailure::InUse) => r is AlreadyExists,
            Some(TableFailure::NotFound) => r is NotFound,
            Some(TableFailure::Other { message }) => r == (StepResult::Failed { message }),
        },
{
    match failure {
        None => StepResult::Applied,
        Some(TableFailure::InUse) => StepResult::AlreadyExists,
        Some(TableFailure::NotFound) => StepResult::NotFound,
        Some(TableFailure::Other { message }) => StepResult::Failed { message },
    }
}

fn append_tagged(out: &mut Vec<PlannedStep>, id: &String, steps: Vec<SchemaStep>)
    ensures
        plan_view(final(out)@) == plan_view(old(out)@) + tagged(id@, steps_view(steps@)),
{
    let ghost start = plan_view(out@);
    let ghost all = steps_view(steps@);
    let mut rest = steps;
    let n: usize = rest.len();
    assert(all.len() == n);
    let mut k: usize = 0;
    while rest.len() > 0
        invariant
            k + rest.len() == all.len(),
            all.len() <= usize::MAX,
            steps_view(rest@) == all.subrange(k as int, all.len() as int),
            plan_view(out@) == start + tagged(id@, all.subrange(0, k as int)),
        decreases rest.len(),
    {
        let ghost before = plan_view(out@);
        let ghost rv = rest@;
        let step = rest.remove(0);
        proof {
            assert(steps_view(rv)[0] == step@);
            assert(steps_view(rest@) =~= steps_view(rv).subrange(1, rv.len() as int));
        }
        out.push(PlannedStep { unit_id: id.clone(), step });
        proof {
            assert(all[k as int] == step@);
            assert(plan_view(out@) =~= before.push((id@, step@)));
            assert(tagged(id@, all.subrange(0, k + 1)) =~= tagged(id@, all.subrange(0, k as int)).push((id@, step@)));
            assert(all.subrange(k + 1, all.len() as int) =~= all.subrange(k as int, all.len() as int).subrange(1, all.len() - k));
        }
        k = k + 1;
    }
    proof {
        assert(all.subrange(0, k as int) =~= all);
    }
}

/// A run of a plan against one backend connection. It hands out one step at
/// a time, learns its result, and stops at the first step that failed.
#[derive(Debug)]
pub struct Runner {
    plan: Vec<PlannedStep>,
    pos: usize,
    failed: bool,
    message: String,
}

impl Runner {
    pub closed spec fn plan(&self) -> Seq<(Seq<char>, StepView)> {
        plan_view(self.plan@)
    }

    /// Number of steps done so far.
    pub closed spec fn done(&self) -> nat {
        self.pos as nat
    }

    /// Whether the run stopped at a failed step (the one after those done).
    pub closed spec fn has_failed(&self) -> bool {
        self.failed
    }

    /// What the backend said of the failed step.
    pub closed spec fn failure_message(&self) -> Seq<char> {
        self.message@
    }

    pub open spec fn finished(&self) -> bool {
        self.has_failed() || self.done() == self.plan().len()
    }

    pub closed spec fn wf(&self) -> bool {
        &&& self.pos <= self.plan.len()
        &&& self.failed ==> self.pos < self.plan.len()
    }

    /// A run that applies each unit's forward steps, units in ascending order.
    pub fn up(units: &Vec<MigrationUnit>) -> (r: Runner)
        ensures
            r.wf(),
            r.plan() == up_plan(units_view(units@)),
            r.done() == 0,
            !r.has_failed(),
    {
        let ghost uv = units_view(units@);
        let mut plan: Vec<PlannedStep> = Vec::new();
        let mut i: usize = 0;
        while i < units.len()
            invariant
                i <= units.len(),
                uv == units_view(units@),
                plan_view(plan@) == up_plan(uv.subrange(0, i as int)),
            decreases units.len() - i,
        {
            let steps = units[i].up_steps();
            append_tagged(&mut plan, &units[i].id, steps);
            proof {
                assert(uv.subrange(0, i + 1).drop_last() =~= uv.subrange(0, i as int));
                assert(uv[i as int] == units@[i as int]@);
            }
            i = i + 1;
        }
        proof {
            assert(uv.subrange(0, units.len() as int) =~= uv);
        }
        Runner { plan, pos: 0, failed: false, message: String::new() }
    }

    /// A run that applies each unit's reverse steps, units in descending order.
    pub fn down(units: &Vec<MigrationUnit>) -> (r: Runner)
        ensures
            r.wf(),
            r.plan() == down_plan(units_view(units@)),
            r.done() == 0,
            !r.has_failed(),
    {
        let ghost uv = units_view(units@);
        let mut plan: Vec<PlannedStep> = Vec::new();
        let mut i: usize = units.len();
        proof {
            assert(uv.subrange(0, units.len() as int) =~= uv);
            assert(plan_view(plan@) + down_plan(uv.subrange(0, i as int)) =~= down_plan(uv));
        }
        while i > 0
            invariant
                i <= units.len(),
                uv == units_view(units@),
                plan_view(plan@) + down_plan(uv.subrange(0, i as int)) == down_plan(uv),
            decreases i,
        {
            i = i - 1;
            let ghost before = plan_view(plan@);
            let steps = units[i].down_steps();
            append_tagged(&mut plan, &units[i].id, steps);
            proof {
                assert(uv.subrange(0, i + 1).drop_last() =~= uv.subrange(0, i as int));
                assert(uv[i as int] == units@[i as int]@);
                let t = tagged(uv[i as int].0, unit_down(uv[i as int].1));
                assert(down_plan(uv.subrange(0, i + 1)) == t + down_plan(uv.subrange(0, i as int)));
                assert(before + (t + down_plan(uv.subrange(0, i as int))) =~= (before + t) + down_plan(uv.subrange(0, i as int)));
            }
        }
        proof {
            assert(down_plan(uv.subrange(0, 0)) =~= seq![]);
            assert(plan_view(plan@) =~= plan_view(plan@) + down_plan(uv.subrange(0, 0)));
        }
        Runner { plan, pos: 0, failed: false, message: String::new() }
    }

    pub fn is_finished(&self) -> (r: bool)
        requires
            self.wf(),
        ensures
            r == self.finished(),
    {
        self.failed || self.pos == self.plan.len()
    }

    /// The step to apply next.
    pub fn current(&self) -> (r: &PlannedStep)
        requires
            self.wf(),
            !self.finished(),
        ensures
            r@ == self.plan()[self.done() as int],
    {
        &self.plan[self.pos]
    }

    /// Takes the backend's result for the current step: a tolerated result
    /// moves on to the next step, any other stops the run there.
    pub fn record(&mut self, result: StepResult)
        requires
            old(self).wf(),
            !old(self).finished(),
        ensures
            final(self).wf(),
            final(self).plan() == old(self).plan(),
            tolerated(old(self).plan()[old(self).done() as int].1, result) ==> final(self).done()
                == old(self).done() + 1 && !final(self).has_failed(),
            !tolerated(old(self).plan()[old(self).done() as int].1, result) ==> final(self).done()
                == old(self).done() && final(self).has_failed() && final(self).failure_message()
                == result_message(result),
    {
        if step_succeeded(&self.plan[self.pos].step, &result) {
            self.pos = self.pos + 1;
        } else {
            self.failed = true;
            self.message = message_of(result);
        }
    }

    /// How the finished run ended: success, or the migration error that names
    /// the unit of the failed step and keeps what the backend said of it.
    pub fn outcome(&self) -> (r: Result<(), StoreError>)
        requires
            self.wf(),
            self.finished(),
        ensures
            !self.has_failed() ==> r is Ok,
            self.has_failed() ==> (r matches Err(StoreError::Migration { unit_id, message })
                && unit_id@ == self.plan()[self.done() as int].0 && message@ == self.failure_message()),
    {
        if self.failed {
            Err(
                StoreError::Migration {
                    unit_id: self.plan[self.pos].unit_id.clone(),
                    message: self.message.clone(),
                },
            )
        } else {
            Ok(())
        }
    }
}

} // verus!
