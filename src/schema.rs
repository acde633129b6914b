use vstd::prelude::*;

use crate::migration::{
    down_plan, tagged, tolerated, unit_down, unit_up, up_plan, ProvisionView, StepResult, StepView,
};

verus! {

/// A physical object of a backend's schema.
pub enum SchemaObject {
    Collection(Seq<char>),
    Index(Seq<char>, Seq<char>),
    Table(Seq<char>),
}

/// The collection itself, or one of its indexes.
pub open spec fn in_collection(o: SchemaObject, c: Seq<char>) -> bool {
    match o {
        SchemaObject::Collection(x) => x == c,
        SchemaObject::Index(x, _) => x == c,
        SchemaObject::Table(_) => false,
    }
}

/// The schema after one step. Creating an index creates its collection if
/// needed; dropping a collection drops its indexes with it.
pub open spec fn apply_step(s: Set<SchemaObject>, st: StepView) -> Set<SchemaObject> {
    match st {
        StepView::CreateCollection(c) => s.insert(SchemaObject::Collection(c)),
        StepView::CreateIndex(c, i) => s.insert(SchemaObject::Collection(c)).insert(SchemaObject::Index(c, i.0)),
        StepView::DropIndex(c, n) => s.remove(SchemaObject::Index(c, n)),
        StepView::DropCollection(c) => s.filter(|o: SchemaObject| !in_collection(o, c)),
        StepView::CreateTable(t, _, _, _) => s.insert(SchemaObject::Table(t)),
        StepView::DeleteTable(t) => s.remove(SchemaObject::Table(t)),
    }
}

/// The schema after a sequence of steps, applied in order.
pub open spec fn apply_steps(s: Set<SchemaObject>, steps: Seq<StepView>) -> Set<SchemaObject>
    decreases steps.len(),
{
    if steps.len() == 0 {
        s
    } else {
        apply_step(apply_steps(s, steps.drop_last()), steps.last())
    }
}

/// The object whose presence a step creates or removes.
pub open spec fn target(st: StepView) -> SchemaObject {
    match st {
        StepView::CreateCollection(c) => SchemaObject::Collection(c),
        StepView::CreateIndex(c, i) => SchemaObject::Index(c, i.0),
        StepView::DropIndex(c, n) => SchemaObject::Index(c, n),
        StepView::DropCollection(c) => SchemaObject::Collection(c),
        StepView::CreateTable(t, _, _, _) => SchemaObject::Table(t),
        StepView::DeleteTable(t) => SchemaObject::Table(t),
    }
}

/// What a backend that fails on nothing else reports for a step: a creation
/// finds its object there already or makes it, a removal finds it gone or
/// removes it.
pub open spec fn reported(s: Set<SchemaObject>, st: StepView) -> StepResult {
    if s.contains(target(st)) {
        if st.is_create() {
            StepResult::AlreadyExists
        } else {
            StepResult::Applied
        }
    } else {
        if st.is_create() {
            StepResult::Applied
        } else {
            StepResult::NotFound
        }
    }
}

/// Every step can be applied again: whatever the schema holds, the run goes
/// on past what such a backend reports, so a plan run a second time
/// succeeds as the first did.
pub proof fn lemma_reapply_tolerated(s: Set<SchemaObject>, st: StepView)
    ensures
        tolerated(st, reported(s, st)),
{
}

/// The steps of a plan, without the unit identifiers.
pub open spec fn plan_steps(p: Seq<(Seq<char>, StepView)>) -> Seq<StepView> {
    p.map_values(|x: (Seq<char>, StepView)| x.1)
}

/// The objects that belong to what a unit provisions.
pub open spec fn belongs(o: SchemaObject, p: ProvisionView) -> bool {
    match p {
        ProvisionView::Collection(c, _) => in_collection(o, c),
        ProvisionView::Table(t, _, _, _) => o == SchemaObject::Table(t),
    }
}

pub open spec fn same_container(p: ProvisionView, q: ProvisionView) -> bool {
    match (p, q) {
        (ProvisionView::Collection(a, _), ProvisionView::Collection(b, _)) => a == b,
        (ProvisionView::Table(a, _, _, _), ProvisionView::Table(b, _, _, _)) => a == b,
        _ => false,
    }
}

/// No two units provision the same collection or the same table.
pub open spec fn distinct_containers(units: Seq<(Seq<char>, ProvisionView)>) -> bool {
    forall|i: int, j: int|
        0 <= i < j < units.len() ==> !same_container(#[trigger] units[i].1, #[trigger] units[j].1)
}

/// The store holds nothing that any of the units provisions.
pub open spec fn fresh_for(s: Set<SchemaObject>, units: Seq<(Seq<char>, ProvisionView)>) -> bool {
    forall|o: SchemaObject, i: int| #[trigger] s.contains(o) && 0 <= i < units.len() ==> !belongs(o, #[trigger] units[i].1)
}

proof fn lemma_apply_concat(s: Set<SchemaObject>, a: Seq<StepView>, b: Seq<StepView>)
    ensures
        apply_steps(s, a + b) == apply_steps(apply_steps(s, a), b),
    decreases b.len(),
{
    if b.len() == 0 {
        assert(a + b =~= a);
    } else {
        assert((a + b).drop_last() =~= a + b.drop_last());
        assert((a + b).last() == b.last());
        lemma_apply_concat(s, a, b.drop_last());
    }
}

proof fn lemma_plan_steps_concat(x: Seq<(Seq<char>, StepView)>, y: Seq<(Seq<char>, StepView)>)
    ensures
        plan_steps(x + y) == plan_steps(x) + plan_steps(y),
{
    assert(plan_steps(x + y) =~= plan_steps(x) + plan_steps(y));
}

proof fn lemma_plan_steps_tagged(id: Seq<char>, st: Seq<StepView>)
    ensures
        plan_steps(tagged(id, st)) == st,
{
    assert(plan_steps(tagged(id, st)) =~= st);
}

proof fn lemma_up_plan_steps(units: Seq<(Seq<char>, ProvisionView)>)
    requires
        units.len() > 0,
    ensures
        plan_steps(up_plan(units)) == plan_steps(up_plan(units.drop_last())) + unit_up(units.last().1),
        plan_steps(down_plan(units)) == unit_down(units.last().1) + plan_steps(down_plan(units.drop_last())),
{
    lemma_plan_steps_concat(up_plan(units.drop_last()), tagged(units.last().0, unit_up(units.last().1)));
    lemma_plan_steps_tagged(units.last().0, unit_up(units.last().1));
    lemma_plan_steps_concat(tagged(units.last().0, unit_down(units.last().1)), down_plan(units.drop_last()));
    lemma_plan_steps_tagged(units.last().0, unit_down(units.last().1));
}

/// The objects that a sequence of creating steps brings into being.
pub open spec fn created(steps: Seq<StepView>) -> Set<SchemaObject>
    decreases steps.len(),
{
    if steps.len() == 0 {
        Set::empty()
    } else {
        let rest = created(steps.drop_last());
        match steps.last() {
            StepView::CreateCollection(c) => rest.insert(SchemaObject::Collection(c)),
            StepView::CreateIndex(c, i) => rest.insert(SchemaObject::Collection(c)).insert(SchemaObject::Index(c, i.0)),
            StepView::CreateTable(t, _, _, _) => rest.insert(SchemaObject::Table(t)),
            _ => rest,
        }
    }
}

pub open spec fn all_create(steps: Seq<StepView>) -> bool {
    forall|i: int| 0 <= i < steps.len() ==> (#[trigger] steps[i]).is_create()
}

proof fn lemma_create_only(s: Set<SchemaObject>, steps: Seq<StepView>)
    requires
        all_create(steps),
    ensures
        apply_steps(s, steps) == s.union(created(steps)),
    decreases steps.len(),
{
    if steps.len() == 0 {
        assert(s.union(Set::empty()) =~= s);
    } else {
        let pre = steps.drop_last();
        assert(all_create(pre)) by {
            assert forall|i: int| 0 <= i < pre.len() implies (#[trigger] pre[i]).is_create() by {
                assert(pre[i] == steps[i]);
            }
        }
        lemma_create_only(s, pre);
        assert(steps[steps.len() - 1].is_create());
        assert(apply_steps(s, steps) =~= s.union(created(steps)));
    }
}

proof fn lemma_up_plan_creates(units: Seq<(Seq<char>, ProvisionView)>)
    ensures
        all_create(plan_steps(up_plan(units))),
    decreases units.len(),
{
    if units.len() > 0 {
        lemma_up_plan_creates(units.drop_last());
        lemma_up_plan_steps(units);
        let a = plan_steps(up_plan(units.drop_last()));
        let b = unit_up(units.last().1);
        assert(all_create(b));
        assert forall|i: int| 0 <= i < (a + b).len() implies (#[trigger] (a + b)[i]).is_create() by {
            if i < a.len() {
                assert((a + b)[i] == a[i]);
            } else {
                assert((a + b)[i] == b[i - a.len()]);
            }
        }
    }
}

/// Applying the forward plan a second time leaves the schema as one
/// application left it: every forward step only creates.
pub proof fn lemma_up_idempotent(s: Set<SchemaObject>, units: Seq<(Seq<char>, ProvisionView)>)
    ensures
        apply_steps(apply_steps(s, plan_steps(up_plan(units))), plan_steps(up_plan(units)))
            == apply_steps(s, plan_steps(up_plan(units))),
{
    let st = plan_steps(up_plan(units));
    lemma_up_plan_creates(units);
    lemma_create_only(s, st);
    lemma_create_only(apply_steps(s, st), st);
    assert(s.union(created(st)).union(created(st)) =~= s.union(created(st)));
}

/// A step that touches only collection `c` and its indexes, and does not
/// drop the collection.
pub open spec fn local_to(st: StepView, c: Seq<char>) -> bool {
    match st {
        StepView::CreateCollection(x) => x == c,
        StepView::CreateIndex(x, _) => x == c,
        StepView::DropIndex(x, _) => x == c,
        _ => false,
    }
}

proof fn lemma_local_steps(s: Set<SchemaObject>, steps: Seq<StepView>, c: Seq<char>)
    requires
        forall|i: int| 0 <= i < steps.len() ==> local_to(#[trigger] steps[i], c),
    ensures
        apply_steps(s, steps).filter(|o: SchemaObject| !in_collection(o, c))
            == s.filter(|o: SchemaObject| !in_collection(o, c)),
    decreases steps.len(),
{
    if steps.len() > 0 {
        let pre = steps.drop_last();
        assert forall|i: int| 0 <= i < pre.len() implies local_to(#[trigger] pre[i], c) by {
            assert(pre[i] == steps[i]);
        }
        lemma_local_steps(s, pre, c);
        assert(local_to(steps[steps.len() - 1], c));
        let y = apply_steps(s, pre);
        assert(apply_step(y, steps.last()).filter(|o: SchemaObject| !in_collection(o, c))
            =~= y.filter(|o: SchemaObject| !in_collection(o, c)));
    }
}

proof fn lemma_single(s: Set<SchemaObject>, st: StepView)
    ensures
        apply_steps(s, seq![st]) == apply_step(s, st),
{
    assert(seq![st].drop_last() =~= Seq::<StepView>::empty());
    assert(apply_steps(s, Seq::<StepView>::empty()) == s);
}

/// A unit's forward steps only add objects that belong to it.
proof fn lemma_unit_up_adds(y: Set<SchemaObject>, p: ProvisionView, o: SchemaObject)
    requires
        apply_steps(y, unit_up(p)).contains(o),
    ensures
        y.contains(o) || belongs(o, p),
{
    match p {
        ProvisionView::Collection(c, idx) => {
            let u = unit_up(p);
            assert forall|i: int| 0 <= i < u.len() implies local_to(#[trigger] u[i], c) by {}
            lemma_local_steps(y, u, c);
            if !in_collection(o, c) {
                assert(apply_steps(y, u).filter(|o: SchemaObject| !in_collection(o, c)).contains(o));
            }
        },
        ProvisionView::Table(t, k, a, b) => {
            lemma_single(y, StepView::CreateTable(t, k, a, b));
        },
    }
}

/// A unit's reverse steps undo its forward steps on a store that held
/// nothing of the unit's.
proof fn lemma_unit_round_trip(x: Set<SchemaObject>, p: ProvisionView)
    requires
        forall|o: SchemaObject| #[trigger] x.contains(o) ==> !belongs(o, p),
    ensures
        apply_steps(apply_steps(x, unit_up(p)), unit_down(p)) == x,
{
    match p {
        ProvisionView::Collection(c, idx) => {
            let u = unit_up(p);
            let d = unit_down(p);
            let drops = Seq::new(idx.len(), |i: int| StepView::DropIndex(c, idx[idx.len() - 1 - i].0));
            assert(d == drops + seq![StepView::DropCollection(c)]);
            lemma_apply_concat(apply_steps(x, u), drops, seq![StepView::DropCollection(c)]);
            lemma_apply_concat(x, u, drops);
            let ud = u + drops;
            assert forall|i: int| 0 <= i < ud.len() implies local_to(#[trigger] ud[i], c) by {
                if i < u.len() {
                    assert(ud[i] == u[i]);
                } else {
                    assert(ud[i] == drops[i - u.len()]);
                }
            }
            lemma_local_steps(x, ud, c);
            lemma_single(apply_steps(x, ud), StepView::DropCollection(c));
            assert(x.filter(|o: SchemaObject| !in_collection(o, c)) =~= x);
        },
        ProvisionView::Table(t, k, a, b) => {
            lemma_single(x, StepView::CreateTable(t, k, a, b));
            lemma_single(x.insert(SchemaObject::Table(t)), StepView::DeleteTable(t));
            assert(!x.contains(SchemaObject::Table(t)));
            assert(x.insert(SchemaObject::Table(t)).remove(SchemaObject::Table(t)) =~= x);
        },
    }
}

proof fn lemma_up_plan_adds(s: Set<SchemaObject>, units: Seq<(Seq<char>, ProvisionView)>, o: SchemaObject)
    requires
        apply_steps(s, plan_steps(up_plan(units))).contains(o),
    ensures
        s.contains(o) || exists|i: int| 0 <= i < units.len() && belongs(o, #[trigger] units[i].1),
    decreases units.len(),
{
    if units.len() > 0 {
        let pre = units.drop_last();
        lemma_up_plan_steps(units);
        lemma_apply_concat(s, plan_steps(up_plan(pre)), unit_up(units.last().1));
        lemma_unit_up_adds(apply_steps(s, plan_steps(up_plan(pre))), units.last().1, o);
        if apply_steps(s, plan_steps(up_plan(pre))).contains(o) {
            lemma_up_plan_adds(s, pre, o);
            if !s.contains(o) {
                let i = choose|i: int| 0 <= i < pre.len() && belongs(o, #[trigger] pre[i].1);
                assert(units[i] == pre[i]);
            }
        } else {
            assert(belongs(o, units[units.len() - 1].1));
        }
    }
}

proof fn lemma_belongs_one(o: SchemaObject, p: ProvisionView, q: ProvisionView)
    requires
        belongs(o, p),
        belongs(o, q),
    ensures
        same_container(p, q),
{
}

/// The reverse plan undoes the forward plan: on a store that held nothing of
/// what the units provision, running the forward plan and then the reverse
/// plan leaves the schema as it was before.
pub proof fn lemma_down_undoes_up(s: Set<SchemaObject>, units: Seq<(Seq<char>, ProvisionView)>)
    requires
        distinct_containers(units),
        fresh_for(s, units),
    ensures
        apply_steps(apply_steps(s, plan_steps(up_plan(units))), plan_steps(down_plan(units))) == s,
    decreases units.len(),
{
    if units.len() == 0 {
        assert(plan_steps(up_plan(units)) =~= Seq::<StepView>::empty());
        assert(plan_steps(down_plan(units)) =~= Seq::<StepView>::empty());
    } else {
        let pre = units.drop_last();
        let p = units.last().1;
        let n = units.len() - 1;
        assert forall|i: int, j: int| 0 <= i < j < pre.len() implies !same_container(#[trigger] pre[i].1, #[trigger] pre[j].1) by {
            assert(pre[i] == units[i] && pre[j] == units[j]);
        }
        assert forall|o: SchemaObject, i: int| #[trigger] s.contains(o) && 0 <= i < pre.len() implies !belongs(o, #[trigger] pre[i].1) by {
            assert(pre[i] == units[i]);
        }
        lemma_up_plan_steps(units);
        let up_pre = plan_steps(up_plan(pre));
        let down_pre = plan_steps(down_plan(pre));
        let x = apply_steps(s, up_pre);
        lemma_apply_concat(s, up_pre, unit_up(p));
        lemma_apply_concat(apply_steps(x, unit_up(p)), unit_down(p), down_pre);
        assert forall|o: SchemaObject| #[trigger] x.contains(o) implies !belongs(o, p) by {
            lemma_up_plan_adds(s, pre, o);
            if s.contains(o) {
                assert(units[n].1 == p);
            } else {
                let i = choose|i: int| 0 <= i < pre.len() && belongs(o, #[trigger] pre[i].1);
                assert(pre[i] == units[i]);
                if belongs(o, p) {
                    lemma_belongs_one(o, units[i].1, units[n].1);
                }
            }
        }
        lemma_unit_round_trip(x, p);
        lemma_down_undoes_up(s, pre);
    }
}

} // verus!
