use vstd::prelude::*;

use crate::amount::Amount;
use crate::ids::DocId;

verus! {

/// A field value as the library lays records out for a backend.
#[derive(Clone, Debug)]
pub enum FieldValue {
    Text(String),
    Id(DocId),
    Int(i64),
    Double(Amount),
    Null,
}

/// The mathematical value of a field.
pub enum FieldView {
    Text(Seq<char>),
    Id(Seq<u8>),
    Int(int),
    Double(u64),
    Null,
}

impl View for FieldValue {
    type V = FieldView;

    open spec fn view(&self) -> FieldView {
        match self {
            FieldValue::Text(s) => FieldView::Text(s@),
            FieldValue::Id(id) => FieldView::Id(id.bytes@),
            FieldValue::Int(n) => FieldView::Int(*n as int),
            FieldValue::Double(a) => FieldView::Double(a.bits),
            FieldValue::Null => FieldView::Null,
        }
    }
}

/// One named field of a record (a document's field, an item's attribute).
#[derive(Clone, Debug)]
pub struct Field {
    pub name: String,
    pub value: FieldValue,
}

impl View for Field {
    type V = (Seq<char>, FieldView);

    open spec fn view(&self) -> (Seq<char>, FieldView) {
        (self.name@, self.value@)
    }
}

pub open spec fn fields_view(r: Seq<Field>) -> Seq<(Seq<char>, FieldView)> {
    r.map_values(|f: Field| f@)
}

/// The value of the first field called `name`, if any.
pub open spec fn lookup(r: Seq<(Seq<char>, FieldView)>, name: Seq<char>) -> Option<FieldView>
    decreases r.len(),
{
    if r.len() == 0 {
        None
    } else if r[0].0 == name {
        Some(r[0].1)
    } else {
        lookup(r.drop_first(), name)
    }
}

/// The text held under `name`, if the first such field holds text.
pub open spec fn lookup_text(r: Seq<(Seq<char>, FieldView)>, name: Seq<char>) -> Option<Seq<char>> {
    match lookup(r, name) {
        Some(FieldView::Text(s)) => Some(s),
        _ => None,
    }
}

/// The identity held under `name`, if the first such field holds one.
pub open spec fn lookup_id(r: Seq<(Seq<char>, FieldView)>, name: Seq<char>) -> Option<Seq<u8>> {
    match lookup(r, name) {
        Some(FieldView::Id(b)) => Some(b),
        _ => None,
    }
}

pub fn text_field(name: &str, value: &str) -> (r: Field)
    ensures
        r@ == (name@, FieldView::Text(value@)),
{
    Field { name: name.to_owned(), value: FieldValue::Text(value.to_owned()) }
}

pub fn id_field(name: &str, id: DocId) -> (r: Field)
    ensures
        r@ == (name@, FieldView::Id(id.bytes@)),
{
    Field { name: name.to_owned(), value: FieldValue::Id(id) }
}

/// The integer held under `name`, if the first such field holds one.
pub open spec fn lookup_int(r: Seq<(Seq<char>, FieldView)>, name: Seq<char>) -> Option<int> {
    match lookup(r, name) {
        Some(FieldView::Int(n)) => Some(n),
        _ => None,
    }
}

/// The amount held under `name`, if the first such field holds one.
pub open spec fn lookup_amount(r: Seq<(Seq<char>, FieldView)>, name: Seq<char>) -> Option<u64> {
    match lookup(r, name) {
        Some(FieldView::Double(b)) => Some(b),
        _ => None,
    }
}

/// An optional amount: `Some(None)` where the field is absent or null,
/// `None` where it holds anything but an amount.
pub open spec fn lookup_optional_amount(r: Seq<(Seq<char>, FieldView)>, name: Seq<char>) -> Option<Option<u64>> {
    match lookup(r, name) {
        None => Some(None),
        Some(FieldView::Null) => Some(None),
        Some(FieldView::Double(b)) => Some(Some(b)),
        _ => None,
    }
}

pub open spec fn amount_bits(a: Option<Amount>) -> Option<u64> {
    match a {
        Some(x) => Some(x.bits),
        None => None,
    }
}

pub open spec fn optional_amount_view(a: Option<Amount>) -> FieldView {
    match a {
        Some(x) => FieldView::Double(x.bits),
        None => FieldView::Null,
    }
}

pub fn amount_field(name: &str, a: Amount) -> (r: Field)
    ensures
        r@ == (name@, FieldView::Double(a.bits)),
{
    Field { name: name.to_owned(), value: FieldValue::Double(a) }
}

pub fn optional_amount_field(name: &str, a: Option<Amount>) -> (r: Field)
    ensures
        r@ == (name@, optional_amount_view(a)),
{
    match a {
        Some(x) => Field { name: name.to_owned(), value: FieldValue::Double(x) },
        None => Field { name: name.to_owned(), value: FieldValue::Null },
    }
}

pub fn find_int(record: &Vec<Field>, name: &str) -> (r: Option<i64>)
    ensures
        match r {
            Some(n) => lookup_int(fields_view(record@), name@) == Some(n as int),
            None => lookup_int(fields_view(record@), name@) is None,
        },
{
    match position(record, name) {
        Some(i) => match &record[i].value {
            FieldValue::Int(n) => Some(*n),
            _ => None,
        },
        None => None,
    }
}

pub fn find_amount(record: &Vec<Field>, name: &str) -> (r: Option<Amount>)
    ensures
        match r {
            Some(a) => lookup_amount(fields_view(record@), name@) == Some(a.bits),
            None => lookup_amount(fields_view(record@), name@) is None,
        },
{
    match position(record, name) {
        Some(i) => match &record[i].value {
            FieldValue::Double(a) => Some(*a),
            _ => None,
        },
        None => None,
    }
}

pub fn find_optional_amount(record: &Vec<Field>, name: &str) -> (r: Option<Option<Amount>>)
    ensures
        match r {
            Some(Some(a)) => lookup_optional_amount(fields_view(record@), name@) == Some(Some(a.bits)),
            Some(None) => lookup_optional_amount(fields_view(record@), name@) == Some(None::<u64>),
            None => lookup_optional_amount(fields_view(record@), name@) is None,
        },
{
    match position(record, name) {
        Some(i) => match &record[i].value {
            FieldValue::Double(a) => Some(Some(*a)),
            FieldValue::Null => Some(None),
            _ => None,
        },
        None => Some(None),
    }
}

/// A conjunction of equalities: each field of the filter is found, with the
/// same value, in the record.
pub open spec fn satisfies(filter: Seq<(Seq<char>, FieldView)>, record: Seq<(Seq<char>, FieldView)>) -> bool {
    forall|i: int| 0 <= i < filter.len() ==> lookup(record, #[trigger] filter[i].0) == Some(filter[i].1)
}

pub fn int_field(name: &str, n: i64) -> (r: Field)
    ensures
        r@ == (name@, FieldView::Int(n as int)),
{
    Field { name: name.to_owned(), value: FieldValue::Int(n) }
}

/// The value under `name`, as `lookup` gives it.
pub fn find_field<'a>(record: &'a Vec<Field>, name: &str) -> (r: Option<&'a FieldValue>)
    ensures
        match r {
            Some(v) => lookup(fields_view(record@), name@) == Some(v@),
            None => lookup(fields_view(record@), name@) is None,
        },
{
    match position(record, name) {
        Some(i) => Some(&record[i].value),
        None => None,
    }
}

/// Position of the first field called `name`.
fn position(record: &Vec<Field>, name: &str) -> (r: Option<usize>)
    ensures
        match r {
            Some(i) => i < record.len() && lookup(fields_view(record@), name@) == Some(record@[i as int].value@),
            None => lookup(fields_view(record@), name@) is None,
        },
{
    let key = String::from_str(name);
    let ghost v = fields_view(record@);
    proof {
        assert(v.subrange(0, v.len() as int) =~= v);
    }
    let mut i: usize = 0;
    while i < record.len()
        invariant
            i <= record.len(),
            key@ == name@,
            v == fields_view(record@),
            lookup(v, name@) == lookup(v.subrange(i as int, v.len() as int), name@),
        decreases record.len() - i,
    {
        proof {
            assert(v.subrange(i as int, v.len() as int).drop_first() =~= v.subrange(i + 1, v.len() as int));
        }
        if record[i].name == key {
            return Some(i);
        }
        i = i + 1;
    }
    None
}

/// The text under `name`, as `lookup_text` gives it.
pub fn find_text(record: &Vec<Field>, name: &str) -> (r: Option<String>)
    ensures
        match r {
            Some(s) => lookup_text(fields_view(record@), name@) == Some(s@),
            None => lookup_text(fields_view(record@), name@) is None,
        },
{
    match position(record, name) {
        Some(i) => match &record[i].value {
            FieldValue::Text(s) => Some(s.clone()),
            _ => None,
        },
        None => None,
    }
}

/// The identity under `name`, as `lookup_id` gives it.
pub fn find_id(record: &Vec<Field>, name: &str) -> (r: Option<DocId>)
    ensures
        match r {
            Some(id) => lookup_id(fields_view(record@), name@) == Some(id.bytes@),
            None => lookup_id(fields_view(record@), name@) is None,
        },
{
    match position(record, name) {
        Some(i) => match &record[i].value {
            FieldValue::Id(id) => Some(*id),
            _ => None,
        },
        None => None,
    }
}

} // verus!
