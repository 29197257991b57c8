//! Finding records of a model through an adapter and a serializer.

use vstd::prelude::*;
use crate::adapter::Adapter;
use crate::attribute::{Attribute, Attributes};
use crate::model::{ModelDef, Record};
use crate::query::Query;
use crate::serializer::Serializer;

verus! {

/// The entry point of the find operations.
pub struct Store;

/// Whether `records` is what a find of many records gives for an adapter's
/// answer: a failure for a failure, and else one record of each row, in the
/// order of the rows.
pub open spec fn is_records_of<S: Serializer>(
    serializer: &S,
    model: ModelDef,
    answer: Option<Vec<Attributes>>,
    records: Option<Vec<Record>>,
) -> bool {
    &&& records is Some <==> answer is Some
    &&& records is Some ==> records->Some_0@.len() == answer->Some_0@.len()
    &&& records is Some ==> forall|i: int|
        0 <= i < answer->Some_0@.len() ==> serializer.extracts(
            model,
            (#[trigger] answer->Some_0@[i])@,
            records->Some_0@[i],
        )
}

/// Whether `record` is what a find of one record gives for an adapter's
/// answer: nothing for a failure and for no rows, and else the record of
/// the first row.
pub open spec fn is_first_record_of<S: Serializer>(
    serializer: &S,
    model: ModelDef,
    answer: Option<Vec<Attributes>>,
    record: Option<Record>,
) -> bool {
    &&& record is Some <==> answer is Some && answer->Some_0@.len() > 0
    &&& record is Some ==> serializer.extracts(model, answer->Some_0@[0]@, record->Some_0)
}

/// The items of `v` in the opposite order.
fn reversed<T>(v: Vec<T>) -> (r: Vec<T>)
    ensures
        r@ == v@.reverse(),
{
    let mut v = v;
    let ghost all = v@;
    let mut r: Vec<T> = Vec::new();
    while v.len() > 0
        invariant
            v@ == all.take(v@.len() as int),
            v@.len() <= all.len(),
            r@.len() == all.len() - v@.len(),
            forall|j: int| 0 <= j < r@.len() ==> r@[j] == all[all.len() - 1 - j],
        decreases v@.len(),
    {
        let item = v.pop().unwrap();
        r.push(item);
    }
    r
}

/// The records that `serializer` makes of `rows`, one of each row, in the
/// order of the rows.
pub fn shape_rows<S: Serializer>(model: &ModelDef, serializer: &S, rows: Vec<Attributes>) -> (records:
    Vec<Record>)
    ensures
        records@.len() == rows@.len(),
        forall|i: int|
            0 <= i < rows@.len() ==> serializer.extracts(
                *model,
                (#[trigger] rows@[i])@,
                records@[i],
            ),
{
    let ghost all = rows@;
    let mut rest = reversed(rows);
    let mut records: Vec<Record> = Vec::new();
    while rest.len() > 0
        invariant
            rest@.len() + records@.len() == all.len(),
            forall|j: int| 0 <= j < rest@.len() ==> rest@[j] == all[all.len() - 1 - j],
            forall|i: int|
                0 <= i < records@.len() ==> serializer.extracts(
                    *model,
                    (#[trigger] all[i])@,
                    records@[i],
                ),
        decreases rest@.len(),
    {
        let row = rest.pop().unwrap();
        let record = serializer.extract(model, row);
        records.push(record);
    }
    records
}

/// The record that `serializer` makes of the first of `rows`, `None` where
/// there is no row.
pub fn shape_first<S: Serializer>(model: &ModelDef, serializer: &S, rows: Vec<Attributes>) -> (record:
    Option<Record>)
    ensures
        record is Some <==> rows@.len() > 0,
        record is Some ==> serializer.extracts(*model, rows@[0]@, record->Some_0),
{
    let mut rest = reversed(rows);
    match rest.pop() {
        Some(row) => Some(serializer.extract(model, row)),
        None => None,
    }
}

/// What a find of many records gives for an adapter's answer: a failure
/// for a failure, and else one record of each row, in the order of the rows.
pub fn records_of<S: Serializer>(
    model: &ModelDef,
    serializer: &S,
    answer: Option<Vec<Attributes>>,
) -> (records: Option<Vec<Record>>)
    ensures
        is_records_of(serializer, *model, answer, records),
{
    match answer {
        Some(rows) => Some(shape_rows(model, serializer, rows)),
        None => None,
    }
}

/// What a find of one record gives for an adapter's answer: nothing for a
/// failure and for no rows, and else the record of the first row.
pub fn first_record_of<S: Serializer>(
    model: &ModelDef,
    serializer: &S,
    answer: Option<Vec<Attributes>>,
) -> (record: Option<Record>)
    ensures
        is_first_record_of(serializer, *model, answer, record),
{
    match answer {
        Some(rows) => shape_first(model, serializer, rows),
        None => None,
    }
}

impl Store {
    /// The store. It holds nothing: adapter and serializer come with each
    /// call.
    pub fn new() -> Store {
        Store
    }

    /// Hands `query` to `adapter` and gives what `records_of` makes of the
    /// adapter's answer: a failure where the adapter fails, and else one
    /// record of each row that it gave, in the order of the rows.
    pub fn query<A: Adapter, S: Serializer>(
        &mut self,
        model: &ModelDef,
        adapter: &A,
        serializer: &S,
        query: &Query,
    ) -> (records: Option<Vec<Record>>)
        ensures
            exists|answer: Option<Vec<Attributes>>| #[trigger]
                adapter.answers(*query, answer) && is_records_of(
                    serializer,
                    *model,
                    answer,
                    records,
                ),
    {
        let answer = adapter.query(query);
        let ghost given = answer;
        let records = records_of(model, serializer, answer);
        assert(adapter.answers(*query, given) && is_records_of(
            serializer,
            *model,
            given,
            records,
        ));
        records
    }

    /// Hands the query of `ModelDef::find` for `id` to `adapter` and gives
    /// what `first_record_of` makes of the adapter's answer: the record of
    /// the first row that it gave, and nothing where it fails or gives no
    /// row.
    pub fn find<A: Adapter, S: Serializer>(
        &mut self,
        model: &ModelDef,
        adapter: &A,
        serializer: &S,
        id: &Attribute,
    ) -> (record: Option<Record>)
        ensures
            exists|answer: Option<Vec<Attributes>>| #[trigger]
                adapter.answers(model.find_spec(id), answer) && is_first_record_of(
                    serializer,
                    *model,
                    answer,
                    record,
                ),
    {
        let query = model.find(id);
        let answer = adapter.query(&query);
        let ghost given = answer;
        let record = first_record_of(model, serializer, answer);
        assert(adapter.answers(model.find_spec(id), given) && is_first_record_of(
            serializer,
            *model,
            given,
            record,
        ));
        record
    }

    /// Hands the query of `ModelDef::find_by` for `name` and `filter` to
    /// `adapter` and gives what `records_of` makes of the adapter's answer:
    /// a failure where the adapter fails, and else one record of each row
    /// that it gave, in the order of the rows.
    pub fn find_by<A: Adapter, S: Serializer>(
        &mut self,
        model: &ModelDef,
        adapter: &A,
        serializer: &S,
        name: &str,
        filter: &Attribute,
    ) -> (records: Option<Vec<Record>>)
        ensures
            exists|answer: Option<Vec<Attributes>>| #[trigger]
                adapter.answers(model.find_by_spec(name, filter), answer) && is_records_of(
                    serializer,
                    *model,
                    answer,
                    records,
                ),
    {
        let query = model.find_by(name, filter);
        let answer = adapter.query(&query);
        let ghost given = answer;
        let records = records_of(model, serializer, answer);
        assert(adapter.answers(model.find_by_spec(name, filter), given) && is_records_of(
            serializer,
            *model,
            given,
            records,
        ));
        records
    }
}

} // verus!
