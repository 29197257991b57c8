//! The contract of a backend, and the decoding of the rows that it
//! delivers.

use vstd::prelude::*;
use crate::attribute::{Attribute, AttributeValue, Attributes};
use crate::codec::{decoded, CodecError, ColumnType};
use crate::name_map::NameMap;
use crate::query::Query;

verus! {

/// A backend that can run queries.
pub trait Adapter {
    /// Whether `answer` is something that this backend may give to `query`.
    /// An adapter that says nothing of its answers leaves this as it is:
    /// every answer may come.
    open spec fn answers(&self, query: Query, answer: Option<Vec<Attributes>>) -> bool {
        true
    }

    /// Runs `query`. `None` is a failure of the backend; a query that
    /// matches nothing gives `Some` of no rows.
    fn query(&self, query: &Query) -> (answer: Option<Vec<Attributes>>)
        ensures
            self.answers(*query, answer),
    ;
}

/// One column of a row, as the backend delivers it: the column's name, its
/// type, and its bytes, `None` for SQL NULL.
#[derive(Debug, Clone, PartialEq, Eq)]
pub struct Column {
    pub name: String,
    pub ty: ColumnType,
    pub raw: Option<Vec<u8>>,
}

impl Column {
    /// The column's bytes, `None` for SQL NULL.
    pub open spec fn raw_bytes(self) -> Option<Seq<u8>> {
        match self.raw {
            Some(bytes) => Some(bytes@),
            None => None,
        }
    }

    /// What the codec makes of the column.
    pub open spec fn value(self) -> Result<AttributeValue, CodecError> {
        decoded(self.ty, self.raw_bytes())
    }
}

/// The attributes of a row: each column that the codec can decode, under
/// the column's name, and no other. Of two columns with one name the later
/// one counts.
pub open spec fn row_values(columns: Seq<Column>) -> Map<Seq<char>, AttributeValue>
    decreases columns.len(),
{
    if columns.len() == 0 {
        Map::empty()
    } else {
        let before = row_values(columns.drop_last());
        match columns.last().value() {
            Ok(v) => before.insert(columns.last().name@, v),
            Err(_) => before,
        }
    }
}

/// A row has an attribute of a name exactly if one of its columns of that
/// name can be decoded: a column that cannot be decoded is left out, and
/// takes no other column with it.
pub proof fn lemma_row_names(columns: Seq<Column>, k: Seq<char>)
    ensures
        row_values(columns).contains_key(k) <==> exists|i: int|
            0 <= i < columns.len() && (#[trigger] columns[i]).name@ == k && columns[i].value() is Ok,
    decreases columns.len(),
{
    if columns.len() > 0 {
        let front = columns.drop_last();
        lemma_row_names(front, k);
        if exists|i: int|
            0 <= i < columns.len() && (#[trigger] columns[i]).name@ == k && columns[i].value() is Ok {
            let i = choose|i: int|
                0 <= i < columns.len() && (#[trigger] columns[i]).name@ == k && columns[i].value() is Ok;
            if i < columns.len() - 1 {
                assert(front[i].name@ == k);
            }
        }
    }
}

/// The attribute of a name is what the last column of that name that can
/// be decoded holds.
pub proof fn lemma_row_value(columns: Seq<Column>, i: int)
    requires
        0 <= i < columns.len(),
        columns[i].value() is Ok,
        forall|j: int|
            i < j < columns.len() && (#[trigger] columns[j]).name@ == columns[i].name@
                ==> columns[j].value() is Err,
    ensures
        row_values(columns).contains_key(columns[i].name@),
        row_values(columns)[columns[i].name@] == columns[i].value()->Ok_0,
    decreases columns.len(),
{
    if i < columns.len() - 1 {
        lemma_row_value(columns.drop_last(), i);
    }
}

/// Decodes one row. A column that the codec cannot decode is left out of
/// the result; the others are not affected by it.
pub fn decode_row(columns: &Vec<Column>) -> (r: Attributes)
    ensures
        r@.dom() == row_values(columns@).dom(),
        forall|k: Seq<char>| #[trigger] r@.contains_key(k) ==> r@[k]@ == row_values(columns@)[k],
{
    let mut attributes: Attributes = NameMap::new();
    let mut i: usize = 0;
    while i < columns.len()
        invariant
            i <= columns@.len(),
            attributes@.dom() =~= row_values(columns@.take(i as int)).dom(),
            forall|k: Seq<char>| #[trigger]
                attributes@.contains_key(k) ==> attributes@[k]@ == row_values(
                    columns@.take(i as int),
                )[k],
        decreases columns@.len() - i,
    {
        let column = &columns[i];
        let raw: Option<&[u8]> = match &column.raw {
            Some(bytes) => Some(bytes.as_slice()),
            None => None,
        };
        proof {
            assert(columns@.take(i + 1).drop_last() =~= columns@.take(i as int));
        }
        match Attribute::from_sql(&column.ty, raw) {
            Ok(attribute) => {
                attributes.insert(column.name.clone(), attribute);
            },
            Err(_) => {},
        }
        i += 1;
    }
    assert(columns@.take(columns@.len() as int) =~= columns@);
    attributes
}

} // verus!
