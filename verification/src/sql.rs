//! Compilation of a query into SQL text with positional placeholders and the
//! list of values that they stand for.

use vstd::prelude::*;
use vstd::string::*;
use crate::attribute::Attribute;
use crate::query::{Filter, Query, SortOrder};
use crate::text::{decimal, join, push_decimal, push_signed_decimal, signed_decimal};

verus! {

/// The placeholder of the parameter with the 1-based number `n`.
pub open spec fn placeholder(n: nat) -> Seq<char> {
    "$"@ + decimal(n)
}

/// The numbers `first`, `first + 1`, ... (`count` of them).
pub open spec fn numbered(first: nat, count: nat) -> Seq<nat> {
    Seq::new(count, |i: int| (first + i) as nat)
}

/// The placeholders of a list of numbers.
pub open spec fn placeholders(numbers: Seq<nat>) -> Seq<Seq<char>> {
    Seq::new(numbers.len(), |i: int| placeholder(numbers[i]))
}

impl<'a> Filter<'a> {
    /// The number of values that the filter carries: one for each equality
    /// and, for each membership test, as many as it lists.
    pub open spec fn param_count(self) -> nat
        decreases self,
    {
        match self {
            Filter::IsNull(_) => 0,
            Filter::IsNotNull(_) => 0,
            Filter::Equal(_, _) => 1,
            Filter::In(_, values) => values@.len(),
            Filter::And(left, right) => left.param_count() + right.param_count(),
            Filter::Or(left, right) => left.param_count() + right.param_count(),
        }
    }

    /// The values that the filter carries, the left operand's before the
    /// right operand's.
    pub open spec fn params(self) -> Seq<&'a Attribute>
        decreases self,
    {
        match self {
            Filter::IsNull(_) => Seq::empty(),
            Filter::IsNotNull(_) => Seq::empty(),
            Filter::Equal(_, value) => seq![value],
            Filter::In(_, values) => values@,
            Filter::And(left, right) => left.params() + right.params(),
            Filter::Or(left, right) => left.params() + right.params(),
        }
    }

    /// The numbers of the placeholders of the filter's values, in the order
    /// of `params`, when `base` parameters were numbered before it.
    pub open spec fn placeholder_numbers(self, base: nat) -> Seq<nat>
        decreases self,
    {
        match self {
            Filter::IsNull(_) => Seq::empty(),
            Filter::IsNotNull(_) => Seq::empty(),
            Filter::Equal(_, _) => seq![base + 1],
            Filter::In(_, values) => numbered(base + 1, values@.len()),
            Filter::And(left, right) => left.placeholder_numbers(base)
                + right.placeholder_numbers(base + left.param_count()),
            Filter::Or(left, right) => left.placeholder_numbers(base)
                + right.placeholder_numbers(base + left.param_count()),
        }
    }

    /// The SQL text of the filter when `base` parameters were numbered
    /// before it.
    pub open spec fn text(self, base: nat) -> Seq<char>
        decreases self,
    {
        match self {
            Filter::IsNull(name) => name@ + " IS NULL"@,
            Filter::IsNotNull(name) => name@ + " IS NOT NULL"@,
            Filter::Equal(name, _) => name@ + "="@ + placeholder(base + 1),
            Filter::In(name, values) => name@ + " IN ("@ + join(
                placeholders(numbered(base + 1, values@.len())),
                ","@,
            ) + ")"@,
            Filter::And(left, right) => "("@ + left.text(base) + ") AND ("@ + right.text(
                base + left.param_count(),
            ) + ")"@,
            Filter::Or(left, right) => "("@ + left.text(base) + ") OR ("@ + right.text(
                base + left.param_count(),
            ) + ")"@,
        }
    }

    /// The SQL text of the filter when its placeholders carry the given
    /// numbers, the first number going to the first value.
    pub open spec fn text_with(self, numbers: Seq<nat>) -> Seq<char>
        decreases self,
    {
        match self {
            Filter::IsNull(name) => name@ + " IS NULL"@,
            Filter::IsNotNull(name) => name@ + " IS NOT NULL"@,
            Filter::Equal(name, _) => name@ + "="@ + placeholder(numbers[0]),
            Filter::In(name, _) => name@ + " IN ("@ + join(placeholders(numbers), ","@) + ")"@,
            Filter::And(left, right) => "("@ + left.text_with(
                numbers.take(left.param_count() as int),
            ) + ") AND ("@ + right.text_with(numbers.skip(left.param_count() as int)) + ")"@,
            Filter::Or(left, right) => "("@ + left.text_with(
                numbers.take(left.param_count() as int),
            ) + ") OR ("@ + right.text_with(numbers.skip(left.param_count() as int)) + ")"@,
        }
    }

    /// A filter carries as many values as `param_count` says, and their
    /// placeholders are numbered `base + 1`, `base + 2`, ... without a gap,
    /// in the order in which the values are listed.
    pub proof fn lemma_placeholders_sequential(self, base: nat)
        ensures
            self.params().len() == self.param_count(),
            self.placeholder_numbers(base) == numbered(base + 1, self.param_count()),
        decreases self,
    {
        match self {
            Filter::And(left, right) => {
                left.lemma_placeholders_sequential(base);
                right.lemma_placeholders_sequential(base + left.param_count());
            },
            Filter::Or(left, right) => {
                left.lemma_placeholders_sequential(base);
                right.lemma_placeholders_sequential(base + left.param_count());
            },
            _ => {},
        }
        assert(self.placeholder_numbers(base) =~= numbered(base + 1, self.param_count()));
    }

    /// The placeholders that the text of a filter holds are those of
    /// `placeholder_numbers`, in that order.
    pub proof fn lemma_text_numbers(self, base: nat)
        ensures
            self.text(base) == self.text_with(self.placeholder_numbers(base)),
        decreases self,
    {
        let numbers = self.placeholder_numbers(base);
        match self {
            Filter::And(left, right) => {
                left.lemma_placeholders_sequential(base);
                left.lemma_text_numbers(base);
                right.lemma_text_numbers(base + left.param_count());
                assert(numbers.take(left.param_count() as int) =~= left.placeholder_numbers(base));
                assert(numbers.skip(left.param_count() as int) =~= right.placeholder_numbers(
                    base + left.param_count(),
                ));
            },
            Filter::Or(left, right) => {
                left.lemma_placeholders_sequential(base);
                left.lemma_text_numbers(base);
                right.lemma_text_numbers(base + left.param_count());
                assert(numbers.take(left.param_count() as int) =~= left.placeholder_numbers(base));
                assert(numbers.skip(left.param_count() as int) =~= right.placeholder_numbers(
                    base + left.param_count(),
                ));
            },
            _ => {},
        }
    }
}

/// The keyword of a sort direction.
pub open spec fn order_keyword(order: SortOrder) -> Seq<char> {
    match order {
        SortOrder::ASC => "ASC"@,
        SortOrder::DESC => "DESC"@,
    }
}

/// The texts of a list of column names.
pub open spec fn column_texts(fields: Seq<&str>) -> Seq<Seq<char>> {
    Seq::new(fields.len(), |i: int| fields[i]@)
}

/// The texts of a list of sort entries: the column, a space, the keyword.
pub open spec fn sort_texts(sort: Seq<(&str, SortOrder)>) -> Seq<Seq<char>> {
    Seq::new(sort.len(), |i: int| sort[i].0@ + " "@ + order_keyword(sort[i].1))
}

impl<'a> Query<'a> {
    /// What stands between `SELECT` and `FROM`.
    pub open spec fn select_text(self) -> Seq<char> {
        match self.fields {
            None => "*"@,
            Some(fields) => join(column_texts(fields@), ","@),
        }
    }

    /// The `WHERE` clause, empty without a filter.
    pub open spec fn where_text(self) -> Seq<char> {
        match self.filter {
            None => Seq::empty(),
            Some(filter) => " WHERE "@ + filter.text(0),
        }
    }

    /// The `ORDER BY` clause, empty without a sort entry.
    pub open spec fn order_text(self) -> Seq<char> {
        if self.sort_entries().len() == 0 {
            Seq::empty()
        } else {
            " ORDER BY "@ + join(sort_texts(self.sort_entries()), ","@)
        }
    }

    /// The `LIMIT` clause, empty without a limit.
    pub open spec fn limit_text(self) -> Seq<char> {
        match self.limit {
            None => Seq::empty(),
            Some(n) => " LIMIT "@ + signed_decimal(n as int),
        }
    }

    /// The `OFFSET` clause, empty without an offset.
    pub open spec fn offset_text(self) -> Seq<char> {
        match self.offset {
            None => Seq::empty(),
            Some(n) => " OFFSET "@ + signed_decimal(n as int),
        }
    }

    /// The SQL text of the query.
    pub open spec fn sql_text(self) -> Seq<char> {
        "SELECT "@ + self.select_text() + " FROM "@ + self.model.ty@ + self.where_text()
            + self.order_text() + self.limit_text() + self.offset_text()
    }

    /// The values of the query's placeholders: the value of `$1` first.
    pub open spec fn sql_params(self) -> Seq<&'a Attribute> {
        match self.filter {
            None => Seq::empty(),
            Some(filter) => filter.params(),
        }
    }

    /// A compiled query has one parameter for each equality of its filter
    /// and for each value that a membership test lists, and its text holds
    /// their placeholders with the numbers 1, 2, ... up to the number of
    /// parameters, in the order of the parameter list.
    pub proof fn lemma_compiled_placeholders(self)
        requires
            self.filter is Some,
        ensures
            self.sql_params().len() == self.filter->Some_0.param_count(),
            self.filter->Some_0.placeholder_numbers(0) == numbered(1, self.sql_params().len()),
            self.where_text() == " WHERE "@ + self.filter->Some_0.text_with(
                numbered(1, self.sql_params().len()),
            ),
    {
        let filter = self.filter->Some_0;
        filter.lemma_placeholders_sequential(0);
        filter.lemma_text_numbers(0);
    }
}

/// Appends the SQL text of `filter` to `sql` and the values that it carries
/// to `params`. The placeholders are numbered on from the values that
/// `params` holds already.
pub fn build_filter<'a>(sql: &mut String, params: &mut Vec<&'a Attribute>, filter: &Filter<'a>)
    ensures
        final(sql)@ == old(sql)@ + filter.text(old(params)@.len() as nat),
        final(params)@ == old(params)@ + filter.params(),
        final(params)@.len() == old(params)@.len() + filter.param_count(),
    decreases *filter,
{
    let ghost base = params@.len() as nat;
    let ghost params0 = params@;
    match filter {
        Filter::IsNull(name) => {
            sql.append(name);
            sql.append(" IS NULL");
        },
        Filter::IsNotNull(name) => {
            sql.append(name);
            sql.append(" IS NOT NULL");
        },
        Filter::Equal(name, attribute) => {
            params.push(*attribute);
            sql.append(name);
            sql.append("=");
            sql.append("$");
            push_decimal(sql, params.len() as u64);
        },
        Filter::In(name, attributes) => {
            sql.append(name);
            sql.append(" IN (");
            let ghost head = sql@;
            let ghost texts = placeholders(numbered(base + 1, attributes@.len()));
            let mut i: usize = 0;
            while i < attributes.len()
                invariant
                    i <= attributes@.len(),
                    texts == placeholders(numbered(base + 1, attributes@.len())),
                    sql@ == head + join(texts.take(i as int), ","@),
                    params@ == params0 + attributes@.take(i as int),
                    base == params0.len(),
                decreases attributes@.len() - i,
            {
                if i > 0 {
                    sql.append(",");
                }
                params.push(attributes[i]);
                sql.append("$");
                push_decimal(sql, params.len() as u64);
                proof {
                    assert(texts.take(i + 1).drop_last() =~= texts.take(i as int));
                }
                i += 1;
            }
            sql.append(")");
            proof {
                assert(texts.take(attributes@.len() as int) =~= texts);
            }
        },
        Filter::And(left, right) => {
            sql.append("(");
            build_filter(sql, params, left);
            sql.append(") AND (");
            build_filter(sql, params, right);
            sql.append(")");
        },
        Filter::Or(left, right) => {
            sql.append("(");
            build_filter(sql, params, left);
            sql.append(") OR (");
            build_filter(sql, params, right);
            sql.append(")");
        },
    }
    proof {
        filter.lemma_placeholders_sequential(base);
    }
}

/// The keyword of a sort direction.
fn order_str(order: &SortOrder) -> (r: &'static str)
    ensures
        r@ == order_keyword(*order),
{
    match order {
        SortOrder::ASC => "ASC",
        SortOrder::DESC => "DESC",
    }
}

/// Compiles `query`: the SQL text, and the values of its placeholders with
/// the value of `$1` first.
pub fn build_sql<'a>(query: &Query<'a>) -> (r: (String, Vec<&'a Attribute>))
    ensures
        r.0@ == query.sql_text(),
        r.1@ == query.sql_params(),
{
    let mut params: Vec<&'a Attribute> = Vec::new();
    let mut sql = String::new();
    sql.append("SELECT ");
    match &query.fields {
        None => {
            sql.append("*");
        },
        Some(fields) => {
            let ghost head = sql@;
            let ghost texts = column_texts(fields@);
            let mut i: usize = 0;
            while i < fields.len()
                invariant
                    i <= fields@.len(),
                    texts == column_texts(fields@),
                    sql@ == head + join(texts.take(i as int), ","@),
                decreases fields@.len() - i,
            {
                if i > 0 {
                    sql.append(",");
                }
                sql.append(fields[i]);
                proof {
                    assert(texts.take(i + 1).drop_last() =~= texts.take(i as int));
                }
                i += 1;
            }
            assert(texts.take(fields@.len() as int) =~= texts);
        },
    }
    sql.append(" FROM ");
    sql.append(query.model.ty);
    let ghost s1 = sql@;
    assert(s1 =~= "SELECT "@ + query.select_text() + " FROM "@ + query.model.ty@);
    match &query.filter {
        None => {},
        Some(filter) => {
            sql.append(" WHERE ");
            build_filter(&mut sql, &mut params, filter);
        },
    }
    let ghost s2 = sql@;
    assert(s2 =~= s1 + query.where_text());
    match &query.sort {
        None => {},
        Some(sort) => {
            if sort.len() > 0 {
                sql.append(" ORDER BY ");
                let ghost head = sql@;
                let ghost texts = sort_texts(sort@);
                let mut i: usize = 0;
                while i < sort.len()
                    invariant
                        i <= sort@.len(),
                        texts == sort_texts(sort@),
                        sql@ == head + join(texts.take(i as int), ","@),
                    decreases sort@.len() - i,
                {
                    if i > 0 {
                        sql.append(",");
                    }
                    sql.append(sort[i].0);
                    sql.append(" ");
                    sql.append(order_str(&sort[i].1));
                    proof {
                        assert(texts.take(i + 1).drop_last() =~= texts.take(i as int));
                    }
                    i += 1;
                }
                assert(texts.take(sort@.len() as int) =~= texts);
            }
        },
    }
    let ghost s3 = sql@;
    assert(s3 =~= s2 + query.order_text());
    match query.limit {
        None => {},
        Some(limit) => {
            sql.append(" LIMIT ");
            push_signed_decimal(&mut sql, limit);
        },
    }
    let ghost s4 = sql@;
    assert(s4 =~= s3 + query.limit_text());
    match query.offset {
        None => {},
        Some(offset) => {
            sql.append(" OFFSET ");
            push_signed_decimal(&mut sql, offset);
        },
    }
    assert(sql@ =~= s4 + query.offset_text());
    (sql, params)
}

} // verus!
