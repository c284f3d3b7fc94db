//! SQL statements as data: the text of a statement with its positional
//! parameters, and the `WHERE ... AND ...` assembly the list queries share.
use vstd::prelude::*;

use crate::text::owned;

verus! {

/// A positional SQL parameter.
#[derive(Debug)]
pub enum SqlValue {
    Text(String),
    Int(i64),
}

/// The content of a SQL parameter.
pub enum Param {
    Text(Seq<char>),
    Int(i64),
}

impl View for SqlValue {
    type V = Param;

    open spec fn view(&self) -> Param {
        match self {
            SqlValue::Text(s) => Param::Text(s@),
            SqlValue::Int(i) => Param::Int(*i),
        }
    }
}

/// The contents of a parameter list.
pub open spec fn params_view(v: Seq<SqlValue>) -> Seq<Param> {
    v.map_values(|p: SqlValue| p@)
}

/// A statement ready to run: its text and its parameters in order.
#[derive(Debug)]
pub struct SqlQuery {
    pub sql: String,
    pub params: Vec<SqlValue>,
}

/// Conditions joined by ` AND `.
pub open spec fn and_join(cs: Seq<Seq<char>>) -> Seq<char>
    decreases cs.len(),
{
    if cs.len() == 0 {
        Seq::empty()
    } else if cs.len() == 1 {
        cs[0]
    } else {
        and_join(cs.drop_last()) + " AND "@ + cs.last()
    }
}

/// ` WHERE` and the conditions, or nothing when there are none.
pub open spec fn where_spec(cs: Seq<Seq<char>>) -> Seq<char> {
    if cs.len() == 0 {
        Seq::empty()
    } else {
        " WHERE "@ + and_join(cs)
    }
}

/// The characters of each string of a list.
pub open spec fn texts(v: Seq<String>) -> Seq<Seq<char>> {
    v.map_values(|s: String| s@)
}

/// Builds the `WHERE` part of a statement from its conditions.
pub fn where_clause(conds: &Vec<String>) -> (r: String)
    ensures
        r@ == where_spec(texts(conds@)),
{
    if conds.len() == 0 {
        return String::new();
    }
    let mut joined = conds[0].clone();
    let mut i: usize = 1;
    assert(texts(conds@).take(1) =~= seq![conds@[0]@]);
    while i < conds.len()
        invariant
            1 <= i <= conds@.len(),
            joined@ == and_join(texts(conds@).take(i as int)),
        decreases conds@.len() - i,
    {
        joined.append(" AND ");
        joined.append(conds[i].as_str());
        assert(texts(conds@).take(i + 1).drop_last() =~= texts(conds@).take(i as int));
        i = i + 1;
    }
    assert(texts(conds@).take(i as int) =~= texts(conds@));
    let mut out = owned(" WHERE ");
    out.append(joined.as_str());
    out
}

/// A text parameter.
pub fn text_param(s: &str) -> (r: SqlValue)
    ensures
        r@ == Param::Text(s@),
{
    SqlValue::Text(owned(s))
}

} // verus!
