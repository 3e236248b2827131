//! What the handlers ask of a table: the rows that satisfy a condition, and
//! the table after an assignment to the rows that satisfy one.
use vstd::prelude::*;
use crate::models::Row;
use crate::text::{decimal, parse_i32, parse_user_id, to_decimal};

verus! {

/// A condition on the rows of a table.
pub trait Filter<T> {
    /// Whether `row` satisfies the condition.
    spec fn spec_holds(&self, row: T) -> bool;

    /// Whether `row` satisfies the condition.
    fn holds(&self, row: &T) -> (b: bool)
        ensures
            b == self.spec_holds(*row),
    ;
}

/// An assignment to one column of a row.
pub trait Assignment<T> {
    /// Whether `after` is `before` with the assignment made.
    spec fn spec_apply(&self, before: T, after: T) -> bool;

    /// The row after the assignment.
    fn apply(&self, row: &T) -> (r: T)
        ensures
            self.spec_apply(*row, r),
    ;
}

/// The rows of `rows` that satisfy `filter`, in table order.
pub open spec fn selected<T, F: Filter<T>>(rows: Seq<T>, filter: F) -> Seq<T> {
    rows.filter(|r: T| filter.spec_holds(r))
}

/// The first row of `rows` that satisfies `filter`, if any does.
pub open spec fn first_selected<T, F: Filter<T>>(rows: Seq<T>, filter: F) -> Option<T> {
    if selected(rows, filter).len() > 0 {
        Some(selected(rows, filter)[0])
    } else {
        None
    }
}

/// `after` is the table `before` once `assignment` is made to each row that
/// satisfies `filter`: same length, the selected rows assigned, the others
/// as they were.
pub open spec fn updated<T, F: Filter<T>, A: Assignment<T>>(
    before: Seq<T>,
    after: Seq<T>,
    filter: F,
    assignment: A,
) -> bool {
    &&& after.len() == before.len()
    &&& forall|i: int|
        0 <= i < before.len() ==> if filter.spec_holds(#[trigger] before[i]) {
            assignment.spec_apply(before[i], after[i])
        } else {
            after[i] == before[i]
        }
}

/// The rows of `rows` that satisfy `filter`, in table order.
pub fn select_list<T: Row, F: Filter<T>>(rows: &Vec<T>, filter: &F) -> (res: Vec<T>)
    ensures
        res@ == selected(rows@, *filter),
{
    let ghost pred = |r: T| filter.spec_holds(r);
    let mut res: Vec<T> = Vec::new();
    let mut i: usize = 0;
    while i < rows.len()
        invariant
            i <= rows@.len(),
            pred == (|r: T| filter.spec_holds(r)),
            res@ == rows@.take(i as int).filter(pred),
        decreases rows@.len() - i,
    {
        proof {
            assert(rows@.take(i + 1).drop_last() =~= rows@.take(i as int));
            assert(rows@.take(i + 1).last() == rows@[i as int]);
            assert(pred(rows@[i as int]) == filter.spec_holds(rows@[i as int]));
            reveal_with_fuel(Seq::<_>::filter, 1);
            assert(rows@.take(i + 1).filter(pred) == (if pred(rows@[i as int]) {
                rows@.take(i as int).filter(pred).push(rows@[i as int])
            } else {
                rows@.take(i as int).filter(pred)
            }));
        }
        if filter.holds(&rows[i]) {
            res.push(rows[i].duplicate());
        }
        i = i + 1;
    }
    proof {
        assert(rows@.take(rows@.len() as int) =~= rows@);
    }
    res
}

/// The first row of `rows` that satisfies `filter`, if any does.
pub fn select_first<T: Row, F: Filter<T>>(rows: &Vec<T>, filter: &F) -> (res: Option<T>)
    ensures
        res == first_selected(rows@, *filter),
{
    let all = select_list(rows, filter);
    if all.len() > 0 {
        Some(all[0].duplicate())
    } else {
        None
    }
}

/// Whether some row of `rows` satisfies `filter`.
pub open spec fn any_selected<T, F: Filter<T>>(rows: Seq<T>, filter: F) -> bool {
    exists|i: int| 0 <= i < rows.len() && filter.spec_holds(#[trigger] rows[i])
}

/// Whether some row of `rows` satisfies `filter`.
pub fn exists_row<T, F: Filter<T>>(rows: &Vec<T>, filter: &F) -> (b: bool)
    ensures
        b == any_selected(rows@, *filter),
{
    let mut i: usize = 0;
    while i < rows.len()
        invariant
            i <= rows@.len(),
            forall|j: int| 0 <= j < i ==> !filter.spec_holds(#[trigger] rows@[j]),
        decreases rows@.len() - i,
    {
        if filter.holds(&rows[i]) {
            return true;
        }
        i = i + 1;
    }
    false
}

/// The rows of `rows` that satisfy `filter`, when some row of `others`
/// satisfies `other_filter`; no rows otherwise. This is a query over two
/// tables whose condition is a conjunction of a condition on each.
pub fn select_related<T: Row, F: Filter<T>, U, G: Filter<U>>(
    rows: &Vec<T>,
    filter: &F,
    others: &Vec<U>,
    other_filter: &G,
) -> (res: Vec<T>)
    ensures
        res@ == (if any_selected(others@, *other_filter) {
            selected(rows@, *filter)
        } else {
            Seq::<T>::empty()
        }),
{
    if exists_row(others, other_filter) {
        select_list(rows, filter)
    } else {
        Vec::new()
    }
}

/// The table after `assignment` is made to each row that satisfies `filter`;
/// the other rows stay as they are.
pub fn update_where<T: Row, F: Filter<T>, A: Assignment<T>>(
    rows: &Vec<T>,
    filter: &F,
    assignment: &A,
) -> (res: Vec<T>)
    ensures
        updated(rows@, res@, *filter, *assignment),
{
    let mut res: Vec<T> = Vec::new();
    let mut i: usize = 0;
    while i < rows.len()
        invariant
            i <= rows@.len(),
            res@.len() == i,
            forall|j: int|
                0 <= j < i ==> if filter.spec_holds(#[trigger] rows@[j]) {
                    assignment.spec_apply(rows@[j], res@[j])
                } else {
                    res@[j] == rows@[j]
                },
        decreases rows@.len() - i,
    {
        if filter.holds(&rows[i]) {
            res.push(assignment.apply(&rows[i]));
        } else {
            res.push(rows[i].duplicate());
        }
        i = i + 1;
    }
    res
}

/// A value that a column is compared with or set to: an integer, or a text
/// such as the decimal text of an id.
#[derive(Debug)]
pub enum Value {
    Int(i32),
    Text(String),
}

/// Whether an integer column equals `v`: an integer is compared as it is, a
/// text with the column's decimal text.
pub open spec fn int_column_eq(column: i32, v: Value) -> bool {
    match v {
        Value::Int(n) => column == n,
        Value::Text(t) => decimal(column as int) == t@,
    }
}

/// Whether a text column equals `v`: a text is compared as it is, an integer
/// by its decimal text.
pub open spec fn text_column_eq(column: String, v: Value) -> bool {
    match v {
        Value::Int(n) => column@ == decimal(n as int),
        Value::Text(t) => column@ == t@,
    }
}

/// An integer column after it is set to `v`: a text is read as an integer,
/// and a text that writes none leaves the column as it was.
pub open spec fn int_column_set(column: i32, v: Value) -> i32 {
    match v {
        Value::Int(n) => n,
        Value::Text(t) => match parse_i32(t@) {
            Some(n) => n,
            None => column,
        },
    }
}

/// Whether the text of a text column after it is set to `v` is `s`.
pub open spec fn text_column_set(s: Seq<char>, v: Value) -> bool {
    match v {
        Value::Int(n) => s == decimal(n as int),
        Value::Text(t) => s == t@,
    }
}

/// `int_column_eq`, computed.
pub fn int_column_matches(column: i32, v: &Value) -> (b: bool)
    ensures
        b == int_column_eq(column, *v),
{
    match v {
        Value::Int(n) => column == *n,
        Value::Text(t) => to_decimal(column) == *t,
    }
}

/// `text_column_eq`, computed.
pub fn text_column_matches(column: &String, v: &Value) -> (b: bool)
    ensures
        b == text_column_eq(*column, *v),
{
    match v {
        Value::Int(n) => *column == to_decimal(*n),
        Value::Text(t) => *column == *t,
    }
}

/// `int_column_set`, computed.
pub fn int_column_assign(column: i32, v: &Value) -> (r: i32)
    ensures
        r == int_column_set(column, *v),
{
    match v {
        Value::Int(n) => *n,
        Value::Text(t) => match parse_user_id(t.as_str()) {
            Some(n) => n,
            None => column,
        },
    }
}

/// The new text of a text column that is set to `v`.
pub fn text_column_assign(v: &Value) -> (r: String)
    ensures
        text_column_set(r@, *v),
{
    match v {
        Value::Int(n) => to_decimal(*n),
        Value::Text(t) => t.clone(),
    }
}

/// The columns of a table, compared with and set to values.
pub trait Columns<T>: Sized {
    /// Whether column `self` of `row` equals `v`.
    spec fn spec_column_eq(&self, row: T, v: Value) -> bool;

    /// Whether `after` is `before` with column `self` set to `v`.
    spec fn spec_column_set(&self, before: T, v: Value, after: T) -> bool;

    /// Whether column `self` of `row` equals `v`.
    fn column_eq(&self, row: &T, v: &Value) -> (b: bool)
        ensures
            b == self.spec_column_eq(*row, *v),
    ;

    /// `row` after column `self` is set to `v`.
    fn column_set(&self, row: &T, v: &Value) -> (r: T)
        ensures
            self.spec_column_set(*row, *v, r),
    ;
}

/// A condition on the rows of a table, built as the handlers build their
/// queries: a column equal to a value, and conjunctions and disjunctions.
pub enum Expr<C> {
    Eq(C, Value),
    And(Box<Expr<C>>, Box<Expr<C>>),
    Or(Box<Expr<C>>, Box<Expr<C>>),
}

/// `column = value`.
pub fn eq<C>(column: C, value: Value) -> (e: Expr<C>)
    ensures
        e == Expr::Eq(column, value),
{
    Expr::Eq(column, value)
}

/// Both conditions.
pub fn and<C>(a: Expr<C>, b: Expr<C>) -> (e: Expr<C>)
    ensures
        e == Expr::And(Box::new(a), Box::new(b)),
{
    Expr::And(Box::new(a), Box::new(b))
}

/// Either condition.
pub fn or<C>(a: Expr<C>, b: Expr<C>) -> (e: Expr<C>)
    ensures
        e == Expr::Or(Box::new(a), Box::new(b)),
{
    Expr::Or(Box::new(a), Box::new(b))
}

/// Whether `row` satisfies `e`.
pub open spec fn expr_holds<T, C: Columns<T>>(e: Expr<C>, row: T) -> bool
    decreases e,
{
    match e {
        Expr::Eq(c, v) => c.spec_column_eq(row, v),
        Expr::And(a, b) => expr_holds(*a, row) && expr_holds(*b, row),
        Expr::Or(a, b) => expr_holds(*a, row) || expr_holds(*b, row),
    }
}

/// Whether `row` satisfies `e`.
pub fn eval<T, C: Columns<T>>(e: &Expr<C>, row: &T) -> (b: bool)
    ensures
        b == expr_holds(*e, *row),
    decreases e,
{
    match e {
        Expr::Eq(c, v) => c.column_eq(row, v),
        Expr::And(a, b) => eval(a, row) && eval(b, row),
        Expr::Or(a, b) => eval(a, row) || eval(b, row),
    }
}

impl<T, C: Columns<T>> Filter<T> for Expr<C> {
    open spec fn spec_holds(&self, row: T) -> bool {
        expr_holds(*self, row)
    }

    fn holds(&self, row: &T) -> (b: bool) {
        eval(self, row)
    }
}

/// `column := value`, made to each row that an update selects.
pub struct Assign<C> {
    pub column: C,
    pub value: Value,
}

impl<T, C: Columns<T>> Assignment<T> for Assign<C> {
    open spec fn spec_apply(&self, before: T, after: T) -> bool {
        self.column.spec_column_set(before, self.value, after)
    }

    fn apply(&self, row: &T) -> (r: T) {
        self.column.column_set(row, &self.value)
    }
}

} // verus!
