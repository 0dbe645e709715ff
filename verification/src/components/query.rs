//! Filters, orderings, the parameters of a query and the compiled statement.

use crate::types::ezql_types::clone_values;
use crate::types::values_view;
use crate::types::EzqlValue;
use crate::types::ValueView;
use vstd::prelude::*;

verus! {

/// A compiled statement: its text and the values bound to its placeholders, in
/// the order in which the placeholders occur.
#[derive(Debug, PartialEq, Eq)]
pub struct Query {
    pub sql: String,
    pub params: Vec<EzqlValue>,
}

/// The mathematical content of a [`Query`].
pub ghost struct QueryView {
    pub sql: Seq<char>,
    pub params: Seq<ValueView>,
}

impl View for Query {
    type V = QueryView;

    open spec fn view(&self) -> QueryView {
        QueryView { sql: self.sql@, params: values_view(self.params@) }
    }
}

impl Query {
    /// A statement with the given text and bound values.
    pub fn new(sql: String, params: Vec<EzqlValue>) -> (query: Self)
        ensures
            query.sql == sql,
            query.params == params,
    {
        Self { sql, params }
    }

    /// A statement that binds no value.
    pub fn without_params(sql: String) -> (query: Self)
        ensures
            query.sql == sql,
            query.params@ == Seq::<EzqlValue>::empty(),
    {
        Self::new(sql, Vec::new())
    }

    /// The statement with no text and no bound value.
    pub fn empty() -> (query: Self)
        ensures
            query.sql@ == Seq::<char>::empty(),
            query.params@ == Seq::<EzqlValue>::empty(),
    {
        Self::without_params(String::new())
    }

    /// The statement's text.
    pub fn to_string(&self) -> (text: String)
        ensures
            text@ == self@.sql,
    {
        self.sql.clone()
    }
}

/// What a select or a delete is to cover: the projected columns (all when
/// absent), the filter, the ordering and the window.
#[derive(Debug, PartialEq, Eq)]
pub struct SelectQueryParams {
    pub columns: Option<Vec<String>>,
    pub where_clause: Option<WhereClause>,
    pub order_by: Option<OrderBy>,
    pub limit: Option<usize>,
    pub offset: Option<usize>,
}

/// What an update is to do: the assignments, in order, and the filter.
#[derive(Debug, PartialEq, Eq)]
pub struct UpdateQueryParams {
    pub assignments: Vec<(String, EzqlValue)>,
    pub where_clause: Option<WhereClause>,
}

/// A boolean expression tree over the columns of one table.
#[derive(Debug, PartialEq, Eq)]
pub enum WhereClause {
    All,
    And(Vec<WhereClause>),
    Or(Vec<WhereClause>),
    Eq(String, EzqlValue),
    Ne(String, EzqlValue),
    Gt(String, EzqlValue),
    Ge(String, EzqlValue),
    Lt(String, EzqlValue),
    Le(String, EzqlValue),
    Like(String, EzqlValue),
    Not(Box<WhereClause>),
    IsNull(String),
    IsNotNull(String),
    In(String, Vec<EzqlValue>),
    NotIn(String, Vec<EzqlValue>),
}

/// The column to order by, tagged with the direction.
#[derive(Debug, PartialEq, Eq)]
pub enum OrderBy {
    Asc(String),
    Desc(String),
}

/// The mathematical content of a [`WhereClause`].
pub ghost enum WhereView {
    All,
    And(Seq<WhereView>),
    Or(Seq<WhereView>),
    Eq(Seq<char>, ValueView),
    Ne(Seq<char>, ValueView),
    Gt(Seq<char>, ValueView),
    Ge(Seq<char>, ValueView),
    Lt(Seq<char>, ValueView),
    Le(Seq<char>, ValueView),
    Like(Seq<char>, ValueView),
    Not(Box<WhereView>),
    IsNull(Seq<char>),
    IsNotNull(Seq<char>),
    In(Seq<char>, Seq<ValueView>),
    NotIn(Seq<char>, Seq<ValueView>),
}

/// The mathematical content of an [`OrderBy`].
pub ghost enum OrderByView {
    Asc(Seq<char>),
    Desc(Seq<char>),
}

/// The mathematical content of a [`SelectQueryParams`].
pub ghost struct SelectParamsView {
    pub columns: Option<Seq<Seq<char>>>,
    pub where_clause: Option<WhereView>,
    pub order_by: Option<OrderByView>,
    pub limit: Option<nat>,
    pub offset: Option<nat>,
}

/// The mathematical content of an [`UpdateQueryParams`].
pub ghost struct UpdateParamsView {
    pub assignments: Seq<(Seq<char>, ValueView)>,
    pub where_clause: Option<WhereView>,
}

/// The contents of a sequence of clause trees, child by child.
pub open spec fn where_views(clauses: Seq<WhereClause>) -> Seq<WhereView>
    decreases clauses,
{
    Seq::new(
        clauses.len(),
        |i: int|
            if 0 <= i < clauses.len() {
                where_view(clauses[i])
            } else {
                WhereView::All
            },
    )
}

/// The content of a clause tree.
pub open spec fn where_view(clause: WhereClause) -> WhereView
    decreases clause,
{
    match clause {
        WhereClause::All => WhereView::All,
        WhereClause::And(clauses) => WhereView::And(where_views(clauses@)),
        WhereClause::Or(clauses) => WhereView::Or(where_views(clauses@)),
        WhereClause::Eq(column, value) => WhereView::Eq(column@, value@),
        WhereClause::Ne(column, value) => WhereView::Ne(column@, value@),
        WhereClause::Gt(column, value) => WhereView::Gt(column@, value@),
        WhereClause::Ge(column, value) => WhereView::Ge(column@, value@),
        WhereClause::Lt(column, value) => WhereView::Lt(column@, value@),
        WhereClause::Le(column, value) => WhereView::Le(column@, value@),
        WhereClause::Like(column, value) => WhereView::Like(column@, value@),
        WhereClause::Not(inner) => WhereView::Not(Box::new(where_view(*inner))),
        WhereClause::IsNull(column) => WhereView::IsNull(column@),
        WhereClause::IsNotNull(column) => WhereView::IsNotNull(column@),
        WhereClause::In(column, values) => WhereView::In(column@, values_view(values@)),
        WhereClause::NotIn(column, values) => WhereView::NotIn(column@, values_view(values@)),
    }
}

impl View for WhereClause {
    type V = WhereView;

    open spec fn view(&self) -> WhereView {
        where_view(*self)
    }
}

fn clone_clauses(clauses: &Vec<WhereClause>) -> (res: Vec<WhereClause>)
    ensures
        where_views(res@) == where_views(clauses@),
    decreases clauses,
{
    let mut res: Vec<WhereClause> = Vec::new();
    let mut i: usize = 0;
    while i < clauses.len()
        invariant
            i <= clauses.len(),
            res.len() == i,
            forall|j: int| 0 <= j < i ==> where_view(res[j]) == where_view(clauses[j]),
        decreases clauses.len() - i,
    {
        res.push(clone_clause(&clauses[i]));
        i += 1;
    }
    res
}

fn clone_clause(clause: &WhereClause) -> (res: WhereClause)
    ensures
        res@ == clause@,
    decreases clause,
{
    match clause {
        WhereClause::All => WhereClause::All,
        WhereClause::And(clauses) => WhereClause::And(clone_clauses(clauses)),
        WhereClause::Or(clauses) => WhereClause::Or(clone_clauses(clauses)),
        WhereClause::Eq(column, value) => WhereClause::Eq(column.clone(), value.clone()),
        WhereClause::Ne(column, value) => WhereClause::Ne(column.clone(), value.clone()),
        WhereClause::Gt(column, value) => WhereClause::Gt(column.clone(), value.clone()),
        WhereClause::Ge(column, value) => WhereClause::Ge(column.clone(), value.clone()),
        WhereClause::Lt(column, value) => WhereClause::Lt(column.clone(), value.clone()),
        WhereClause::Le(column, value) => WhereClause::Le(column.clone(), value.clone()),
        WhereClause::Like(column, value) => WhereClause::Like(column.clone(), value.clone()),
        WhereClause::Not(inner) => WhereClause::Not(Box::new(clone_clause(inner))),
        WhereClause::IsNull(column) => WhereClause::IsNull(column.clone()),
        WhereClause::IsNotNull(column) => WhereClause::IsNotNull(column.clone()),
        WhereClause::In(column, values) => WhereClause::In(column.clone(), clone_values(values)),
        WhereClause::NotIn(column, values) => WhereClause::NotIn(
            column.clone(),
            clone_values(values),
        ),
    }
}

impl Clone for WhereClause {
    fn clone(&self) -> (res: Self)
        ensures
            res@ == self@,
    {
        clone_clause(self)
    }
}

impl Clone for OrderBy {
    fn clone(&self) -> (res: Self)
        ensures
            res@ == self@,
    {
        match self {
            OrderBy::Asc(column) => OrderBy::Asc(column.clone()),
            OrderBy::Desc(column) => OrderBy::Desc(column.clone()),
        }
    }
}

impl Clone for Query {
    fn clone(&self) -> (res: Self)
        ensures
            res@ == self@,
    {
        Query { sql: self.sql.clone(), params: clone_values(&self.params) }
    }
}

fn clone_names(names: &Vec<String>) -> (res: Vec<String>)
    ensures
        names_view(res@) == names_view(names@),
{
    let mut res: Vec<String> = Vec::new();
    let mut i: usize = 0;
    while i < names.len()
        invariant
            i <= names.len(),
            res.len() == i,
            forall|k: int| 0 <= k < i ==> res[k]@ == names[k]@,
        decreases names.len() - i,
    {
        res.push(names[i].clone());
        i += 1;
    }
    res
}

fn clone_assignments(assignments: &Vec<(String, EzqlValue)>) -> (res: Vec<(String, EzqlValue)>)
    ensures
        assignments_view(res@) == assignments_view(assignments@),
{
    let mut res: Vec<(String, EzqlValue)> = Vec::new();
    let mut i: usize = 0;
    while i < assignments.len()
        invariant
            i <= assignments.len(),
            res.len() == i,
            forall|k: int|
                0 <= k < i ==> res[k].0@ == assignments[k].0@ && res[k].1@ == assignments[k].1@,
        decreases assignments.len() - i,
    {
        let assignment = &assignments[i];
        res.push((assignment.0.clone(), assignment.1.clone()));
        i += 1;
    }
    res
}

fn clone_filter(clause: &Option<WhereClause>) -> (res: Option<WhereClause>)
    ensures
        filter_view(res) == filter_view(*clause),
{
    match clause {
        Some(c) => Some(c.clone()),
        None => None,
    }
}

impl Clone for SelectQueryParams {
    fn clone(&self) -> (res: Self)
        ensures
            res@ == self@,
    {
        SelectQueryParams {
            columns: match &self.columns {
                Some(names) => Some(clone_names(names)),
                None => None,
            },
            where_clause: clone_filter(&self.where_clause),
            order_by: match &self.order_by {
                Some(order) => Some(order.clone()),
                None => None,
            },
            limit: self.limit,
            offset: self.offset,
        }
    }
}

impl Clone for UpdateQueryParams {
    fn clone(&self) -> (res: Self)
        ensures
            res@ == self@,
    {
        UpdateQueryParams {
            assignments: clone_assignments(&self.assignments),
            where_clause: clone_filter(&self.where_clause),
        }
    }
}

impl View for OrderBy {
    type V = OrderByView;

    open spec fn view(&self) -> OrderByView {
        match *self {
            OrderBy::Asc(column) => OrderByView::Asc(column@),
            OrderBy::Desc(column) => OrderByView::Desc(column@),
        }
    }
}

/// The contents of a list of names.
pub open spec fn names_view(names: Seq<String>) -> Seq<Seq<char>> {
    names.map_values(|name: String| name@)
}

/// The contents of a projection: the listed names, or nothing where all
/// columns are meant.
pub open spec fn projection_view(columns: Option<Vec<String>>) -> Option<Seq<Seq<char>>> {
    match columns {
        Some(names) => Some(names_view(names@)),
        None => None,
    }
}

/// The contents of an optional filter.
pub open spec fn filter_view(clause: Option<WhereClause>) -> Option<WhereView> {
    match clause {
        Some(c) => Some(c@),
        None => None,
    }
}

/// The contents of a list of assignments.
pub open spec fn assignments_view(assignments: Seq<(String, EzqlValue)>) -> Seq<
    (Seq<char>, ValueView),
> {
    assignments.map_values(|a: (String, EzqlValue)| (a.0@, a.1@))
}

impl View for SelectQueryParams {
    type V = SelectParamsView;

    open spec fn view(&self) -> SelectParamsView {
        SelectParamsView {
            columns: projection_view(self.columns),
            where_clause: filter_view(self.where_clause),
            order_by: match self.order_by {
                Some(order) => Some(order@),
                None => None,
            },
            limit: match self.limit {
                Some(n) => Some(n as nat),
                None => None,
            },
            offset: match self.offset {
                Some(n) => Some(n as nat),
                None => None,
            },
        }
    }
}

impl View for UpdateQueryParams {
    type V = UpdateParamsView;

    open spec fn view(&self) -> UpdateParamsView {
        UpdateParamsView {
            assignments: assignments_view(self.assignments@),
            where_clause: filter_view(self.where_clause),
        }
    }
}

} // verus!
