//! The canonical description of a list request sent to the remote
//! collaborator: a page (limit and offset), an optional sort, and an ordered
//! list of filter criteria.  A query is an immutable value, replaced
//! wholesale on every edit.

use vstd::prelude::*;

verus! {

/// The direction of an optional sort.
#[derive(Clone, Copy, PartialEq, Eq, Structural, Debug)]
pub enum SortOrder {
    Asc,
    Desc,
}

/// One filter criterion: a field, an operator symbol and a comparison value.
/// Operator semantics belong to the remote collaborator.
#[derive(Debug)]
pub struct Criterion {
    pub operand_left: String,
    pub operator: String,
    pub operand_right: String,
}

impl Criterion {
    pub fn new(operand_left: String, operator: String, operand_right: String) -> (c: Criterion)
        ensures
            c == (Criterion { operand_left, operator, operand_right }),
    {
        Criterion { operand_left, operator, operand_right }
    }

    pub fn operand_left(&self) -> (r: &str)
        ensures
            r@ == self.operand_left@,
    {
        self.operand_left.as_str()
    }

    pub fn operator(&self) -> (r: &str)
        ensures
            r@ == self.operator@,
    {
        self.operator.as_str()
    }

    pub fn operand_right(&self) -> (r: &str)
        ensures
            r@ == self.operand_right@,
    {
        self.operand_right.as_str()
    }
}

impl Clone for Criterion {
    fn clone(&self) -> (c: Self)
        ensures
            c == *self,
    {
        Criterion {
            operand_left: self.operand_left.clone(),
            operator: self.operator.clone(),
            operand_right: self.operand_right.clone(),
        }
    }
}

/// The sort of a query: a field name and a direction.
#[derive(Debug)]
pub struct Sort {
    pub field: String,
    pub order: SortOrder,
}

impl Sort {
    pub fn new(field: String, order: SortOrder) -> (s: Sort)
        ensures
            s == (Sort { field, order }),
    {
        Sort { field, order }
    }

    pub fn field(&self) -> (r: &str)
        ensures
            r@ == self.field@,
    {
        self.field.as_str()
    }

    pub fn order(&self) -> (r: &SortOrder)
        ensures
            *r == self.order,
    {
        &self.order
    }
}

impl Clone for Sort {
    fn clone(&self) -> (s: Self)
        ensures
            s == *self,
    {
        Sort { field: self.field.clone(), order: self.order }
    }
}

/// The canonical list request.
#[derive(Debug)]
#[verifier::ext_equal]
pub struct Query {
    pub offset: u32,
    pub limit: u32,
    pub sort: Option<Sort>,
    pub filter_expression: Vec<Criterion>,
}

/// The mathematical value of a query: the same fields, with the criteria
/// list as a sequence.
#[verifier::ext_equal]
pub ghost struct QueryView {
    pub offset: u32,
    pub limit: u32,
    pub sort: Option<Sort>,
    pub filter_expression: Seq<Criterion>,
}

impl View for Query {
    type V = QueryView;

    open spec fn view(&self) -> QueryView {
        QueryView {
            offset: self.offset,
            limit: self.limit,
            sort: self.sort,
            filter_expression: self.filter_expression@,
        }
    }
}

impl Query {
    /// The invariant every query held by the runtime satisfies: the page
    /// size is positive and the offset is a whole number of pages.
    pub open spec fn wf(&self) -> bool {
        &&& self.limit > 0
        &&& self.offset % self.limit == 0
    }

    pub fn builder() -> (b: QueryBuilder)
        ensures
            b.query.is_default(),
    {
        QueryBuilder { query: Query::default() }
    }

    pub fn to_builder(&self) -> (b: QueryBuilder)
        ensures
            b.query@ == self@,
    {
        QueryBuilder { query: self.clone() }
    }

    pub fn offset(&self) -> (r: u32)
        ensures
            r == self.offset,
    {
        self.offset
    }

    pub fn limit(&self) -> (r: u32)
        ensures
            r == self.limit,
    {
        self.limit
    }

    pub fn sort(&self) -> (r: &Option<Sort>)
        ensures
            *r == self.sort,
    {
        &self.sort
    }

    pub fn filter_expression(&self) -> (r: &Vec<Criterion>)
        ensures
            *r == self.filter_expression,
    {
        &self.filter_expression
    }

    /// The query every browser starts from: the first page of fifty rows,
    /// unsorted and unfiltered.
    pub open spec fn is_default(&self) -> bool {
        &&& self.offset == 0
        &&& self.limit == 50
        &&& self.sort is None
        &&& self.filter_expression@ == Seq::<Criterion>::empty()
    }
}

impl Clone for Query {
    fn clone(&self) -> (q: Self)
        ensures
            q@ == self@,
    {
        let q = Query {
            offset: self.offset,
            limit: self.limit,
            sort: match &self.sort {
                Some(s) => Some(s.clone()),
                None => None,
            },
            filter_expression: self.filter_expression.clone(),
        };
        proof {
            assert forall|i: int| 0 <= i < self.filter_expression@.len() implies q.filter_expression@[i]
                == self.filter_expression@[i] by {
                assert(cloned::<Criterion>(self.filter_expression@[i], q.filter_expression@[i]));
            }
            assert(q.filter_expression@ =~= self.filter_expression@);
            assert(q@ =~= self@);
        }
        q
    }
}

impl Default for Query {
    fn default() -> (q: Query)
        ensures
            q.is_default(),
            q.wf(),
    {
        let q = Query { offset: 0, limit: 50, sort: None, filter_expression: Vec::new() };
        proof {
            assert(q.filter_expression@ =~= Seq::<Criterion>::empty());
        }
        q
    }
}

/// Builds a query field by field, starting from the default query.
pub struct QueryBuilder {
    pub query: Query,
}

impl QueryBuilder {
    pub fn limit(self, limit: u32) -> (b: QueryBuilder)
        ensures
            b.query == (Query { limit, ..self.query }),
    {
        QueryBuilder { query: Query { limit, ..self.query } }
    }

    pub fn offset(self, offset: u32) -> (b: QueryBuilder)
        ensures
            b.query == (Query { offset, ..self.query }),
    {
        QueryBuilder { query: Query { offset, ..self.query } }
    }

    pub fn sort(self, field: &str, order: SortOrder) -> (b: QueryBuilder)
        ensures
            b.query.offset == self.query.offset,
            b.query.limit == self.query.limit,
            b.query.filter_expression == self.query.filter_expression,
            b.query.sort is Some,
            b.query.sort->0.field@ == field@,
            b.query.sort->0.order == order,
    {
        QueryBuilder {
            query: Query { sort: Some(Sort { field: field.to_owned(), order }), ..self.query },
        }
    }

    pub fn filter(self, left: &str, operator: &str, right: String) -> (b: QueryBuilder)
        ensures
            b.query.offset == self.query.offset,
            b.query.limit == self.query.limit,
            b.query.sort == self.query.sort,
            b.query.filter_expression@.len() == self.query.filter_expression@.len() + 1,
            forall|i: int|
                0 <= i < self.query.filter_expression@.len() ==> b.query.filter_expression@[i]
                    == self.query.filter_expression@[i],
            b.query.filter_expression@.last().operand_left@ == left@,
            b.query.filter_expression@.last().operator@ == operator@,
            b.query.filter_expression@.last().operand_right == right,
    {
        let QueryBuilder { query } = self;
        let Query { offset, limit, sort, mut filter_expression } = query;
        filter_expression.push(
            Criterion {
                operand_left: left.to_owned(),
                operator: operator.to_owned(),
                operand_right: right,
            },
        );
        QueryBuilder { query: Query { offset, limit, sort, filter_expression } }
    }

    pub fn build(self) -> (q: Query)
        ensures
            q == self.query,
    {
        self.query
    }
}

} // verus!
