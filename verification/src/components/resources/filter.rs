//! The query editor: an overlay form with a page-size field, a sort field
//! and direction, and two filter-criterion rows.  Confirming parses the
//! fields into a fresh query; a malformed field keeps the editor open with
//! the error retained locally.

use vstd::prelude::*;

use crate::components::ComponentReturn;
use crate::input::ComponentEvent;
use crate::query::{Criterion, Query, SortOrder};
use crate::util::{dec_digits, format_u32, parse_u32, spec_parse_u32, str_eq};
use crate::widgets::form::msg::{FormError, FormLocalMsg, FormMsg};
use crate::widgets::form::row::{name_found, row_values_updated, RowField};
use crate::widgets::form::text::{text_with_value, TextField};
use crate::widgets::form::{
    change_wf, field_changed, field_name, row_value, text_value, ChangeSet, FieldComponent, Form,
};

verus! {

broadcast use vstd::std_specs::vec::axiom_spec_len, vstd::string::group_string_axioms;

/// A filter message: everything the editor consumes itself is `Local`; a
/// confirmed query travels outward for the owning browser to adopt.
#[derive(Debug)]
pub enum FilterMsg {
    Local(FilterLocalMsg),
    Outer(Query),
}

/// A message the editor consumes itself: one for its form, or its own
/// confirmation step.
#[derive(Debug)]
pub enum FilterLocalMsg {
    Form(FormMsg),
    FilterForm(FilterFormMsg),
}

/// The editor's confirmation: the fields parsed into a query.
#[derive(Debug)]
pub enum FilterFormMsg {
    Changed(Query),
}

/// Why a confirmation was rejected; the editor keeps the error and stays
/// open.
#[derive(Clone, Copy, PartialEq, Eq, Structural, Debug)]
pub enum FilterError {
    /// The page-size field does not hold a positive number.
    InvalidLimit,
    /// The sort-order field holds neither of the two direction tokens.
    InvalidSortOrder,
}

/// One parsed criterion row, before validation.
pub struct Criteria {
    pub field: String,
    pub operator: String,
    pub value: String,
}

impl Criteria {
    /// A criterion row takes part in the query only when every part of it
    /// was filled in.
    pub fn is_valid(&self) -> (r: bool)
        ensures
            r == criteria_valid(self.field@, self.operator@, self.value@),
    {
        !self.field.as_str().is_empty() && !self.operator.as_str().is_empty()
            && !self.value.as_str().is_empty()
    }
}

/// All three parts of a criterion row are non-empty.
pub open spec fn criteria_valid(field: Seq<char>, operator: Seq<char>, value: Seq<char>) -> bool {
    field.len() > 0 && operator.len() > 0 && value.len() > 0
}

/// The shape of a criterion row: three text fields for the left operand,
/// the operator symbol and the right operand.
pub open spec fn filter_row_shape(r: RowField) -> bool {
    &&& r.fields@.len() == 3
    &&& r.fields@[0].name@ == "left_operand"@
    &&& r.fields@[1].name@ == "operator"@
    &&& r.fields@[2].name@ == "right_operand"@
}

/// The shape of the editor's form: the page size, the sort field and
/// direction, and two criterion rows, in that order.
pub open spec fn filter_form_shape(fields: Seq<FieldComponent>) -> bool {
    &&& fields.len() == 5
    &&& fields[0] matches FieldComponent::Text(t) && t.name@ == "limit"@
    &&& fields[1] matches FieldComponent::Text(t) && t.name@ == "sort_field"@
    &&& fields[2] matches FieldComponent::Text(t) && t.name@ == "sort_order"@
    &&& fields[3] matches FieldComponent::Row(r) && r.name@ == "filter_0"@ && filter_row_shape(r)
    &&& fields[4] matches FieldComponent::Row(r) && r.name@ == "filter_1"@ && filter_row_shape(r)
}

/// The direction a sort-order token denotes.
pub open spec fn parse_sort_order(s: Seq<char>) -> Option<SortOrder> {
    if s == "ASC"@ {
        Some(SortOrder::Asc)
    } else if s == "DESC"@ {
        Some(SortOrder::Desc)
    } else {
        None
    }
}

/// A criterion's parts match three field values.
pub open spec fn criterion_matches(c: Criterion, l: Seq<char>, o: Seq<char>, v: Seq<char>) -> bool {
    &&& c.operand_left@ == l
    &&& c.operator@ == o
    &&& c.operand_right@ == v
}

/// The three values of a criterion row, in row order.
pub open spec fn row_criteria(f: FieldComponent) -> (Seq<char>, Seq<char>, Seq<char>) {
    (row_value(f, 0), row_value(f, 1), row_value(f, 2))
}

/// The page-size field holds a positive number.
pub open spec fn limit_ok(fields: Seq<FieldComponent>) -> bool {
    match spec_parse_u32(text_value(fields[0])) {
        Some(l) => l > 0,
        None => false,
    }
}

/// The sort-order field holds one of the two direction tokens.
pub open spec fn order_ok(fields: Seq<FieldComponent>) -> bool {
    parse_sort_order(text_value(fields[2])) is Some
}

/// Confirmation succeeds exactly when the page size and the sort order are
/// sound.
pub open spec fn parse_ok(fields: Seq<FieldComponent>) -> bool {
    limit_ok(fields) && order_ok(fields)
}

/// What parsing the editor's fields returns: the exact query on success,
/// and which validation error otherwise.
pub open spec fn parse_result(fields: Seq<FieldComponent>, r: Result<Query, FilterError>) -> bool {
    let c0 = row_criteria(fields[3]);
    let c1 = row_criteria(fields[4]);
    match r {
        Err(e) => !parse_ok(fields) && e == (if !order_ok(fields) {
            FilterError::InvalidSortOrder
        } else {
            FilterError::InvalidLimit
        }),
        Ok(q) => {
            let n0: int = if criteria_valid(c0.0, c0.1, c0.2) {
                1
            } else {
                0
            };
            &&& parse_ok(fields)
            &&& Some(q.limit) == spec_parse_u32(text_value(fields[0]))
            &&& q.offset == 0
            &&& (if text_value(fields[1]).len() == 0 {
                q.sort is None
            } else {
                q.sort matches Some(st) && st.field@ == text_value(fields[1]) && Some(st.order)
                    == parse_sort_order(text_value(fields[2]))
            })
            &&& q.filter_expression@.len() == n0 + (if criteria_valid(c1.0, c1.1, c1.2) {
                1int
            } else {
                0int
            })
            &&& (criteria_valid(c0.0, c0.1, c0.2) ==> criterion_matches(
                q.filter_expression@[0],
                c0.0,
                c0.1,
                c0.2,
            ))
            &&& (criteria_valid(c1.0, c1.1, c1.2) ==> criterion_matches(
                q.filter_expression@[n0],
                c1.0,
                c1.1,
                c1.2,
            ))
            &&& q.wf()
        },
    }
}

/// A criterion row reset to its pristine state: operands empty, the
/// operator back to equality.
pub open spec fn row_cleared(f: FieldComponent) -> bool {
    &&& row_value(f, 0).len() == 0
    &&& row_value(f, 1) == "="@
    &&& row_value(f, 2).len() == 0
}

/// What pre-populating the editor from a query leaves in the form: exactly
/// the query's own values.  Whatever the query does not define — the sort
/// when it has none, criterion rows beyond its criteria — is reset, so
/// canceled edits never survive into a later confirmation.
pub open spec fn set_query_values(after: Seq<FieldComponent>, q: Query) -> bool {
    &&& text_value(after[0]) == dec_digits(q.limit as nat)
    &&& (match q.sort {
        Some(st) => text_value(after[1]) == st.field@ && text_value(after[2]) == sort_order_token(
            st.order,
        ),
        None => text_value(after[1]).len() == 0 && text_value(after[2]) == "ASC"@,
    })
    &&& (q.filter_expression@.len() >= 1 ==> criterion_matches(
        q.filter_expression@[0],
        row_value(after[3], 0),
        row_value(after[3], 1),
        row_value(after[3], 2),
    ))
    &&& (q.filter_expression@.len() < 1 ==> row_cleared(after[3]))
    &&& (q.filter_expression@.len() >= 2 ==> criterion_matches(
        q.filter_expression@[1],
        row_value(after[4], 0),
        row_value(after[4], 1),
        row_value(after[4], 2),
    ))
    &&& (q.filter_expression@.len() < 2 ==> row_cleared(after[4]))
}

/// The token that denotes a direction.
pub open spec fn sort_order_token(order: SortOrder) -> Seq<char> {
    match order {
        SortOrder::Asc => "ASC"@,
        SortOrder::Desc => "DESC"@,
    }
}

/// Two queries that agree in every observable part: page, sort and
/// criteria, compared by contents.
pub open spec fn query_equiv(a: Query, b: Query) -> bool {
    &&& a.limit == b.limit
    &&& a.offset == b.offset
    &&& (match (a.sort, b.sort) {
        (Option::None, Option::None) => true,
        (Option::Some(x), Option::Some(y)) => x.field@ == y.field@ && x.order == y.order,
        _ => false,
    })
    &&& a.filter_expression@.len() == b.filter_expression@.len()
    &&& forall|i: int|
        0 <= i < a.filter_expression@.len() ==> criterion_matches(
            #[trigger] a.filter_expression@[i],
            b.filter_expression@[i].operand_left@,
            b.filter_expression@[i].operator@,
            b.filter_expression@[i].operand_right@,
        )
}

/// The round trip of the editor: populating it from a query and confirming
/// without further edits yields that query back.  The query must ask for
/// the first page (confirmation always does), name a non-empty sort field
/// if it sorts, and carry at most as many criteria — each completely filled
/// in — as the editor has rows.
pub proof fn lemma_populate_confirm_round_trip(
    q: Query,
    after: Seq<FieldComponent>,
    r: Result<Query, FilterError>,
)
    requires
        q.wf(),
        q.offset == 0,
        q.filter_expression@.len() <= 2,
        forall|i: int|
            0 <= i < q.filter_expression@.len() ==> criteria_valid(
                (#[trigger] q.filter_expression@[i]).operand_left@,
                q.filter_expression@[i].operator@,
                q.filter_expression@[i].operand_right@,
            ),
        q.sort matches Some(st) ==> st.field@.len() > 0,
        set_query_values(after, q),
        parse_result(after, r),
    ensures
        r matches Ok(q2) && query_equiv(q2, q),
{
    lemma_filter_literals();
    crate::util::lemma_parse_format_u32(q.limit);
    assert(limit_ok(after));
    match q.sort {
        Some(st) => {
            assert(parse_sort_order(text_value(after[2])) == Some(st.order));
        },
        None => {
            assert(parse_sort_order(text_value(after[2])) == Some(SortOrder::Asc));
        },
    }
    assert(order_ok(after));
    let n = q.filter_expression@.len() as int;
    if n >= 1 {
        assert(criteria_valid(row_value(after[3], 0), row_value(after[3], 1), row_value(after[3], 2)));
    }
    if n >= 2 {
        assert(criteria_valid(row_value(after[4], 0), row_value(after[4], 1), row_value(after[4], 2)));
    }
    match r {
        Ok(q2) => {
            assert(q2.limit == q.limit);
            if n >= 1 {
                assert(criterion_matches(
                    q2.filter_expression@[0],
                    q.filter_expression@[0].operand_left@,
                    q.filter_expression@[0].operator@,
                    q.filter_expression@[0].operand_right@,
                ));
            }
            if n >= 2 {
                assert(criterion_matches(
                    q2.filter_expression@[1],
                    q.filter_expression@[1].operand_left@,
                    q.filter_expression@[1].operator@,
                    q.filter_expression@[1].operand_right@,
                ));
            }
            assert(query_equiv(q2, q));
        },
        Err(_) => {
            assert(false);
        },
    }
}

/// The field names of the editor are pairwise distinct, the two direction
/// tokens differ, and both are non-empty.
pub proof fn lemma_filter_literals()
    ensures
        "limit"@ != "sort_field"@,
        "limit"@ != "sort_order"@,
        "limit"@ != "filter_0"@,
        "limit"@ != "filter_1"@,
        "sort_field"@ != "sort_order"@,
        "sort_field"@ != "filter_0"@,
        "sort_field"@ != "filter_1"@,
        "sort_order"@ != "filter_0"@,
        "sort_order"@ != "filter_1"@,
        "filter_0"@ != "filter_1"@,
        "left_operand"@ != "operator"@,
        "left_operand"@ != "right_operand"@,
        "operator"@ != "right_operand"@,
        "ASC"@ != "DESC"@,
        "ASC"@.len() == 3,
        "DESC"@.len() == 4,
        "="@.len() == 1,
        ""@.len() == 0,
{
    reveal_strlit("limit");
    reveal_strlit("sort_field");
    reveal_strlit("sort_order");
    reveal_strlit("filter_0");
    reveal_strlit("filter_1");
    reveal_strlit("left_operand");
    reveal_strlit("operator");
    reveal_strlit("right_operand");
    reveal_strlit("ASC");
    reveal_strlit("DESC");
    reveal_strlit("=");
    reveal_strlit("");
    assert("limit"@.len() == 5);
    assert("sort_field"@.len() == 10);
    assert("sort_order"@.len() == 10);
    assert("filter_0"@.len() == 8);
    assert("filter_1"@.len() == 8);
    assert("left_operand"@.len() == 12);
    assert("operator"@.len() == 8);
    assert("right_operand"@.len() == 13);
    assert("ASC"@.len() != "DESC"@.len());
    assert("sort_field"@[5] != "sort_order"@[5]);
    assert("filter_0"@[7] != "filter_1"@[7]);
}

/// The query editor: the query it was last confirmed or populated with, the
/// form, and the validation error of the last rejected confirmation.
#[derive(Debug)]
pub struct Filter {
    pub query: Query,
    pub form: Form,
    pub error: Option<FilterError>,
}

impl Filter {
    /// The editor's invariant: a sound query, a sound form, and the fixed
    /// field layout.
    pub open spec fn wf(&self) -> bool {
        &&& self.query.wf()
        &&& self.form.wf()
        &&& filter_form_shape(self.form.fields@)
    }

    pub fn new(query: Query) -> (f: Filter)
        requires
            query.wf(),
        ensures
            f.wf(),
            f.query@ == query@,
            f.error is None,
            text_value(f.form.fields@[0]) == dec_digits(query.limit as nat),
            text_value(f.form.fields@[1]).len() == 0,
            text_value(f.form.fields@[2]) == "ASC"@,
    {
        let form = Self::form(&query);
        Filter { query, form, error: None }
    }

    /// Builds the editor's form for a query: the page-size field starts
    /// from the query's limit, the sort direction from ascending, the
    /// criterion rows empty but for their operator symbol.
    fn form(query: &Query) -> (f: Form)
        ensures
            f.wf(),
            filter_form_shape(f.fields@),
            f.selected == 0,
            !f.confirm_focus,
            f.confirm.armed,
            text_value(f.fields@[0]) == dec_digits(query.limit as nat),
            text_value(f.fields@[1]).len() == 0,
            text_value(f.fields@[2]) == "ASC"@,
            row_value(f.fields@[3], 0).len() == 0,
            row_value(f.fields@[3], 1) == "="@,
            row_value(f.fields@[3], 2).len() == 0,
            row_value(f.fields@[4], 0).len() == 0,
            row_value(f.fields@[4], 1) == "="@,
            row_value(f.fields@[4], 2).len() == 0,
    {
        proof {
            lemma_filter_literals();
        }
        let limit_field = TextField::builder().name("limit".to_owned()).label(
            "Limit".to_owned(),
        ).initial_value(format_u32(query.limit())).selected(true).build();
        let sort_field = TextField::builder().name("sort_field".to_owned()).label(
            "Sort Field".to_owned(),
        ).build();
        let sort_order = TextField::builder().name("sort_order".to_owned()).label(
            "Sort Order".to_owned(),
        ).initial_value("ASC".to_owned()).build();
        let filter_0 = Self::criterion_row("filter_0");
        let filter_1 = Self::criterion_row("filter_1");
        let f = Form::default().field(FieldComponent::Text(limit_field)).field(
            FieldComponent::Text(sort_field),
        ).field(FieldComponent::Text(sort_order)).field(FieldComponent::Row(filter_0)).field(
            FieldComponent::Row(filter_1),
        );
        proof {
            assert(filter_form_shape(f.fields@));
            assert(f.wf());
        }
        f
    }

    /// Moves the editor's query one page forward.
    pub fn next_page(&mut self)
        requires
            old(self).wf(),
            old(self).query.offset + old(self).query.limit <= u32::MAX,
        ensures
            final(self).wf(),
            final(self).query@ == (crate::query::QueryView {
                offset: (old(self).query.offset + old(self).query.limit) as u32,
                ..old(self).query@
            }),
            final(self).form == old(self).form,
            final(self).error == old(self).error,
    {
        let new_offset = self.query.offset() + self.query.limit();
        let q = self.query.to_builder().offset(new_offset).build();
        proof {
            vstd::arithmetic::div_mod::lemma_mod_multiples_vanish(
                1,
                old(self).query.offset as int,
                old(self).query.limit as int,
            );
        }
        self.query = q;
    }

    /// Moves the editor's query one page back.
    pub fn prev_page(&mut self)
        requires
            old(self).wf(),
            old(self).query.offset > 0,
        ensures
            final(self).wf(),
            final(self).query@ == (crate::query::QueryView {
                offset: (old(self).query.offset - old(self).query.limit) as u32,
                ..old(self).query@
            }),
            final(self).form == old(self).form,
            final(self).error == old(self).error,
    {
        proof {
            if old(self).query.offset < old(self).query.limit {
                vstd::arithmetic::div_mod::lemma_small_mod(
                    old(self).query.offset as nat,
                    old(self).query.limit as nat,
                );
            }
            vstd::arithmetic::div_mod::lemma_mod_multiples_vanish(
                -1,
                old(self).query.offset as int,
                old(self).query.limit as int,
            );
        }
        let new_offset = self.query.offset() - self.query.limit();
        let q = self.query.to_builder().offset(new_offset).build();
        self.query = q;
    }

    /// Reads one criterion row out of a field.  A plain text field carries
    /// no criterion.
    fn as_criteria(f: &FieldComponent) -> (r: Result<Criteria, FormError>)
        requires
            (f matches FieldComponent::Row(rf) ==> filter_row_shape(*rf)),
        ensures
            match f {
                FieldComponent::Row(rf) => r matches Ok(c) && c.field@ == rf.fields@[0].value@
                    && c.operator@ == rf.fields@[1].value@ && c.value@ == rf.fields@[2].value@,
                FieldComponent::Text(_) => r == Result::<Criteria, FormError>::Err(
                    FormError::ChangeMismatch,
                ),
            },
    {
        match f {
            FieldComponent::Row(rf) => {
                let field = rf.fields[0].value();
                let operator = rf.fields[1].value();
                let value = rf.fields[2].value();
                Ok(Criteria { field, operator, value })
            },
            FieldComponent::Text(_) => Err(FormError::ChangeMismatch),
        }
    }

    /// Parses the editor's fields into a query: the page size must be a
    /// positive number and the sort direction one of the two tokens; the
    /// sort applies only with a sort field given, and a criterion row only
    /// when completely filled in.  The parsed query always asks for the
    /// first page.
    pub fn parse_fields(fields: &Vec<FieldComponent>) -> (r: Result<Query, FilterError>)
        requires
            filter_form_shape(fields@),
        ensures
            parse_result(fields@, r),
    {
        let limit_str = match &fields[0] {
            FieldComponent::Text(t) => t.value(),
            FieldComponent::Row(_) => unreached(),
        };
        let sort_field_str = match &fields[1] {
            FieldComponent::Text(t) => t.value(),
            FieldComponent::Row(_) => unreached(),
        };
        let sort_order_str = match &fields[2] {
            FieldComponent::Text(t) => t.value(),
            FieldComponent::Row(_) => unreached(),
        };
        let sort_order = if str_eq(sort_order_str.as_str(), "ASC") {
            SortOrder::Asc
        } else if str_eq(sort_order_str.as_str(), "DESC") {
            SortOrder::Desc
        } else {
            return Err(FilterError::InvalidSortOrder);
        };
        let limit = match parse_u32(limit_str.as_str()) {
            Some(l) => if l > 0 {
                l
            } else {
                return Err(FilterError::InvalidLimit);
            },
            None => {
                return Err(FilterError::InvalidLimit);
            },
        };
        let mut builder = Query::builder().limit(limit);
        if !sort_field_str.as_str().is_empty() {
            builder = builder.sort(sort_field_str.as_str(), sort_order);
        }
        let filter_0 = match Self::as_criteria(&fields[3]) {
            Ok(c) => c,
            Err(_) => unreached(),
        };
        let filter_1 = match Self::as_criteria(&fields[4]) {
            Ok(c) => c,
            Err(_) => unreached(),
        };
        if filter_0.is_valid() {
            builder = builder.filter(
                filter_0.field.as_str(),
                filter_0.operator.as_str(),
                filter_0.value,
            );
        }
        if filter_1.is_valid() {
            builder = builder.filter(
                filter_1.field.as_str(),
                filter_1.operator.as_str(),
                filter_1.value,
            );
        }
        let q = builder.build();
        Ok(q)
    }

    /// Pre-populates the editor's fields from a query: its page size, its
    /// sort, and one criterion row per filter criterion.  Fields the query
    /// does not define are reset — the sort field empties, the direction
    /// falls back to ascending, unused criterion rows clear — so edits made
    /// and then abandoned never leak into a later confirmation.  The editor
    /// has two criterion rows; a query with more criteria than rows is
    /// rejected.
    pub fn set_query(&mut self, query: Query) -> (r: Result<(), FormError>)
        requires
            old(self).wf(),
            query.wf(),
        ensures
            final(self).wf(),
            final(self).query@ == old(self).query@,
            final(self).error == old(self).error,
            query.filter_expression@.len() <= 2 ==> r is Ok && set_query_values(
                final(self).form.fields@,
                query,
            ),
            query.filter_expression@.len() > 2 ==> r == Result::<(), FormError>::Err(
                FormError::FieldNotFound,
            ),
    {
        proof {
            lemma_filter_literals();
        }
        let ghost g0 = self.form.fields@;
        let limit_string = format_u32(query.limit());
        let limit_change = ChangeSet::single(limit_string.as_str());
        let ghost ch_limit = limit_change;
        let r1 = self.form.change_field("limit", limit_change);
        proof {
            assert(field_name(g0[1]) != "limit"@ && field_name(g0[2]) != "limit"@ && field_name(
                g0[3],
            ) != "limit"@ && field_name(g0[4]) != "limit"@);
            assert(r1 is Ok);
            assert(field_changed(g0[0], self.form.fields@[0], ch_limit));
            assert(self.form.fields@[1] == g0[1] && self.form.fields@[2] == g0[2]
                && self.form.fields@[3] == g0[3] && self.form.fields@[4] == g0[4]);
            assert(filter_form_shape(self.form.fields@));
        }
        let ghost g1 = self.form.fields@;
        match self.query_sort_tokens(&query) {
            Some((field_value, order_token)) => {
                let field_change = ChangeSet::single(field_value.as_str());
                let ghost ch_field = field_change;
                let r2 = self.form.change_field("sort_field", field_change);
                proof {
                    assert(field_name(g1[0]) != "sort_field"@ && field_name(g1[2]) != "sort_field"@
                        && field_name(g1[3]) != "sort_field"@ && field_name(g1[4])
                        != "sort_field"@);
                    assert(r2 is Ok);
                    assert(field_changed(g1[1], self.form.fields@[1], ch_field));
                    assert(self.form.fields@[0] == g1[0] && self.form.fields@[2] == g1[2]
                        && self.form.fields@[3] == g1[3] && self.form.fields@[4] == g1[4]);
                    assert(filter_form_shape(self.form.fields@));
                }
                let ghost g2 = self.form.fields@;
                let order_change = ChangeSet::single(order_token);
                let ghost ch_order = order_change;
                let r3 = self.form.change_field("sort_order", order_change);
                proof {
                    assert(field_name(g2[0]) != "sort_order"@ && field_name(g2[1]) != "sort_order"@
                        && field_name(g2[3]) != "sort_order"@ && field_name(g2[4])
                        != "sort_order"@);
                    assert(r3 is Ok);
                    assert(field_changed(g2[2], self.form.fields@[2], ch_order));
                    assert(self.form.fields@[0] == g2[0] && self.form.fields@[1] == g2[1]
                        && self.form.fields@[3] == g2[3] && self.form.fields@[4] == g2[4]);
                    assert(filter_form_shape(self.form.fields@));
                }
            },
            None => {
                let field_change = ChangeSet::single("");
                let ghost ch_field = field_change;
                let r2 = self.form.change_field("sort_field", field_change);
                proof {
                    assert(field_name(g1[0]) != "sort_field"@ && field_name(g1[2]) != "sort_field"@
                        && field_name(g1[3]) != "sort_field"@ && field_name(g1[4])
                        != "sort_field"@);
                    assert(r2 is Ok);
                    assert(field_changed(g1[1], self.form.fields@[1], ch_field));
                    assert(self.form.fields@[0] == g1[0] && self.form.fields@[2] == g1[2]
                        && self.form.fields@[3] == g1[3] && self.form.fields@[4] == g1[4]);
                    assert(filter_form_shape(self.form.fields@));
                }
                let ghost g2 = self.form.fields@;
                let order_change = ChangeSet::single("ASC");
                let ghost ch_order = order_change;
                let r3 = self.form.change_field("sort_order", order_change);
                proof {
                    assert(field_name(g2[0]) != "sort_order"@ && field_name(g2[1]) != "sort_order"@
                        && field_name(g2[3]) != "sort_order"@ && field_name(g2[4])
                        != "sort_order"@);
                    assert(r3 is Ok);
                    assert(field_changed(g2[2], self.form.fields@[2], ch_order));
                    assert(self.form.fields@[0] == g2[0] && self.form.fields@[1] == g2[1]
                        && self.form.fields@[3] == g2[3] && self.form.fields@[4] == g2[4]);
                    assert(filter_form_shape(self.form.fields@));
                }
            },
        }
        let ghost g3 = self.form.fields@;
        if self.write_criterion_rows(&query).is_err() {
            return Err(FormError::FieldNotFound);
        }
        proof {
            assert(text_value(self.form.fields@[0]) == dec_digits(query.limit as nat));
            assert(set_query_values(self.form.fields@, query));
        }
        Ok(())
    }

    /// The sort field's value and the direction token of a query's sort, if
    /// it has one.
    fn query_sort_tokens(&self, query: &Query) -> (r: Option<(String, &'static str)>)
        ensures
            match query.sort {
                Some(st) => r matches Some(p) && p.0@ == st.field@ && p.1@ == sort_order_token(
                    st.order,
                ),
                None => r is None,
            },
    {
        match query.sort() {
            Some(s) => {
                let field_value = s.field().to_owned();
                let token: &'static str = match s.order() {
                    SortOrder::Asc => "ASC",
                    SortOrder::Desc => "DESC",
                };
                Some((field_value, token))
            },
            None => None,
        }
    }

    /// Writes the query's criteria into the editor's two rows, resetting
    /// the rows the query has no criterion for; a query with more criteria
    /// than rows is rejected.
    fn write_criterion_rows(&mut self, query: &Query) -> (r: Result<(), FormError>)
        requires
            old(self).wf(),
        ensures
            final(self).wf(),
            final(self).query == old(self).query,
            final(self).error == old(self).error,
            r is Ok <==> query.filter_expression@.len() <= 2,
            r is Err ==> r == Result::<(), FormError>::Err(FormError::FieldNotFound),
            final(self).form.fields@[0] == old(self).form.fields@[0],
            final(self).form.fields@[1] == old(self).form.fields@[1],
            final(self).form.fields@[2] == old(self).form.fields@[2],
            query.filter_expression@.len() >= 1 ==> criterion_matches(
                query.filter_expression@[0],
                row_value(final(self).form.fields@[3], 0),
                row_value(final(self).form.fields@[3], 1),
                row_value(final(self).form.fields@[3], 2),
            ),
            query.filter_expression@.len() < 1 ==> row_cleared(final(self).form.fields@[3]),
            query.filter_expression@.len() >= 2 ==> criterion_matches(
                query.filter_expression@[1],
                row_value(final(self).form.fields@[4], 0),
                row_value(final(self).form.fields@[4], 1),
                row_value(final(self).form.fields@[4], 2),
            ),
            query.filter_expression@.len() < 2 ==> row_cleared(final(self).form.fields@[4]),
    {
        proof {
            lemma_filter_literals();
        }
        let ghost g0 = self.form.fields@;
        let n = query.filter_expression().len();
        let change = if n >= 1 {
            Self::criterion_change(&query.filter_expression()[0])
        } else {
            Self::cleared_row_change()
        };
        let ghost ch = change;
        let r1 = self.form.change_field("filter_0", change);
        proof {
            assert(field_name(g0[0]) != "filter_0"@ && field_name(g0[1]) != "filter_0"@
                && field_name(g0[2]) != "filter_0"@ && field_name(g0[4]) != "filter_0"@);
            assert(g0[3] matches FieldComponent::Row(rf) && name_found(
                rf.fields@,
                "left_operand"@,
            ) && name_found(rf.fields@, "operator"@) && name_found(
                rf.fields@,
                "right_operand"@,
            )) by {
                let rf = g0[3]->Row_0;
                assert(rf.fields@[0].name@ == "left_operand"@);
                assert(rf.fields@[1].name@ == "operator"@);
                assert(rf.fields@[2].name@ == "right_operand"@);
            }
            assert(r1 is Ok);
            assert(self.form.fields@[0] == g0[0] && self.form.fields@[1] == g0[1]
                && self.form.fields@[2] == g0[2] && self.form.fields@[4] == g0[4]);
            assert(field_changed(g0[3], self.form.fields@[3], ch));
            let rf = g0[3]->Row_0;
            let nr = self.form.fields@[3]->Row_0;
            let vals = ch->Row_0;
            assert(row_values_updated(rf, nr, vals@));
            assert(text_with_value(rf.fields@[0], nr.fields@[0], vals@[0].1@));
            assert(text_with_value(rf.fields@[1], nr.fields@[1], vals@[1].1@));
            assert(text_with_value(rf.fields@[2], nr.fields@[2], vals@[2].1@));
            assert(filter_form_shape(self.form.fields@));
        }
        let ghost g1 = self.form.fields@;
        let change = if n >= 2 {
            Self::criterion_change(&query.filter_expression()[1])
        } else {
            Self::cleared_row_change()
        };
        let ghost ch = change;
        let r2 = self.form.change_field("filter_1", change);
        proof {
            assert(field_name(g1[0]) != "filter_1"@ && field_name(g1[1]) != "filter_1"@
                && field_name(g1[2]) != "filter_1"@ && field_name(g1[3]) != "filter_1"@);
            assert(g1[4] matches FieldComponent::Row(rf) && name_found(
                rf.fields@,
                "left_operand"@,
            ) && name_found(rf.fields@, "operator"@) && name_found(
                rf.fields@,
                "right_operand"@,
            )) by {
                let rf = g1[4]->Row_0;
                assert(rf.fields@[0].name@ == "left_operand"@);
                assert(rf.fields@[1].name@ == "operator"@);
                assert(rf.fields@[2].name@ == "right_operand"@);
            }
            assert(r2 is Ok);
            assert(self.form.fields@[0] == g1[0] && self.form.fields@[1] == g1[1]
                && self.form.fields@[2] == g1[2] && self.form.fields@[3] == g1[3]);
            assert(field_changed(g1[4], self.form.fields@[4], ch));
            let rf = g1[4]->Row_0;
            let nr = self.form.fields@[4]->Row_0;
            let vals = ch->Row_0;
            assert(row_values_updated(rf, nr, vals@));
            assert(text_with_value(rf.fields@[0], nr.fields@[0], vals@[0].1@));
            assert(text_with_value(rf.fields@[1], nr.fields@[1], vals@[1].1@));
            assert(text_with_value(rf.fields@[2], nr.fields@[2], vals@[2].1@));
            assert(filter_form_shape(self.form.fields@));
        }
        if n > 2 {
            return Err(FormError::FieldNotFound);
        }
        Ok(())
    }

    /// The by-name change that resets a criterion row.
    fn cleared_row_change() -> (r: ChangeSet)
        ensures
            r matches ChangeSet::Row(vals) && vals@.len() == 3 && vals@[0].0@ == "left_operand"@
                && vals@[0].1@.len() == 0 && vals@[1].0@ == "operator"@ && vals@[1].1@ == "="@
                && vals@[2].0@ == "right_operand"@ && vals@[2].1@.len() == 0,
            change_wf(r),
    {
        let mut vals: Vec<(String, String)> = Vec::new();
        vals.push((String::from_str("left_operand"), String::new()));
        vals.push((String::from_str("operator"), String::from_str("=")));
        vals.push((String::from_str("right_operand"), String::new()));
        proof {
            lemma_filter_literals();
        }
        ChangeSet::Row(vals)
    }

    /// The by-name change that writes one criterion into a row.
    fn criterion_change(c: &Criterion) -> (r: ChangeSet)
        ensures
            r matches ChangeSet::Row(vals) && vals@.len() == 3 && vals@[0].0@ == "left_operand"@
                && vals@[0].1@ == c.operand_left@ && vals@[1].0@ == "operator"@ && vals@[1].1@
                == c.operator@ && vals@[2].0@ == "right_operand"@ && vals@[2].1@
                == c.operand_right@,
            change_wf(r),
    {
        let mut vals: Vec<(String, String)> = Vec::new();
        vals.push((String::from_str("left_operand"), c.operand_left().to_owned()));
        vals.push((String::from_str("operator"), c.operator().to_owned()));
        vals.push((String::from_str("right_operand"), c.operand_right().to_owned()));
        proof {
            lemma_filter_literals();
        }
        ChangeSet::Row(vals)
    }

    /// The validation error of the last rejected confirmation, if any.
    pub fn error(&self) -> (r: Option<FilterError>)
        ensures
            r == self.error,
    {
        self.error
    }

    /// Processes one editor message.  A form message reaches the form; the
    /// confirm click parses the fields: a sound query is adopted and
    /// emitted outward, a validation failure is retained locally and
    /// nothing leaves the editor.
    pub fn update(&mut self, msg: FilterMsg) -> (r: ComponentReturn<FilterMsg, ()>)
        requires
            old(self).wf(),
            msg matches FilterMsg::Local(FilterLocalMsg::FilterForm(FilterFormMsg::Changed(q)))
                ==> q.wf(),
        ensures
            final(self).wf(),
            r.cmds@ == Seq::<()>::empty(),
            r.actions@ == Seq::<crate::components::Action>::empty(),
            match msg {
                FilterMsg::Local(FilterLocalMsg::Form(fm)) => {
                    if fm == FormMsg::Local(FormLocalMsg::Submit) {
                        &&& final(self).form == old(self).form
                        &&& if parse_ok(old(self).form.fields@) {
                            &&& final(self).error is None
                            &&& r.msgs@.len() == 1
                            &&& (r.msgs@[0] matches FilterMsg::Outer(q) && parse_result(
                                old(self).form.fields@,
                                Ok(q),
                            ) && final(self).query@ == q@)
                        } else {
                            &&& final(self).query@ == old(self).query@
                            &&& r.msgs@ == Seq::<FilterMsg>::empty()
                            &&& (final(self).error matches Some(e) && parse_result(
                                old(self).form.fields@,
                                Err(e),
                            ))
                        }
                    } else {
                        &&& final(self).query@ == old(self).query@
                        &&& final(self).error == old(self).error
                        &&& r.msgs@ == Seq::<FilterMsg>::empty()
                    }
                },
                FilterMsg::Local(FilterLocalMsg::FilterForm(FilterFormMsg::Changed(q))) => {
                    &&& final(self).query@ == q@
                    &&& final(self).form == old(self).form
                    &&& final(self).error is None
                    &&& r.msgs@.len() == 1
                    &&& (r.msgs@[0] matches FilterMsg::Outer(q2) && q2@ == q@)
                },
                FilterMsg::Outer(_) => *final(self) == *old(self) && r.msgs@ == Seq::<
                    FilterMsg,
                >::empty(),
            },
    {
        match msg {
            FilterMsg::Local(FilterLocalMsg::Form(fm)) => {
                let is_submit = match fm {
                    FormMsg::Local(FormLocalMsg::Submit) => true,
                    _ => false,
                };
                if is_submit {
                    match Self::parse_fields(self.form.fields()) {
                        Ok(q) => {
                            self.error = None;
                            let outgoing = q.clone();
                            self.query = q;
                            ComponentReturn::msg(FilterMsg::Outer(outgoing))
                        },
                        Err(e) => {
                            self.error = Some(e);
                            ComponentReturn::empty()
                        },
                    }
                } else {
                    self.form.update(fm);
                    proof {
                        assert(filter_form_shape(self.form.fields@)) by {
                            match fm {
                                FormMsg::Local(FormLocalMsg::MoveUp)
                                | FormMsg::Local(FormLocalMsg::MoveDown) => {
                                    assert(crate::widgets::form::field_kept_values(
                                        old(self).form.fields@[0],
                                        self.form.fields@[0],
                                    ));
                                    assert(crate::widgets::form::field_kept_values(
                                        old(self).form.fields@[1],
                                        self.form.fields@[1],
                                    ));
                                    assert(crate::widgets::form::field_kept_values(
                                        old(self).form.fields@[2],
                                        self.form.fields@[2],
                                    ));
                                    assert(crate::widgets::form::field_kept_values(
                                        old(self).form.fields@[3],
                                        self.form.fields@[3],
                                    ));
                                    assert(crate::widgets::form::field_kept_values(
                                        old(self).form.fields@[4],
                                        self.form.fields@[4],
                                    ));
                                },
                                FormMsg::Local(FormLocalMsg::FieldMsg(_)) => {
                                    let sel = old(self).form.selected as int;
                                    assert(forall|j: int|
                                        0 <= j < 5 && j != sel ==> self.form.fields@[j]
                                            == #[trigger] old(self).form.fields@[j]);
                                },
                                _ => {},
                            }
                        }
                    }
                    ComponentReturn::empty()
                }
            },
            FilterMsg::Local(FilterLocalMsg::FilterForm(FilterFormMsg::Changed(q))) => {
                self.error = None;
                let outgoing = q.clone();
                self.query = q;
                ComponentReturn::msg(FilterMsg::Outer(outgoing))
            },
            FilterMsg::Outer(_) => ComponentReturn::empty(),
        }
    }

    /// Turns a key press into editor messages: every one of them a form
    /// message for the editor's own form.
    pub fn handle_event(&self, evt: ComponentEvent) -> (msgs: Vec<FilterMsg>)
        requires
            self.wf(),
        ensures
            match evt {
                ComponentEvent::Key(key) => msgs@ == crate::widgets::form::form_key_msgs(
                    self.form,
                    key,
                ).map_values(|m: FormMsg| FilterMsg::Local(FilterLocalMsg::Form(m))),
            },
    {
        match evt {
            ComponentEvent::Key(key) => {
                let fmsgs = self.form.handle_key(key);
                let mut msgs: Vec<FilterMsg> = Vec::new();
                let mut i: usize = 0;
                #[verifier::loop_isolation(false)]
                while i < fmsgs.len()
                    invariant
                        i <= fmsgs@.len(),
                        msgs@.len() == i,
                        forall|k: int|
                            0 <= k < i ==> #[trigger] msgs@[k] == FilterMsg::Local(
                                FilterLocalMsg::Form(fmsgs@[k]),
                            ),
                    decreases fmsgs@.len() - i,
                {
                    msgs.push(FilterMsg::Local(FilterLocalMsg::Form(fmsgs[i])));
                    i = i + 1;
                }
                proof {
                    assert(msgs@ =~= fmsgs@.map_values(
                        |m: FormMsg| FilterMsg::Local(FilterLocalMsg::Form(m)),
                    ));
                }
                msgs
            },
        }
    }

    /// One empty criterion row, its operator prefilled with equality.
    fn criterion_row(name: &str) -> (r: RowField)
        ensures
            r.name@ == name@,
            filter_row_shape(r),
            !r.selected,
            r.selected_idx == 0,
            r.wf(),
            r.fields@[0].value@.len() == 0,
            r.fields@[1].value@ == "="@,
            r.fields@[2].value@.len() == 0,
            forall|j: int| 0 <= j < 3 ==> !r.fields@[j].selected,
    {
        proof {
            lemma_filter_literals();
        }
        let r = RowField::default().name(name).field(
            TextField::builder().name("left_operand".to_owned()).label(
                "LeftOperand".to_owned(),
            ).build(),
        ).field(
            TextField::builder().name("operator".to_owned()).label("Operator".to_owned())
                .initial_value("=".to_owned()).build(),
        ).field(
            TextField::builder().name("right_operand".to_owned()).label(
                "RightOperand".to_owned(),
            ).build(),
        );
        r
    }
}

} // verus!
