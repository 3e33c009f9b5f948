//! A fixed-arity row of text fields sharing one line of the form, with its
//! own left/right focus chain.

use vstd::prelude::*;

use crate::components::ComponentReturn;
use crate::input::{ComponentEvent, KeyCode, KeyEvent, KeyModifiers};
use crate::util::str_eq;
use crate::widgets::form::msg::FormError;
use crate::widgets::form::text::{text_with_value, TextField, TextFieldMsg};

verus! {

broadcast use vstd::std_specs::vec::axiom_spec_len;

/// A message of a row: focus movement between its fields, or a key for the
/// focused field.
#[derive(Clone, Copy, PartialEq, Eq, Structural, Debug)]
pub enum RowMsg {
    MoveRight,
    MoveLeft,
    FieldMsg(TextFieldMsg),
}

/// Some field of the row carries the given name.
pub open spec fn name_found(fields: Seq<TextField>, name: Seq<char>) -> bool {
    exists|j: int| 0 <= j < fields.len() && #[trigger] fields[j].name@ == name
}

/// The same text field with another focus flag.
pub open spec fn text_same_but_selected(old: TextField, new: TextField) -> bool {
    &&& new.label == old.label
    &&& new.name == old.name
    &&& new.initial_value == old.initial_value
    &&& new.value == old.value
}

/// How a successful by-name value replacement relates a row before and
/// after: structure and focus are kept, every field named by a pair carries
/// that pair's value, and every other field is untouched.
pub open spec fn row_values_updated(old: RowField, new: RowField, values: Seq<(String, String)>) -> bool {
    &&& new.name == old.name
    &&& new.selected == old.selected
    &&& new.selected_idx == old.selected_idx
    &&& new.fields@.len() == old.fields@.len()
    &&& forall|j: int|
        0 <= j < old.fields@.len() ==> new.fields@[j].name@ == #[trigger] old.fields@[j].name@
    &&& forall|j: int, p: int|
        0 <= j < old.fields@.len() && 0 <= p < values.len() && old.fields@[j].name@
            == values[p].0@ ==> text_with_value(
            #[trigger] old.fields@[j],
            new.fields@[j],
            #[trigger] values[p].1@,
        )
    &&& forall|j: int|
        0 <= j < old.fields@.len() && (forall|p: int|
            0 <= p < values.len() ==> #[trigger] values[p].0@ != old.fields@[j].name@)
            ==> new.fields@[j] == #[trigger] old.fields@[j]
}

/// The position of the first value pair whose name no field carries, or
/// the number of pairs when every name is found.
pub open spec fn first_missing(fields: Seq<TextField>, values: Seq<(String, String)>) -> int
    decreases values.len(),
{
    if values.len() == 0 {
        0
    } else if !name_found(fields, values[0].0@) {
        0
    } else {
        1 + first_missing(fields, values.drop_first())
    }
}

/// Computes `first_missing` from what is known of each pair.
proof fn lemma_first_missing(fields: Seq<TextField>, values: Seq<(String, String)>, k: int)
    requires
        0 <= k <= values.len(),
        forall|p: int| 0 <= p < k ==> name_found(fields, #[trigger] values[p].0@),
        k < values.len() ==> !name_found(fields, values[k].0@),
    ensures
        first_missing(fields, values) == k,
    decreases values.len(),
{
    if values.len() == 0 {
    } else if k == 0 {
    } else {
        let rest = values.drop_first();
        assert forall|p: int| 0 <= p < k - 1 implies name_found(fields, #[trigger] rest[p].0@) by {
            assert(rest[p] == values[p + 1]);
        }
        if k - 1 < rest.len() {
            assert(rest[k - 1] == values[k]);
        }
        lemma_first_missing(fields, rest, k - 1);
    }
}

/// Where `first_missing` points: at a pair in range whose name no field
/// carries, with every earlier name found — or one past the end when every
/// name is found.
pub proof fn lemma_first_missing_bounds(fields: Seq<TextField>, values: Seq<(String, String)>)
    ensures
        0 <= first_missing(fields, values) <= values.len(),
        forall|p: int|
            0 <= p < first_missing(fields, values) ==> name_found(fields, #[trigger] values[p].0@),
        first_missing(fields, values) < values.len() ==> !name_found(
            fields,
            values[first_missing(fields, values)].0@,
        ),
    decreases values.len(),
{
    if values.len() == 0 {
    } else if !name_found(fields, values[0].0@) {
    } else {
        let rest = values.drop_first();
        lemma_first_missing_bounds(fields, rest);
        assert forall|p: int|
            0 <= p < first_missing(fields, values) implies name_found(
            fields,
            #[trigger] values[p].0@,
        ) by {
            if p > 0 {
                assert(rest[p - 1] == values[p]);
                assert(name_found(fields, rest[p - 1].0@));
            }
        }
        if first_missing(fields, values) < values.len() {
            assert(rest[first_missing(fields, rest)] == values[first_missing(fields, values)]);
        }
    }
}

/// Assembles the by-name update relation for the first `k` pairs from the
/// pointwise facts an in-order application maintains.
proof fn lemma_row_partially_updated(
    pre: RowField,
    cur: RowField,
    values: Seq<(String, String)>,
    k: int,
)
    requires
        0 <= k <= values.len(),
        cur.name == pre.name,
        cur.selected == pre.selected,
        cur.selected_idx == pre.selected_idx,
        cur.fields@.len() == pre.fields@.len(),
        forall|jj: int|
            0 <= jj < pre.fields@.len() ==> #[trigger] cur.fields@[jj].name@
                == pre.fields@[jj].name@,
        forall|jj: int, pp: int|
            0 <= jj < pre.fields@.len() && 0 <= pp < k && pre.fields@[jj].name@
                == values[pp].0@ ==> text_with_value(
                #[trigger] pre.fields@[jj],
                cur.fields@[jj],
                #[trigger] values[pp].1@,
            ),
        forall|jj: int|
            0 <= jj < pre.fields@.len() && (forall|pp: int|
                0 <= pp < k ==> #[trigger] values[pp].0@ != pre.fields@[jj].name@)
                ==> cur.fields@[jj] == #[trigger] pre.fields@[jj],
    ensures
        row_values_updated(pre, cur, values.subrange(0, k)),
{
    let sub = values.subrange(0, k);
    assert forall|jj: int, pp: int|
        0 <= jj < pre.fields@.len() && 0 <= pp < sub.len() && pre.fields@[jj].name@
            == sub[pp].0@ implies text_with_value(
        #[trigger] pre.fields@[jj],
        cur.fields@[jj],
        #[trigger] sub[pp].1@,
    ) by {
        assert(sub[pp] == values[pp]);
        assert(text_with_value(pre.fields@[jj], cur.fields@[jj], values[pp].1@));
    }
    assert forall|jj: int|
        0 <= jj < pre.fields@.len() && (forall|pp: int|
            0 <= pp < sub.len() ==> #[trigger] sub[pp].0@ != pre.fields@[jj].name@)
            implies cur.fields@[jj] == #[trigger] pre.fields@[jj] by {
        assert forall|pp: int|
            0 <= pp < k implies #[trigger] values[pp].0@ != pre.fields@[jj].name@ by {
            assert(sub[pp] == values[pp]);
            assert(sub[pp].0@ != pre.fields@[jj].name@);
        }
    }
}

/// A named row of text fields, one of which carries the focus whenever the
/// row itself does.
#[derive(Debug)]
pub struct RowField {
    pub name: String,
    pub fields: Vec<TextField>,
    pub selected: bool,
    pub selected_idx: usize,
}

impl RowField {
    /// The focus invariant of the row: the focus index points at a field
    /// (or at zero while the row is still empty), and exactly the indexed
    /// field carries the focus flag, exactly while the row does.
    pub open spec fn wf(&self) -> bool {
        &&& if self.fields@.len() == 0 {
            self.selected_idx == 0
        } else {
            self.selected_idx < self.fields@.len()
        }
        &&& forall|j: int|
            0 <= j < self.fields@.len() ==> (#[trigger] self.fields@[j].selected <==> (self.selected
                && j == self.selected_idx))
        &&& forall|j1: int, j2: int|
            0 <= j1 < j2 < self.fields@.len() ==> #[trigger] self.fields@[j1].name@
                != #[trigger] self.fields@[j2].name@
    }

    /// Distinct field names survive any change that keeps every field's
    /// name.
    proof fn lemma_names_distinct(old_fields: Seq<TextField>, new_fields: Seq<TextField>)
        requires
            new_fields.len() == old_fields.len(),
            forall|j: int|
                0 <= j < old_fields.len() ==> new_fields[j].name@ == #[trigger] old_fields[j].name@,
            forall|j1: int, j2: int|
                0 <= j1 < j2 < old_fields.len() ==> #[trigger] old_fields[j1].name@
                    != #[trigger] old_fields[j2].name@,
        ensures
            forall|j1: int, j2: int|
                0 <= j1 < j2 < new_fields.len() ==> #[trigger] new_fields[j1].name@
                    != #[trigger] new_fields[j2].name@,
    {
        assert forall|j1: int, j2: int|
            0 <= j1 < j2 < new_fields.len() implies #[trigger] new_fields[j1].name@
            != #[trigger] new_fields[j2].name@ by {
            assert(new_fields[j1].name@ == old_fields[j1].name@);
            assert(new_fields[j2].name@ == old_fields[j2].name@);
        }
    }

    /// Names a freshly built row.
    pub fn name(self, name: &str) -> (r: RowField)
        ensures
            r.name@ == name@,
            r.fields == self.fields,
            r.selected == self.selected,
            r.selected_idx == self.selected_idx,
    {
        RowField { name: name.to_owned(), ..self }
    }

    pub fn get_name(&self) -> (r: String)
        ensures
            r == self.name,
    {
        self.name.clone()
    }

    /// Appends one field while building the row.
    pub fn field(self, field: TextField) -> (r: RowField)
        ensures
            r.name == self.name,
            r.selected == self.selected,
            r.selected_idx == self.selected_idx,
            r.fields@ == self.fields@.push(field),
    {
        let RowField { name, mut fields, selected, selected_idx } = self;
        fields.push(field);
        RowField { name, fields, selected, selected_idx }
    }

    /// The fields' names and current values, in row order.
    pub fn as_map(&self) -> (r: Vec<(String, String)>)
        ensures
            r@.len() == self.fields@.len(),
            forall|j: int|
                0 <= j < r@.len() ==> #[trigger] r@[j] == (
                self.fields@[j].name,
                self.fields@[j].value,
                ),
    {
        let mut r: Vec<(String, String)> = Vec::new();
        let mut j: usize = 0;
        while j < self.fields.len()
            invariant
                j <= self.fields@.len(),
                r@.len() == j,
                forall|k: int|
                    0 <= k < j ==> #[trigger] r@[k] == (
                    self.fields@[k].name,
                    self.fields@[k].value,
                    ),
            decreases self.fields@.len() - j,
        {
            let f = &self.fields[j];
            r.push((f.name.clone(), f.value.clone()));
            j = j + 1;
        }
        r
    }

    fn set_field_selected(&mut self, i: usize, selected: bool)
        requires
            i < old(self).fields@.len(),
        ensures
            final(self).name == old(self).name,
            final(self).selected == old(self).selected,
            final(self).selected_idx == old(self).selected_idx,
            final(self).fields@ == old(self).fields@.update(
                i as int,
                (TextField { selected, ..old(self).fields@[i as int] }),
            ),
    {
        let f = &self.fields[i];
        let nf = TextField {
            label: f.label.clone(),
            name: f.name.clone(),
            initial_value: f.initial_value.clone(),
            value: f.value.clone(),
            selected,
        };
        self.fields.set(i, nf);
    }

    /// Gives the row (and with it its focused field) the focus, or takes it
    /// away.
    pub fn set_selected(&mut self, selected: bool)
        requires
            old(self).wf(),
        ensures
            final(self).name == old(self).name,
            final(self).selected == selected,
            final(self).selected_idx == old(self).selected_idx,
            final(self).fields@.len() == old(self).fields@.len(),
            forall|j: int|
                0 <= j < old(self).fields@.len() ==> text_same_but_selected(
                    #[trigger] old(self).fields@[j],
                    final(self).fields@[j],
                ),
            final(self).wf(),
    {
        self.selected = selected;
        if self.fields.len() > 0 {
            let idx = self.selected_idx;
            self.set_field_selected(idx, selected);
        }
    }

    /// Replaces field values by field name, applying the changes in order.
    /// A pair naming no field stops the application there: the earlier
    /// changes stay applied and the call reports the missing field.
    pub fn set_values(&mut self, values: Vec<(String, String)>) -> (r: Result<(), FormError>)
        requires
            old(self).wf(),
            forall|p1: int, p2: int|
                0 <= p1 < p2 < values@.len() ==> #[trigger] values@[p1].0@ != #[trigger] values@[p2].0@,
        ensures
            final(self).wf(),
            r is Ok <==> first_missing(old(self).fields@, values@) == values@.len(),
            r is Err ==> r == Result::<(), FormError>::Err(FormError::FieldNotFound),
            row_values_updated(
                *old(self),
                *final(self),
                values@.subrange(0, first_missing(old(self).fields@, values@)),
            ),
    {
        let ghost old_fields = old(self).fields@;
        let mut p: usize = 0;
        #[verifier::loop_isolation(false)]
        while p < values.len()
            invariant
                p <= values@.len(),
                self.name == old(self).name,
                self.selected == old(self).selected,
                self.selected_idx == old(self).selected_idx,
                self.fields@.len() == old_fields.len(),
                forall|jj: int|
                    0 <= jj < old_fields.len() ==> #[trigger] self.fields@[jj].name@
                        == old_fields[jj].name@,
                forall|jj: int|
                    0 <= jj < old_fields.len() ==> #[trigger] self.fields@[jj].selected
                        == old_fields[jj].selected,
                forall|q: int| 0 <= q < p ==> name_found(old_fields, #[trigger] values@[q].0@),
                forall|jj: int, pp: int|
                    0 <= jj < old_fields.len() && 0 <= pp < p && old_fields[jj].name@
                        == values@[pp].0@ ==> text_with_value(
                        #[trigger] old_fields[jj],
                        self.fields@[jj],
                        #[trigger] values@[pp].1@,
                    ),
                forall|jj: int|
                    0 <= jj < old_fields.len() && (forall|pp: int|
                        0 <= pp < p ==> #[trigger] values@[pp].0@ != old_fields[jj].name@)
                        ==> self.fields@[jj] == #[trigger] old_fields[jj],
            decreases values@.len() - p,
        {
            let ghost k = p as int;
            let ghost pre_fields = self.fields@;
            match find_text_index(&self.fields, values[p].0.as_str()) {
                None => {
                    proof {
                        assert(!name_found(old_fields, values@[k].0@)) by {
                            if name_found(old_fields, values@[k].0@) {
                                let jw = choose|jw: int|
                                    0 <= jw < old_fields.len() && #[trigger] old_fields[jw].name@
                                        == values@[k].0@;
                                assert(self.fields@[jw].name@ == values@[k].0@);
                            }
                        }
                        lemma_first_missing(old_fields, values@, k);
                        lemma_row_partially_updated(*old(self), *self, values@, k);
                        Self::lemma_names_distinct(old_fields, self.fields@);
                        assert(self.wf());
                    }
                    return Err(FormError::FieldNotFound);
                },
                Some(j) => {
                    let new_value = values[p].1.clone();
                    let f = &self.fields[j];
                    let nf = TextField {
                        label: f.label.clone(),
                        name: f.name.clone(),
                        initial_value: f.initial_value.clone(),
                        value: new_value,
                        selected: f.selected,
                    };
                    self.fields.set(j, nf);
                    proof {
                        assert(name_found(old_fields, values@[k].0@)) by {
                            assert(old_fields[j as int].name@ == values@[k].0@);
                        }
                        assert(pre_fields[j as int] == old_fields[j as int]) by {
                            assert(forall|pp: int|
                                0 <= pp < k ==> #[trigger] values@[pp].0@
                                    != old_fields[j as int].name@);
                        }
                        assert(text_with_value(
                            old_fields[j as int],
                            self.fields@[j as int],
                            values@[k].1@,
                        ));
                        assert forall|jj: int, pp: int|
                            0 <= jj < old_fields.len() && 0 <= pp < k + 1 && old_fields[jj].name@
                                == values@[pp].0@ implies text_with_value(
                            #[trigger] old_fields[jj],
                            self.fields@[jj],
                            #[trigger] values@[pp].1@,
                        ) by {
                            if pp == k {
                                assert(jj == j as int);
                            } else {
                                assert(values@[pp].0@ != values@[k].0@);
                                assert(jj != j as int);
                                assert(self.fields@[jj] == pre_fields[jj]);
                                assert(text_with_value(
                                    old_fields[jj],
                                    pre_fields[jj],
                                    values@[pp].1@,
                                ));
                            }
                        }
                        assert forall|jj: int|
                            0 <= jj < old_fields.len() && (forall|pp: int|
                                0 <= pp < k + 1 ==> #[trigger] values@[pp].0@
                                    != old_fields[jj].name@) implies self.fields@[jj]
                            == #[trigger] old_fields[jj] by {
                            assert(values@[k].0@ != old_fields[jj].name@);
                            assert(jj != j as int);
                            assert(self.fields@[jj] == pre_fields[jj]);
                        }
                    }
                },
            }
            p = p + 1;
        }
        proof {
            lemma_first_missing(old_fields, values@, values@.len() as int);
            lemma_row_partially_updated(*old(self), *self, values@, values@.len() as int);
            Self::lemma_names_distinct(old_fields, self.fields@);
            assert(self.wf());
        }
        Ok(())
    }

    fn move_left(&mut self)
        requires
            old(self).wf(),
        ensures
            final(self).name == old(self).name,
            final(self).selected == old(self).selected,
            final(self).fields@.len() == old(self).fields@.len(),
            forall|j: int|
                0 <= j < old(self).fields@.len() ==> text_same_but_selected(
                    #[trigger] old(self).fields@[j],
                    final(self).fields@[j],
                ),
            final(self).selected_idx == (if old(self).selected_idx > 0 {
                (old(self).selected_idx - 1) as usize
            } else {
                old(self).selected_idx
            }),
            final(self).wf(),
    {
        if self.fields.len() == 0 {
            return;
        }
        if self.selected_idx != 0 {
            let idx = self.selected_idx;
            let sel = self.selected;
            self.set_field_selected(idx, false);
            self.selected_idx = idx - 1;
            self.set_field_selected(idx - 1, sel);
        }
    }

    fn move_right(&mut self)
        requires
            old(self).wf(),
        ensures
            final(self).name == old(self).name,
            final(self).selected == old(self).selected,
            final(self).fields@.len() == old(self).fields@.len(),
            forall|j: int|
                0 <= j < old(self).fields@.len() ==> text_same_but_selected(
                    #[trigger] old(self).fields@[j],
                    final(self).fields@[j],
                ),
            final(self).selected_idx == (if old(self).selected_idx + 1 < old(
                self,
            ).fields@.len() {
                (old(self).selected_idx + 1) as usize
            } else {
                old(self).selected_idx
            }),
            final(self).wf(),
    {
        if self.fields.len() == 0 {
            return;
        }
        let len = self.fields.len() - 1;
        if self.selected_idx != len {
            let idx = self.selected_idx;
            let sel = self.selected;
            self.set_field_selected(idx, false);
            self.selected_idx = idx + 1;
            self.set_field_selected(idx + 1, sel);
        }
    }

    /// Processes one row message: focus moves stay inside the row, a field
    /// message reaches the focused field.
    pub fn update(&mut self, msg: RowMsg) -> (r: ComponentReturn<RowMsg, ()>)
        requires
            old(self).wf(),
        ensures
            final(self).wf(),
            final(self).name == old(self).name,
            final(self).selected == old(self).selected,
            final(self).fields@.len() == old(self).fields@.len(),
            forall|j: int|
                0 <= j < old(self).fields@.len() ==> final(self).fields@[j].name@ == #[trigger] old(
                    self,
                ).fields@[j].name@,
            r.is_empty(),
            match msg {
                RowMsg::MoveLeft => final(self).selected_idx == (if old(self).selected_idx > 0 {
                    (old(self).selected_idx - 1) as usize
                } else {
                    old(self).selected_idx
                }) && forall|j: int|
                    0 <= j < old(self).fields@.len() ==> text_same_but_selected(
                        #[trigger] old(self).fields@[j],
                        final(self).fields@[j],
                    ),
                RowMsg::MoveRight => final(self).selected_idx == (if old(self).selected_idx + 1
                    < old(self).fields@.len() {
                    (old(self).selected_idx + 1) as usize
                } else {
                    old(self).selected_idx
                }) && forall|j: int|
                    0 <= j < old(self).fields@.len() ==> text_same_but_selected(
                        #[trigger] old(self).fields@[j],
                        final(self).fields@[j],
                    ),
                RowMsg::FieldMsg(TextFieldMsg::AppendInput(key)) => {
                    &&& final(self).selected_idx == old(self).selected_idx
                    &&& old(self).fields@.len() > 0 ==> {
                        &&& text_with_value(
                            old(self).fields@[old(self).selected_idx as int],
                            final(self).fields@[old(self).selected_idx as int],
                            crate::widgets::form::text::edited_value(
                                old(self).fields@[old(self).selected_idx as int].value@,
                                key,
                            ),
                        )
                        &&& final(self).fields@[old(self).selected_idx as int].selected == old(
                            self,
                        ).fields@[old(self).selected_idx as int].selected
                        &&& forall|j: int|
                            0 <= j < old(self).fields@.len() && j != old(self).selected_idx
                                ==> final(self).fields@[j] == #[trigger] old(self).fields@[j]
                    }
                },
            },
    {
        match msg {
            RowMsg::MoveLeft => {
                self.move_left();
            },
            RowMsg::MoveRight => {
                self.move_right();
            },
            RowMsg::FieldMsg(m) => {
                if self.fields.len() > 0 {
                    let idx = self.selected_idx;
                    let mut f = self.fields[idx].clone();
                    f.update(m);
                    self.fields.set(idx, f);
                }
            },
        }
        ComponentReturn::empty()
    }

    /// Turns a key press into row messages, as [`row_key_msgs`] states.
    pub fn handle_key(&self, key: KeyEvent) -> (msgs: Vec<RowMsg>)
        requires
            self.wf(),
        ensures
            row_key_msgs(key, msgs@),
    {
        let mut msgs: Vec<RowMsg> = Vec::new();
        proof {
            assert(msgs@ =~= Seq::<RowMsg>::empty());
        }
        let move_left = match (key.code, key.modifiers) {
            (KeyCode::Char(c), KeyModifiers::Control) if c == 'h' => true,
            (KeyCode::Left, _) => true,
            _ => false,
        };
        let move_right = match (key.code, key.modifiers) {
            (KeyCode::Char(c), KeyModifiers::Control) if c == 'l' => true,
            (KeyCode::Right, _) => true,
            _ => false,
        };
        if move_left {
            msgs.push(RowMsg::MoveLeft);
            proof {
                assert(msgs@ =~= seq![RowMsg::MoveLeft]);
            }
        } else if move_right {
            msgs.push(RowMsg::MoveRight);
            proof {
                assert(msgs@ =~= seq![RowMsg::MoveRight]);
            }
        } else {
            match key.code {
                KeyCode::Enter => {},
                _ => {
                    msgs.push(RowMsg::FieldMsg(TextFieldMsg::AppendInput(key)));
                    proof {
                        assert(msgs@ =~= seq![RowMsg::FieldMsg(TextFieldMsg::AppendInput(key))]);
                    }
                },
            }
        }
        msgs
    }

    /// Raw-input entry point of the component contract: a key press is
    /// handled as [`row_key_msgs`] states.
    pub fn handle_event(&self, evt: ComponentEvent) -> (msgs: Vec<RowMsg>)
        requires
            self.wf(),
        ensures
            match evt {
                ComponentEvent::Key(key) => row_key_msgs(key, msgs@),
            },
    {
        match evt {
            ComponentEvent::Key(key) => self.handle_key(key),
        }
    }
}

/// The messages a key press produces in a row: left/right (or control-h
/// and control-l) move the focus between the row's fields, everything else
/// goes to the focused field.
pub open spec fn row_key_msgs(key: KeyEvent, msgs: Seq<RowMsg>) -> bool {
    match key.code {
        KeyCode::Left => msgs == seq![RowMsg::MoveLeft],
        KeyCode::Right => msgs == seq![RowMsg::MoveRight],
        KeyCode::Char('h') => if key.modifiers is Control {
            msgs == seq![RowMsg::MoveLeft]
        } else {
            field_forward_msgs(msgs, key)
        },
        KeyCode::Char('l') => if key.modifiers is Control {
            msgs == seq![RowMsg::MoveRight]
        } else {
            field_forward_msgs(msgs, key)
        },
        _ => field_forward_msgs(msgs, key),
    }
}

/// What forwarding a key to the focused text field produces: nothing for
/// Enter, an edit message otherwise.
pub open spec fn field_forward_msgs(msgs: Seq<RowMsg>, key: KeyEvent) -> bool {
    if key.code is Enter {
        msgs == Seq::<RowMsg>::empty()
    } else {
        msgs == seq![RowMsg::FieldMsg(TextFieldMsg::AppendInput(key))]
    }
}

impl Default for RowField {
    fn default() -> (r: RowField)
        ensures
            r.name@ == Seq::<char>::empty(),
            r.fields@ == Seq::<TextField>::empty(),
            !r.selected,
            r.selected_idx == 0,
            r.wf(),
    {
        let r = RowField { name: String::new(), fields: Vec::new(), selected: false, selected_idx: 0 };
        proof {
            assert(r.fields@ =~= Seq::<TextField>::empty());
        }
        r
    }
}

impl Clone for RowField {
    fn clone(&self) -> (r: Self)
        ensures
            r.name == self.name,
            r.selected == self.selected,
            r.selected_idx == self.selected_idx,
            r.fields@ == self.fields@,
    {
        let r = RowField {
            name: self.name.clone(),
            fields: self.fields.clone(),
            selected: self.selected,
            selected_idx: self.selected_idx,
        };
        proof {
            assert forall|i: int| 0 <= i < self.fields@.len() implies r.fields@[i]
                == self.fields@[i] by {
                assert(cloned::<TextField>(self.fields@[i], r.fields@[i]));
            }
            assert(r.fields@ =~= self.fields@);
        }
        r
    }
}

/// The index of the first text field with a given name.
fn find_text_index(fields: &Vec<TextField>, name: &str) -> (r: Option<usize>)
    ensures
        match r {
            Some(k) => k < fields@.len() && fields@[k as int].name@ == name@,
            None => forall|j: int| 0 <= j < fields@.len() ==> #[trigger] fields@[j].name@ != name@,
        },
{
    let mut j: usize = 0;
    while j < fields.len()
        invariant
            j <= fields@.len(),
            forall|k: int| 0 <= k < j ==> #[trigger] fields@[k].name@ != name@,
        decreases fields@.len() - j,
    {
        if str_eq(fields[j].name.as_str(), name) {
            return Some(j);
        }
        j = j + 1;
    }
    None
}

/// The index of the first name-value pair with a given name.
fn find_pair_index(values: &Vec<(String, String)>, name: &str) -> (r: Option<usize>)
    ensures
        match r {
            Some(p) => p < values@.len() && values@[p as int].0@ == name@,
            None => forall|q: int| 0 <= q < values@.len() ==> #[trigger] values@[q].0@ != name@,
        },
{
    let mut q: usize = 0;
    while q < values.len()
        invariant
            q <= values@.len(),
            forall|k: int| 0 <= k < q ==> #[trigger] values@[k].0@ != name@,
        decreases values@.len() - q,
    {
        if str_eq(values[q].0.as_str(), name) {
            return Some(q);
        }
        q = q + 1;
    }
    None
}

} // verus!
