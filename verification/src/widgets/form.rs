//! A composable form: an ordered list of fields plus a confirm control.
//! Focus moves linearly through the fields onto the confirm control; Enter
//! on a field advances only when the field itself makes nothing of it, and
//! Enter on the confirm control submits the form to its owner.

use vstd::prelude::*;

use crate::components::ComponentReturn;
use crate::input::{ComponentEvent, KeyCode, KeyEvent, KeyModifiers};
use crate::util::str_eq;

pub mod button;
pub mod msg;
pub mod row;
pub mod text;

use self::button::{ButtonComponent, ButtonMsg};
use self::msg::{FieldMsg, FormError, FormLocalMsg, FormMsg};
use self::row::{first_missing, name_found, row_values_updated, RowField, RowMsg};
use self::text::{text_with_value, TextField, TextFieldMsg};

verus! {

broadcast use vstd::std_specs::vec::axiom_spec_len;

/// One field of a form: a single text field or a row of text fields.
#[derive(Debug)]
pub enum FieldComponent {
    Text(TextField),
    Row(RowField),
}

/// The field's name.
pub open spec fn field_name(f: FieldComponent) -> Seq<char> {
    match f {
        FieldComponent::Text(t) => t.name@,
        FieldComponent::Row(r) => r.name@,
    }
}

/// Whether the field carries the focus.
pub open spec fn field_selected(f: FieldComponent) -> bool {
    match f {
        FieldComponent::Text(t) => t.selected,
        FieldComponent::Row(r) => r.selected,
    }
}

/// The field's own invariant (a row keeps its inner focus chain sound).
pub open spec fn field_wf(f: FieldComponent) -> bool {
    match f {
        FieldComponent::Text(_) => true,
        FieldComponent::Row(r) => r.wf(),
    }
}

/// The value of a field that is a single text field.
pub open spec fn text_value(f: FieldComponent) -> Seq<char> {
    match f {
        FieldComponent::Text(t) => t.value@,
        FieldComponent::Row(_) => Seq::empty(),
    }
}

/// The value of the `j`-th field of a field that is a row.
pub open spec fn row_value(f: FieldComponent, j: int) -> Seq<char> {
    match f {
        FieldComponent::Row(r) => r.fields@[j].value@,
        FieldComponent::Text(_) => Seq::empty(),
    }
}

/// A programmatic replacement of a field's value: a plain value for a text
/// field, or name-value pairs for a row.
#[derive(Debug)]
pub enum ChangeSet {
    Single(String),
    Row(Vec<(String, String)>),
}

impl ChangeSet {
    pub fn single(value: &str) -> (r: ChangeSet)
        ensures
            r matches ChangeSet::Single(s) && s@ == value@,
    {
        ChangeSet::Single(value.to_owned())
    }

    pub fn row(values: Vec<(String, String)>) -> (r: ChangeSet)
        ensures
            r == ChangeSet::Row(values),
    {
        ChangeSet::Row(values)
    }
}

/// The change's shape fits the field and, for a row change, every named
/// sub-field exists.
pub open spec fn change_applies(f: FieldComponent, change: ChangeSet) -> bool {
    match (f, change) {
        (FieldComponent::Text(_), ChangeSet::Single(_)) => true,
        (FieldComponent::Row(r), ChangeSet::Row(vals)) => forall|p: int|
            0 <= p < vals@.len() ==> #[trigger] name_found(r.fields@, vals@[p].0@),
        _ => false,
    }
}

/// How a successfully applied change relates the field before and after.
pub open spec fn field_changed(old_f: FieldComponent, new_f: FieldComponent, change: ChangeSet) -> bool {
    match (old_f, change) {
        (FieldComponent::Text(t), ChangeSet::Single(s)) => new_f matches FieldComponent::Text(nt)
            && text_with_value(t, nt, s@),
        (FieldComponent::Row(r), ChangeSet::Row(vals)) => new_f matches FieldComponent::Row(nr)
            && row_values_updated(r, nr, vals@),
        _ => false,
    }
}

/// The distinctness a row change must bring: no repeated names among the
/// pairs.
pub open spec fn change_wf(change: ChangeSet) -> bool {
    match change {
        ChangeSet::Single(_) => true,
        ChangeSet::Row(vals) => forall|p1: int, p2: int|
            0 <= p1 < p2 < vals@.len() ==> #[trigger] vals@[p1].0@ != #[trigger] vals@[p2].0@,
    }
}

impl FieldComponent {
    pub fn set_selected(&mut self, selected: bool)
        requires
            field_wf(*old(self)),
        ensures
            field_wf(*final(self)),
            field_name(*final(self)) == field_name(*old(self)),
            field_selected(*final(self)) == selected,
            field_kept_values(*old(self), *final(self)),
    {
        let replacement = match &*self {
            FieldComponent::Text(t) => {
                let mut nt = t.clone();
                nt.set_selected(selected);
                FieldComponent::Text(nt)
            },
            FieldComponent::Row(r) => {
                let mut nr = r.clone();
                proof {
                    assert(nr.wf());
                }
                nr.set_selected(selected);
                FieldComponent::Row(nr)
            },
        };
        *self = replacement;
    }

    /// Applies a change.  The wrong shape is rejected outright; a row
    /// change applies its pairs in order, and one naming a sub-field the
    /// row does not have stops there with the earlier pairs applied, as the
    /// row itself does.
    pub fn change(&mut self, change: ChangeSet) -> (r: Result<(), FormError>)
        requires
            field_wf(*old(self)),
            change_wf(change),
        ensures
            field_wf(*final(self)),
            field_name(*final(self)) == field_name(*old(self)),
            field_selected(*final(self)) == field_selected(*old(self)),
            r is Ok <==> change_applies(*old(self), change),
            r is Ok ==> field_changed(*old(self), *final(self), change),
            (match (*old(self), change) {
                (FieldComponent::Row(r0), ChangeSet::Row(vals)) => (*final(self))
                    matches FieldComponent::Row(nr) && row_values_updated(
                    r0,
                    nr,
                    vals@.subrange(0, first_missing(r0.fields@, vals@)),
                ),
                _ => r is Err ==> *final(self) == *old(self),
            }),
            r == Result::<(), FormError>::Err(FormError::ChangeMismatch) <==> !(match (
                *old(self),
                change,
            ) {
                (FieldComponent::Text(_), ChangeSet::Single(_)) => true,
                (FieldComponent::Row(_), ChangeSet::Row(_)) => true,
                _ => false,
            }),
    {
        let mut replacement: Option<FieldComponent> = None;
        let res: Result<(), FormError> = match (&*self, change) {
            (FieldComponent::Text(t), ChangeSet::Single(s)) => {
                let mut nt = t.clone();
                nt.set_value(s.as_str());
                replacement = Some(FieldComponent::Text(nt));
                Ok(())
            },
            (FieldComponent::Row(r), ChangeSet::Row(vals)) => {
                let ghost vals_view = vals@;
                let mut nr = r.clone();
                proof {
                    assert(nr.wf());
                }
                let inner = nr.set_values(vals);
                proof {
                    row::lemma_first_missing_bounds(r.fields@, vals_view);
                    assert(vals_view.subrange(0, vals_view.len() as int) =~= vals_view);
                }
                replacement = Some(FieldComponent::Row(nr));
                match inner {
                    Ok(()) => Ok(()),
                    Err(e) => Err(e),
                }
            },
            _ => Err(FormError::ChangeMismatch),
        };
        match replacement {
            Some(f) => {
                *self = f;
            },
            None => {},
        }
        res
    }

    pub fn name(&self) -> (r: String)
        ensures
            r@ == field_name(*self),
    {
        match self {
            FieldComponent::Text(t) => t.name.clone(),
            FieldComponent::Row(r) => r.get_name(),
        }
    }

    /// Processes a field message of the matching kind; a message of the
    /// wrong kind for the field's shape is ignored.
    pub fn update(&mut self, msg: FieldMsg) -> (r: ComponentReturn<FieldMsg, ()>)
        requires
            field_wf(*old(self)),
        ensures
            field_wf(*final(self)),
            field_name(*final(self)) == field_name(*old(self)),
            field_selected(*final(self)) == field_selected(*old(self)),
            r.is_empty(),
            match (*old(self), msg) {
                (FieldComponent::Text(t), FieldMsg::Text(TextFieldMsg::AppendInput(key))) => (
                *final(self)) matches FieldComponent::Text(nt) && text_with_value(
                    t,
                    nt,
                    text::edited_value(t.value@, key),
                ) && nt.selected == t.selected,
                (FieldComponent::Row(r0), FieldMsg::Row(_)) => (*final(self)) matches FieldComponent::Row(nr)
                    && nr.name == r0.name && nr.fields@.len() == r0.fields@.len() && (forall|j: int|
                    0 <= j < r0.fields@.len() ==> nr.fields@[j].name@
                        == #[trigger] r0.fields@[j].name@),
                _ => *final(self) == *old(self),
            },
    {
        let mut replacement: Option<FieldComponent> = None;
        match (&*self, msg) {
            (FieldComponent::Text(t), FieldMsg::Text(m)) => {
                let mut nt = t.clone();
                nt.update(m);
                replacement = Some(FieldComponent::Text(nt));
            },
            (FieldComponent::Row(r), FieldMsg::Row(m)) => {
                let mut nr = r.clone();
                proof {
                    assert(nr.wf());
                }
                nr.update(m);
                replacement = Some(FieldComponent::Row(nr));
            },
            _ => {},
        }
        match replacement {
            Some(f) => {
                *self = f;
            },
            None => {},
        }
        ComponentReturn::empty()
    }

    /// Turns a key press into field messages of the matching kind.
    pub fn handle_event(&self, evt: ComponentEvent) -> (msgs: Vec<FieldMsg>)
        requires
            field_wf(*self),
        ensures
            match evt {
                ComponentEvent::Key(key) => msgs@ == forwarded_field_msgs(*self, key),
            },
    {
        let mut msgs: Vec<FieldMsg> = Vec::new();
        proof {
            assert(msgs@ =~= Seq::<FieldMsg>::empty());
        }
        match self {
            FieldComponent::Text(t) => {
                match evt {
                    ComponentEvent::Key(key) => {
                        let inner = t.handle_event(evt);
                        if inner.len() > 0 {
                            msgs.push(FieldMsg::Text(inner[0]));
                            proof {
                                assert(msgs@ =~= seq![FieldMsg::Text(inner@[0])]);
                                assert(inner@[0] == TextFieldMsg::AppendInput(key));
                            }
                        }
                    },
                }
            },
            FieldComponent::Row(r) => {
                match evt {
                    ComponentEvent::Key(key) => {
                        let inner = r.handle_key(key);
                        if inner.len() > 0 {
                            msgs.push(FieldMsg::Row(inner[0]));
                            proof {
                                assert(msgs@ =~= seq![FieldMsg::Row(inner@[0])]);
                            }
                        }
                    },
                }
            },
        }
        msgs
    }
}

/// The values a field keeps when only focus flags change.
pub open spec fn field_kept_values(old_f: FieldComponent, new_f: FieldComponent) -> bool {
    match (old_f, new_f) {
        (FieldComponent::Text(t), FieldComponent::Text(nt)) => row::text_same_but_selected(t, nt),
        (FieldComponent::Row(r), FieldComponent::Row(nr)) => {
            &&& nr.name == r.name
            &&& nr.selected_idx == r.selected_idx
            &&& nr.fields@.len() == r.fields@.len()
            &&& forall|j: int|
                0 <= j < r.fields@.len() ==> row::text_same_but_selected(
                    #[trigger] r.fields@[j],
                    nr.fields@[j],
                )
        },
        _ => false,
    }
}

/// The messages a key press produces when it is forwarded to a field:
/// deterministic in the key and the field's shape.  Enter produces nothing
/// (the form then advances the focus instead).
pub open spec fn forwarded_field_msgs(f: FieldComponent, key: KeyEvent) -> Seq<FieldMsg> {
    match f {
        FieldComponent::Text(_) => if key.code is Enter {
            Seq::empty()
        } else {
            seq![FieldMsg::Text(TextFieldMsg::AppendInput(key))]
        },
        FieldComponent::Row(_) => if (key.code is Char && key.code->0 == 'h' && key.modifiers
            is Control) || key.code is Left {
            seq![FieldMsg::Row(RowMsg::MoveLeft)]
        } else if (key.code is Char && key.code->0 == 'l' && key.modifiers is Control)
            || key.code is Right {
            seq![FieldMsg::Row(RowMsg::MoveRight)]
        } else if key.code is Enter {
            Seq::empty()
        } else {
            seq![FieldMsg::Row(RowMsg::FieldMsg(TextFieldMsg::AppendInput(key)))]
        },
    }
}

impl Clone for FieldComponent {
    fn clone(&self) -> (r: Self)
        ensures
            field_name(r) == field_name(*self),
            match (*self, r) {
                (FieldComponent::Text(t), FieldComponent::Text(nt)) => nt == t,
                (FieldComponent::Row(rf), FieldComponent::Row(nr)) => {
                    &&& nr.name == rf.name
                    &&& nr.selected == rf.selected
                    &&& nr.selected_idx == rf.selected_idx
                    &&& nr.fields@ == rf.fields@
                },
                _ => false,
            },
    {
        match self {
            FieldComponent::Text(t) => FieldComponent::Text(t.clone()),
            FieldComponent::Row(r) => FieldComponent::Row(r.clone()),
        }
    }
}

/// The ordered fields of a form plus its confirm control.  Exactly one of
/// them carries the focus at any time.
#[derive(Debug)]
pub struct Form {
    pub fields: Vec<FieldComponent>,
    pub selected: usize,
    pub confirm: ButtonComponent,
    pub confirm_focus: bool,
}

impl Form {
    /// The form's focus invariant: the focus index points at a field, every
    /// field keeps its own invariant, field names are distinct, and exactly
    /// one control — the indexed field or the confirm button — carries the
    /// focus flag.
    pub open spec fn wf(&self) -> bool {
        &&& if self.fields@.len() == 0 {
            self.selected == 0
        } else {
            self.selected < self.fields@.len()
        }
        &&& forall|j: int| 0 <= j < self.fields@.len() ==> field_wf(#[trigger] self.fields@[j])
        &&& forall|j1: int, j2: int|
            0 <= j1 < j2 < self.fields@.len() ==> #[trigger] field_name(self.fields@[j1])
                != #[trigger] field_name(self.fields@[j2])
        &&& forall|j: int|
            0 <= j < self.fields@.len() ==> (field_selected(#[trigger] self.fields@[j]) <==> (
            !self.confirm_focus && j == self.selected))
        &&& (self.confirm.selected <==> self.confirm_focus)
    }

    /// Appends one field while building the form.
    pub fn field(self, field: FieldComponent) -> (r: Form)
        ensures
            r.fields@ == self.fields@.push(field),
            r.selected == self.selected,
            r.confirm == self.confirm,
            r.confirm_focus == self.confirm_focus,
    {
        let Form { mut fields, selected, confirm, confirm_focus } = self;
        fields.push(field);
        Form { fields, selected, confirm, confirm_focus }
    }

    /// The fields, for the owner to read and validate on submission.
    pub fn fields(&self) -> (r: &Vec<FieldComponent>)
        ensures
            *r == self.fields,
    {
        &self.fields
    }

    /// Replaces the value of the field with the given name.  A row change
    /// that names a missing sub-field stops there, leaving the pairs before
    /// it applied, as the row itself does.
    pub fn change_field(&mut self, name: &str, change: ChangeSet) -> (r: Result<(), FormError>)
        requires
            old(self).wf(),
            change_wf(change),
        ensures
            final(self).wf(),
            final(self).selected == old(self).selected,
            final(self).confirm == old(self).confirm,
            final(self).confirm_focus == old(self).confirm_focus,
            final(self).fields@.len() == old(self).fields@.len(),
            forall|j: int|
                0 <= j < old(self).fields@.len() && field_name(#[trigger] old(self).fields@[j])
                    != name@ ==> final(self).fields@[j] == old(self).fields@[j],
            (forall|j: int|
                0 <= j < old(self).fields@.len() ==> field_name(#[trigger] old(self).fields@[j])
                    != name@) ==> r == Result::<(), FormError>::Err(FormError::FieldNotFound)
                && *final(self) == *old(self),
            forall|j: int|
                0 <= j < old(self).fields@.len() && field_name(#[trigger] old(self).fields@[j])
                    == name@ ==> {
                    &&& (r is Ok <==> change_applies(old(self).fields@[j], change))
                    &&& (r is Ok ==> field_changed(
                        old(self).fields@[j],
                        final(self).fields@[j],
                        change,
                    ))
                    &&& (match (old(self).fields@[j], change) {
                        (FieldComponent::Row(r0), ChangeSet::Row(vals)) => (
                        final(self).fields@[j]) matches FieldComponent::Row(nr)
                            && row_values_updated(
                            r0,
                            nr,
                            vals@.subrange(0, first_missing(r0.fields@, vals@)),
                        ),
                        _ => r is Err ==> *final(self) == *old(self),
                    })
                },
    {
        let ghost old_fields = self.fields@;
        let mut j: usize = 0;
        #[verifier::loop_isolation(false)]
        while j < self.fields.len()
            invariant
                old(self).wf(),
                *self == *old(self),
                old_fields == old(self).fields@,
                j <= old_fields.len(),
                forall|k: int| 0 <= k < j ==> field_name(#[trigger] old_fields[k]) != name@,
            decreases old_fields.len() - j,
        {
            let field_name_j = self.fields[j].name();
            if str_eq(field_name_j.as_str(), name) {
                let is_row_change_on_row = match (&self.fields[j], &change) {
                    (FieldComponent::Row(_), ChangeSet::Row(_)) => true,
                    _ => false,
                };
                let mut f = self.fields[j].clone();
                proof {
                    assert(field_wf(f));
                }
                let res = f.change(change);
                if res.is_ok() || is_row_change_on_row {
                    self.fields.set(j, f);
                    proof {
                        assert forall|k: int|
                            0 <= k < old_fields.len() && k != j implies final_eq_at(
                            self.fields@,
                            old_fields,
                            k,
                        ) by {}
                        assert(self.wf());
                    }
                }
                return res;
            }
            j = j + 1;
        }
        Err(FormError::FieldNotFound)
    }
}

/// The field sequences agree at one index.
pub open spec fn final_eq_at(new: Seq<FieldComponent>, old: Seq<FieldComponent>, k: int) -> bool {
    new[k] == old[k]
}

/// The messages a key press produces at the form level: navigation keys
/// move the focus, Enter either reaches the focused control or advances,
/// and everything else goes to the focused field.
pub open spec fn form_key_msgs(f: Form, key: KeyEvent) -> Seq<FormMsg> {
    if (key.code is Char && key.code->0 == 'j' && key.modifiers is Control) || key.code is Down
        || key.code is Tab {
        seq![FormMsg::Local(FormLocalMsg::MoveDown)]
    } else if (key.code is Char && key.code->0 == 'k' && key.modifiers is Control) || key.code
        is Up {
        seq![FormMsg::Local(FormLocalMsg::MoveUp)]
    } else if key.code is Enter && !f.confirm_focus {
        let fwd = forwarded_field_msgs(f.fields@[f.selected as int], key);
        if fwd.len() == 0 {
            seq![FormMsg::Local(FormLocalMsg::MoveDown)]
        } else {
            fwd.map_values(|m: FieldMsg| FormMsg::Local(FormLocalMsg::FieldMsg(m)))
        }
    } else if key.code is Enter && f.confirm_focus {
        if f.confirm.armed {
            seq![FormMsg::Local(FormLocalMsg::Submit)]
        } else {
            Seq::empty()
        }
    } else {
        forwarded_field_msgs(f.fields@[f.selected as int], key).map_values(
            |m: FieldMsg| FormMsg::Local(FormLocalMsg::FieldMsg(m)),
        )
    }
}

/// Field names and values a focus move leaves alone.
pub open spec fn form_kept_fields(old_form: Form, new_form: Form) -> bool {
    &&& new_form.fields@.len() == old_form.fields@.len()
    &&& forall|j: int|
        0 <= j < old_form.fields@.len() ==> field_kept_values(
            #[trigger] old_form.fields@[j],
            new_form.fields@[j],
        ) && field_name(new_form.fields@[j]) == field_name(old_form.fields@[j])
}

impl Form {
    fn set_field_selected(&mut self, i: usize, selected: bool)
        requires
            i < old(self).fields@.len(),
            field_wf(old(self).fields@[i as int]),
        ensures
            final(self).selected == old(self).selected,
            final(self).confirm == old(self).confirm,
            final(self).confirm_focus == old(self).confirm_focus,
            final(self).fields@.len() == old(self).fields@.len(),
            forall|j: int|
                0 <= j < old(self).fields@.len() && j != i ==> final(self).fields@[j]
                    == #[trigger] old(self).fields@[j],
            field_kept_values(old(self).fields@[i as int], final(self).fields@[i as int]),
            field_name(final(self).fields@[i as int]) == field_name(old(self).fields@[i as int]),
            field_wf(final(self).fields@[i as int]),
            field_selected(final(self).fields@[i as int]) == selected,
    {
        let mut f = self.fields[i].clone();
        proof {
            assert(field_wf(f));
        }
        f.set_selected(selected);
        self.fields.set(i, f);
    }

    /// Moves the focus one field up; from the confirm control (or from the
    /// first field) it returns to the fields.
    fn move_up(&mut self)
        requires
            old(self).wf(),
            old(self).fields@.len() > 0,
        ensures
            final(self).wf(),
            form_kept_fields(*old(self), *final(self)),
            final(self).confirm.label == old(self).confirm.label,
            final(self).confirm.armed == old(self).confirm.armed,
            !final(self).confirm_focus,
            final(self).selected == (if old(self).selected > 0 && !old(self).confirm_focus {
                (old(self).selected - 1) as usize
            } else {
                old(self).selected
            }),
    {
        if self.selected != 0 && !self.confirm_focus {
            let idx = self.selected;
            self.set_field_selected(idx, false);
            let ghost mid = *self;
            proof {
                assert(mid.fields@[idx - 1] == old(self).fields@[idx - 1]);
            }
            self.selected = idx - 1;
            self.set_field_selected(idx - 1, true);
            proof {
                assert forall|j: int|
                    0 <= j < self.fields@.len() && j != idx as int && j != idx - 1 implies self.fields@[j]
                    == old(self).fields@[j] by {
                    assert(mid.fields@[j] == old(self).fields@[j]);
                    assert(self.fields@[j] == mid.fields@[j]);
                }
                assert forall|j: int| 0 <= j < self.fields@.len() implies (field_selected(
                    #[trigger] self.fields@[j],
                ) <==> (!self.confirm_focus && j == self.selected)) by {
                    if j != idx as int && j != idx - 1 {
                        assert(self.fields@[j] == old(self).fields@[j]);
                    }
                }
                assert forall|j: int| 0 <= j < self.fields@.len() implies field_wf(
                    #[trigger] self.fields@[j],
                ) && field_name(self.fields@[j]) == field_name(old(self).fields@[j])
                    && field_kept_values(old(self).fields@[j], self.fields@[j]) by {
                    if j != idx as int && j != idx - 1 {
                        assert(self.fields@[j] == old(self).fields@[j]);
                        assert(field_kept_values(self.fields@[j], self.fields@[j]));
                    }
                }
                assert forall|j1: int, j2: int|
                    0 <= j1 < j2 < self.fields@.len() implies #[trigger] field_name(
                    self.fields@[j1],
                ) != #[trigger] field_name(self.fields@[j2]) by {
                    assert(field_name(self.fields@[j1]) == field_name(old(self).fields@[j1]));
                    assert(field_name(self.fields@[j2]) == field_name(old(self).fields@[j2]));
                }
            }
        } else {
            self.confirm_focus = false;
            let idx = self.selected;
            let ghost mid = *self;
            self.set_field_selected(idx, true);
            self.confirm.set_selected(false);
            proof {
                assert forall|j: int|
                    0 <= j < self.fields@.len() && j != idx as int && j != idx as int implies self.fields@[j]
                    == old(self).fields@[j] by {
                    assert(mid.fields@[j] == old(self).fields@[j]);
                    assert(self.fields@[j] == mid.fields@[j]);
                }
                assert forall|j: int| 0 <= j < self.fields@.len() implies (field_selected(
                    #[trigger] self.fields@[j],
                ) <==> (!self.confirm_focus && j == self.selected)) by {
                    if j != idx as int && j != idx as int {
                        assert(self.fields@[j] == old(self).fields@[j]);
                    }
                }
                assert forall|j: int| 0 <= j < self.fields@.len() implies field_wf(
                    #[trigger] self.fields@[j],
                ) && field_name(self.fields@[j]) == field_name(old(self).fields@[j])
                    && field_kept_values(old(self).fields@[j], self.fields@[j]) by {
                    if j != idx as int && j != idx as int {
                        assert(self.fields@[j] == old(self).fields@[j]);
                        assert(field_kept_values(self.fields@[j], self.fields@[j]));
                    }
                }
                assert forall|j1: int, j2: int|
                    0 <= j1 < j2 < self.fields@.len() implies #[trigger] field_name(
                    self.fields@[j1],
                ) != #[trigger] field_name(self.fields@[j2]) by {
                    assert(field_name(self.fields@[j1]) == field_name(old(self).fields@[j1]));
                    assert(field_name(self.fields@[j2]) == field_name(old(self).fields@[j2]));
                }
            }
        }
    }

    /// Moves the focus one field down; past the last field it reaches the
    /// confirm control.
    fn move_down(&mut self)
        requires
            old(self).wf(),
            old(self).fields@.len() > 0,
        ensures
            final(self).wf(),
            form_kept_fields(*old(self), *final(self)),
            final(self).confirm.label == old(self).confirm.label,
            final(self).confirm.armed == old(self).confirm.armed,
            final(self).confirm_focus == (old(self).confirm_focus || old(self).selected + 1 == old(
                self,
            ).fields@.len()),
            final(self).selected == (if !old(self).confirm_focus && old(self).selected + 1 < old(
                self,
            ).fields@.len() {
                (old(self).selected + 1) as usize
            } else {
                old(self).selected
            }),
    {
        let len = self.fields.len() - 1;
        if self.selected != len && !self.confirm_focus {
            let idx = self.selected;
            self.set_field_selected(idx, false);
            let ghost mid = *self;
            proof {
                assert(mid.fields@[idx + 1] == old(self).fields@[idx + 1]);
            }
            self.selected = idx + 1;
            self.set_field_selected(idx + 1, true);
            proof {
                assert forall|j: int|
                    0 <= j < self.fields@.len() && j != idx as int && j != idx + 1 implies self.fields@[j]
                    == old(self).fields@[j] by {
                    assert(mid.fields@[j] == old(self).fields@[j]);
                    assert(self.fields@[j] == mid.fields@[j]);
                }
                assert forall|j: int| 0 <= j < self.fields@.len() implies (field_selected(
                    #[trigger] self.fields@[j],
                ) <==> (!self.confirm_focus && j == self.selected)) by {
                    if j != idx as int && j != idx + 1 {
                        assert(self.fields@[j] == old(self).fields@[j]);
                    }
                }
                assert forall|j: int| 0 <= j < self.fields@.len() implies field_wf(
                    #[trigger] self.fields@[j],
                ) && field_name(self.fields@[j]) == field_name(old(self).fields@[j])
                    && field_kept_values(old(self).fields@[j], self.fields@[j]) by {
                    if j != idx as int && j != idx + 1 {
                        assert(self.fields@[j] == old(self).fields@[j]);
                        assert(field_kept_values(self.fields@[j], self.fields@[j]));
                    }
                }
                assert forall|j1: int, j2: int|
                    0 <= j1 < j2 < self.fields@.len() implies #[trigger] field_name(
                    self.fields@[j1],
                ) != #[trigger] field_name(self.fields@[j2]) by {
                    assert(field_name(self.fields@[j1]) == field_name(old(self).fields@[j1]));
                    assert(field_name(self.fields@[j2]) == field_name(old(self).fields@[j2]));
                }
            }
        } else {
            self.confirm_focus = true;
            let idx = self.selected;
            let ghost mid = *self;
            self.set_field_selected(idx, false);
            self.confirm.set_selected(true);
            proof {
                assert forall|j: int|
                    0 <= j < self.fields@.len() && j != idx as int && j != idx as int implies self.fields@[j]
                    == old(self).fields@[j] by {
                    assert(mid.fields@[j] == old(self).fields@[j]);
                    assert(self.fields@[j] == mid.fields@[j]);
                }
                assert forall|j: int| 0 <= j < self.fields@.len() implies (field_selected(
                    #[trigger] self.fields@[j],
                ) <==> (!self.confirm_focus && j == self.selected)) by {
                    if j != idx as int && j != idx as int {
                        assert(self.fields@[j] == old(self).fields@[j]);
                    }
                }
                assert forall|j: int| 0 <= j < self.fields@.len() implies field_wf(
                    #[trigger] self.fields@[j],
                ) && field_name(self.fields@[j]) == field_name(old(self).fields@[j])
                    && field_kept_values(old(self).fields@[j], self.fields@[j]) by {
                    if j != idx as int && j != idx as int {
                        assert(self.fields@[j] == old(self).fields@[j]);
                        assert(field_kept_values(self.fields@[j], self.fields@[j]));
                    }
                }
                assert forall|j1: int, j2: int|
                    0 <= j1 < j2 < self.fields@.len() implies #[trigger] field_name(
                    self.fields@[j1],
                ) != #[trigger] field_name(self.fields@[j2]) by {
                    assert(field_name(self.fields@[j1]) == field_name(old(self).fields@[j1]));
                    assert(field_name(self.fields@[j2]) == field_name(old(self).fields@[j2]));
                }
            }
        }
    }

    /// Processes one form message: focus moves and field edits stay local,
    /// the confirm click surfaces as `Submitted` for the owner to read the
    /// fields.
    #[verifier::rlimit(50)]
    pub fn update(&mut self, msg: FormMsg) -> (r: ComponentReturn<FormMsg, ()>)
        requires
            old(self).wf(),
            old(self).fields@.len() > 0,
        ensures
            final(self).wf(),
            final(self).fields@.len() == old(self).fields@.len(),
            final(self).confirm.label == old(self).confirm.label,
            final(self).confirm.armed == old(self).confirm.armed,
            r.actions@ == Seq::<crate::components::Action>::empty(),
            r.cmds@ == Seq::<()>::empty(),
            match msg {
                FormMsg::Local(FormLocalMsg::MoveUp) => {
                    &&& form_kept_fields(*old(self), *final(self))
                    &&& !final(self).confirm_focus
                    &&& final(self).selected == (if old(self).selected > 0 && !old(
                        self,
                    ).confirm_focus {
                        (old(self).selected - 1) as usize
                    } else {
                        old(self).selected
                    })
                    &&& r.msgs@ == Seq::<FormMsg>::empty()
                },
                FormMsg::Local(FormLocalMsg::MoveDown) => {
                    &&& form_kept_fields(*old(self), *final(self))
                    &&& final(self).confirm_focus == (old(self).confirm_focus || old(self).selected
                        + 1 == old(self).fields@.len())
                    &&& final(self).selected == (if !old(self).confirm_focus && old(self).selected
                        + 1 < old(self).fields@.len() {
                        (old(self).selected + 1) as usize
                    } else {
                        old(self).selected
                    })
                    &&& r.msgs@ == Seq::<FormMsg>::empty()
                },
                FormMsg::Local(FormLocalMsg::Submit) => {
                    &&& *final(self) == *old(self)
                    &&& r.msgs@ == seq![FormMsg::Submitted]
                },
                FormMsg::Local(FormLocalMsg::FieldMsg(m)) => {
                    &&& final(self).selected == old(self).selected
                    &&& final(self).confirm == old(self).confirm
                    &&& final(self).confirm_focus == old(self).confirm_focus
                    &&& forall|j: int|
                        0 <= j < old(self).fields@.len() && j != old(self).selected
                            ==> final(self).fields@[j] == #[trigger] old(self).fields@[j]
                    &&& field_name(final(self).fields@[old(self).selected as int]) == field_name(
                        old(self).fields@[old(self).selected as int],
                    )
                    &&& (match (old(self).fields@[old(self).selected as int], m) {
                        (
                            FieldComponent::Text(t),
                            FieldMsg::Text(TextFieldMsg::AppendInput(key)),
                        ) => (final(self).fields@[old(self).selected as int])
                            matches FieldComponent::Text(nt) && text_with_value(
                            t,
                            nt,
                            text::edited_value(t.value@, key),
                        ),
                        (FieldComponent::Row(r0), FieldMsg::Row(_)) => (
                        final(self).fields@[old(self).selected as int])
                            matches FieldComponent::Row(nr) && nr.name == r0.name
                            && nr.fields@.len() == r0.fields@.len() && (forall|jj: int|
                            0 <= jj < r0.fields@.len() ==> nr.fields@[jj].name@
                                == #[trigger] r0.fields@[jj].name@),
                        _ => field_kept_values(
                            old(self).fields@[old(self).selected as int],
                            final(self).fields@[old(self).selected as int],
                        ),
                    })
                    &&& r.msgs@ == Seq::<FormMsg>::empty()
                },
                FormMsg::Submitted => {
                    &&& *final(self) == *old(self)
                    &&& r.msgs@ == Seq::<FormMsg>::empty()
                },
            },
    {
        match msg {
            FormMsg::Local(FormLocalMsg::MoveUp) => {
                self.move_up();
                ComponentReturn::empty()
            },
            FormMsg::Local(FormLocalMsg::MoveDown) => {
                self.move_down();
                ComponentReturn::empty()
            },
            FormMsg::Local(FormLocalMsg::Submit) => ComponentReturn::msg(FormMsg::Submitted),
            FormMsg::Local(FormLocalMsg::FieldMsg(m)) => {
                let idx = self.selected;
                let mut f = self.fields[idx].clone();
                proof {
                    assert(field_wf(f));
                }
                f.update(m);
                self.fields.set(idx, f);
                proof {
                    assert(self.wf());
                }
                ComponentReturn::empty()
            },
            FormMsg::Submitted => ComponentReturn::empty(),
        }
    }

    /// Turns a key press into form messages.
    pub fn handle_key(&self, key: KeyEvent) -> (msgs: Vec<FormMsg>)
        requires
            self.wf(),
            self.fields@.len() > 0,
        ensures
            msgs@ == form_key_msgs(*self, key),
    {
        let mut msgs: Vec<FormMsg> = Vec::new();
        proof {
            assert(msgs@ =~= Seq::<FormMsg>::empty());
        }
        let down = match (key.code, key.modifiers) {
            (KeyCode::Char(c), KeyModifiers::Control) if c == 'j' => true,
            (KeyCode::Down, _) => true,
            (KeyCode::Tab, _) => true,
            _ => false,
        };
        let up = match (key.code, key.modifiers) {
            (KeyCode::Char(c), KeyModifiers::Control) if c == 'k' => true,
            (KeyCode::Up, _) => true,
            _ => false,
        };
        if down {
            msgs.push(FormMsg::Local(FormLocalMsg::MoveDown));
            proof {
                assert(msgs@ =~= seq![FormMsg::Local(FormLocalMsg::MoveDown)]);
            }
            return msgs;
        }
        if up {
            msgs.push(FormMsg::Local(FormLocalMsg::MoveUp));
            proof {
                assert(msgs@ =~= seq![FormMsg::Local(FormLocalMsg::MoveUp)]);
            }
            return msgs;
        }
        let is_enter = match key.code {
            KeyCode::Enter => true,
            _ => false,
        };
        if is_enter && !self.confirm_focus {
            let fwd = self.fields[self.selected].handle_event(ComponentEvent::Key(key));
            if fwd.len() == 0 {
                msgs.push(FormMsg::Local(FormLocalMsg::MoveDown));
                proof {
                    assert(msgs@ =~= seq![FormMsg::Local(FormLocalMsg::MoveDown)]);
                }
            } else {
                msgs = wrap_field_msgs(fwd);
            }
            return msgs;
        }
        if is_enter && self.confirm_focus {
            let clicks = self.confirm.handle_event(ComponentEvent::Key(key));
            if clicks.len() > 0 {
                msgs.push(FormMsg::Local(FormLocalMsg::Submit));
                proof {
                    assert(msgs@ =~= seq![FormMsg::Local(FormLocalMsg::Submit)]);
                }
            }
            return msgs;
        }
        let fwd = self.fields[self.selected].handle_event(ComponentEvent::Key(key));
        msgs = wrap_field_msgs(fwd);
        msgs
    }

    /// Raw-input entry point of the component contract.
    pub fn handle_event(&self, evt: ComponentEvent) -> (msgs: Vec<FormMsg>)
        requires
            self.wf(),
            self.fields@.len() > 0,
        ensures
            match evt {
                ComponentEvent::Key(key) => msgs@ == form_key_msgs(*self, key),
            },
    {
        match evt {
            ComponentEvent::Key(key) => self.handle_key(key),
        }
    }
}

/// Wraps a field's messages in the form's message type.
fn wrap_field_msgs(fwd: Vec<FieldMsg>) -> (msgs: Vec<FormMsg>)
    ensures
        msgs@ == fwd@.map_values(|m: FieldMsg| FormMsg::Local(FormLocalMsg::FieldMsg(m))),
{
    let mut msgs: Vec<FormMsg> = Vec::new();
    let mut i: usize = 0;
    while i < fwd.len()
        invariant
            i <= fwd@.len(),
            msgs@.len() == i,
            forall|k: int|
                0 <= k < i ==> #[trigger] msgs@[k] == FormMsg::Local(
                    FormLocalMsg::FieldMsg(fwd@[k]),
                ),
        decreases fwd@.len() - i,
    {
        msgs.push(FormMsg::Local(FormLocalMsg::FieldMsg(fwd[i])));
        i = i + 1;
    }
    proof {
        assert(msgs@ =~= fwd@.map_values(|m: FieldMsg| FormMsg::Local(FormLocalMsg::FieldMsg(m))));
    }
    msgs
}

impl Default for Form {
    fn default() -> (r: Form)
        ensures
            r.fields@ == Seq::<FieldComponent>::empty(),
            r.selected == 0,
            !r.confirm_focus,
            r.confirm.armed,
            !r.confirm.selected,
            r.confirm.label@ == "Confirm"@,
            r.wf(),
    {
        let r = Form {
            fields: Vec::new(),
            selected: 0,
            confirm: ButtonComponent::default().label("Confirm").on_click(),
            confirm_focus: false,
        };
        proof {
            assert(r.fields@ =~= Seq::<FieldComponent>::empty());
        }
        r
    }
}

} // verus!
