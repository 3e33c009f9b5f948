//! The form's message types and the errors its editing operations report.

use vstd::prelude::*;

use crate::widgets::form::row::RowMsg;
use crate::widgets::form::text::TextFieldMsg;

verus! {

/// A form message: everything the form consumes itself is `Local`;
/// `Submitted` tells the owner that the confirm control fired, and the
/// owner reads and validates the field values.
#[derive(Clone, Copy, PartialEq, Eq, Structural, Debug)]
pub enum FormMsg {
    Local(FormLocalMsg),
    Submitted,
}

/// A message the form consumes itself: focus movement, the confirm click,
/// or a key for the focused field.
#[derive(Clone, Copy, PartialEq, Eq, Structural, Debug)]
pub enum FormLocalMsg {
    MoveDown,
    MoveUp,
    Submit,
    FieldMsg(FieldMsg),
}

/// A message for one field, by field kind.
#[derive(Clone, Copy, PartialEq, Eq, Structural, Debug)]
pub enum FieldMsg {
    Text(TextFieldMsg),
    Row(RowMsg),
}

/// Why an editing operation on a form was rejected.
#[derive(Clone, Copy, PartialEq, Eq, Structural, Debug)]
pub enum FormError {
    /// No field of the form carries the requested name.
    FieldNotFound,
    /// The change's shape does not fit the field's kind (a plain value for
    /// a row, or row values for a plain field).
    ChangeMismatch,
}

} // verus!
