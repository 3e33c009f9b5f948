//! Reusable input widgets: the composable form and its fields.

pub mod form;
