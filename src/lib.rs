//! Small reusable input widgets whose logic is verified: a typed text field
//! that arbitrates between a user typing and values pushed in from outside,
//! a button and a labelled checkbox.

pub mod components;
pub mod text_value;
