//! The widgets.

pub mod button;
pub mod checkbox_label;
pub mod typed_input;

pub use self::button::Button;
pub use self::checkbox_label::CheckboxLabel;
pub use self::typed_input::{RawAndParsed, TypedInput, TypedInputStorage};
pub use crate::text_value::TypedInputParseError;
