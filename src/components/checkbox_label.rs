//! A checkbox with a label, which reports each toggle.

use vstd::prelude::*;

use crate::text_value::digit_char;

verus! {

/// The lowercase hexadecimal digit for `n`, from 0 to 15.
pub open spec fn hex_digit(n: int) -> char {
    if n < 10 {
        digit_char(n)
    } else if n == 10 {
        'a'
    } else if n == 11 {
        'b'
    } else if n == 12 {
        'c'
    } else if n == 13 {
        'd'
    } else if n == 14 {
        'e'
    } else {
        'f'
    }
}

/// Random bytes with the marks of a version 4 UUID: version 4 in the high
/// half of byte 6, the RFC 4122 variant in the top two bits of byte 8.
pub open spec fn v4_bytes(random: Seq<u8>) -> Seq<u8> {
    random.update(6, (random[6] & 0x0f) | 0x40).update(8, (random[8] & 0x3f) | 0x80)
}

/// Two lowercase hexadecimal digits for each byte, high half first.
pub open spec fn hex_text(bytes: Seq<u8>) -> Seq<char> {
    Seq::new(
        2 * bytes.len(),
        |i: int|
            if i % 2 == 0 {
                hex_digit(bytes[i / 2] as int / 16)
            } else {
                hex_digit(bytes[i / 2] as int % 16)
            },
    )
}

/// The hyphenated form of a UUID's 32 digits: groups of 8, 4, 4, 4 and 12.
pub open spec fn hyphenated(digits: Seq<char>) -> Seq<char> {
    digits.subrange(0, 8) + seq!['-'] + digits.subrange(8, 12) + seq!['-'] + digits.subrange(12, 16)
        + seq!['-'] + digits.subrange(16, 20) + seq!['-'] + digits.subrange(20, 32)
}

/// The text of the version 4 UUID made from `random`.
pub open spec fn uuid_v4_text(random: Seq<u8>) -> Seq<char> {
    hyphenated(hex_text(v4_bytes(random)))
}

/// Relies on `uuid::Builder::from_random_bytes`, which sets the version and
/// variant bits of the bytes, and on uuid's `Display`, which writes the
/// hyphenated lowercase form.
#[verifier::external_body]
fn uuid_text(random: [u8; 16]) -> (r: String)
    ensures
        r@ == uuid_v4_text(random@),
{
    uuid::Builder::from_random_bytes(random).into_uuid().to_string()
}

/// A checkbox and its label, tied together by a generated element id. It
/// keeps a copy of whether the box is checked.
pub struct CheckboxLabel {
    css_id: String,
    checked: bool,
}

/// A message that a checkbox handles.
pub enum Msg {
    Toggle,
}

/// What handling one message asks of the host: the value to hand to the
/// `oncheck` callback, if there is one, and whether to draw again.
pub struct CheckboxOutcome {
    pub checked: bool,
    pub render: bool,
}

impl CheckboxLabel {
    pub closed spec fn css_id_spec(&self) -> Seq<char> {
        self.css_id@
    }

    pub closed spec fn checked_spec(&self) -> bool {
        self.checked
    }

    /// A checkbox checked as `initially_checked` says, whose element id is the
    /// version 4 UUID made from `random`.
    pub fn create(random: [u8; 16], initially_checked: bool) -> (r: CheckboxLabel)
        ensures
            r.checked_spec() == initially_checked,
            r.css_id_spec() == uuid_v4_text(random@),
            r.css_id_spec().len() == 36,
    {
        let css_id = uuid_text(random);
        Self::with_css_id(css_id, initially_checked)
    }

    /// A checkbox with the element id `css_id`, checked as
    /// `initially_checked` says.
    pub fn with_css_id(css_id: String, initially_checked: bool) -> (r: CheckboxLabel)
        ensures
            r.css_id_spec() == css_id@,
            r.checked_spec() == initially_checked,
    {
        CheckboxLabel { css_id, checked: initially_checked }
    }

    /// A toggle flips the box and reports its new state.
    pub fn update(&mut self, msg: Msg) -> (r: CheckboxOutcome)
        ensures
            final(self).checked_spec() == !old(self).checked_spec(),
            final(self).css_id_spec() == old(self).css_id_spec(),
            r.checked == final(self).checked_spec(),
            r.render,
    {
        match msg {
            Msg::Toggle => {
                let checked = !self.checked;
                self.checked = checked;
                CheckboxOutcome { checked, render: true }
            },
        }
    }

    pub fn css_id(&self) -> (r: &str)
        ensures
            r@ == self.css_id_spec(),
    {
        self.css_id.as_str()
    }

    pub fn checked(&self) -> (r: bool)
        ensures
            r == self.checked_spec(),
    {
        self.checked
    }
}

} // verus!
