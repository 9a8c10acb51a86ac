//! A button that forwards its clicks.

use vstd::prelude::*;

verus! {

/// A button: it keeps no state and forwards each click to its `onsignal`
/// callback.
pub struct Button {}

/// A message that a button handles.
pub enum Msg {
    Clicked,
}

/// What handling one message asks of the host: whether to fire `onsignal`
/// and whether to draw the button again.
pub struct ButtonOutcome {
    pub signal: bool,
    pub render: bool,
}

impl Button {
    pub fn create() -> (r: Button) {
        Button {  }
    }

    /// A click fires `onsignal`; nothing about the button changes, so it is
    /// not drawn again.
    pub fn update(&mut self, msg: Msg) -> (r: ButtonOutcome)
        ensures
            r.signal,
            !r.render,
    {
        match msg {
            Msg::Clicked => ButtonOutcome { signal: true, render: false },
        }
    }

    /// The style class that marks whether the button is active.
    pub fn active_class(is_active: bool) -> (r: &'static str)
        ensures
            is_active ==> r@ == "btn-active"@,
            !is_active ==> r@ == "btn-inactive"@,
    {
        if is_active {
            "btn-active"
        } else {
            "btn-inactive"
        }
    }
}

} // verus!
