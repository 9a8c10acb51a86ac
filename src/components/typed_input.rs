//! A text field backed by a typed value.
//!
//! `TypedInputStorage` holds the field's text, what parsing it gave and
//! whether the user is editing it. `TypedInput` turns the field's events into
//! changes of that storage and into notifications for the embedding
//! application: one when the text changed, one when a valid value should be
//! committed. Values pushed from outside never overwrite text that the user
//! is editing.

use vstd::prelude::*;

use vstd::std_specs::cmp::PartialEqSpec;

use crate::text_value::{round_trips, TextValue, TypedInputParseError};

verus! {

/// What a `RawAndParsed` holds: a text and what parsing gave for it.
pub struct RawAndParsedView<T> {
    pub raw: Seq<char>,
    pub parsed: Result<T, TypedInputParseError>,
}

/// A text together with the typed value it stands for.
#[derive(Debug)]
pub struct RawAndParsed<T: TextValue> {
    raw_value: String,
    parsed: Result<T, TypedInputParseError>,
}

impl<T: TextValue> View for RawAndParsed<T> {
    type V = RawAndParsedView<T>;

    closed spec fn view(&self) -> RawAndParsedView<T> {
        RawAndParsedView { raw: self.raw_value@, parsed: self.parsed }
    }
}

/// `parsed` is what parsing `raw` gives, or `raw` is the text of the value
/// that `parsed` holds.
pub open spec fn agrees<T: TextValue>(raw: Seq<char>, parsed: Result<T, TypedInputParseError>) -> bool {
    ||| parsed == T::parse_spec(raw)
    ||| (parsed is Ok && raw == T::format_spec(parsed->Ok_0))
}

/// The value to commit: the parsed value where parsing succeeded.
pub open spec fn commit_of<T>(parsed: Result<T, TypedInputParseError>) -> Option<T> {
    match parsed {
        Ok(v) => Some(v),
        Err(_) => None,
    }
}

fn copy_result<T: TextValue>(parsed: &Result<T, TypedInputParseError>) -> (r: Result<
    T,
    TypedInputParseError,
>)
    ensures
        r == *parsed,
{
    match parsed {
        Ok(v) => Ok(v.copy_value()),
        Err(e) => Err(*e),
    }
}

impl<T: TextValue> RawAndParsed<T> {
    /// The text and the parse result never disagree.
    #[verifier::type_invariant]
    closed spec fn inv(&self) -> bool {
        agrees(self.raw_value@, self.parsed)
    }

    pub open spec fn wf(&self) -> bool {
        agrees(self@.raw, self@.parsed)
    }

    /// The text `raw_value` and what parsing it gives.
    pub fn from_raw(raw_value: String) -> (r: Self)
        ensures
            r@.raw == raw_value@,
            r@.parsed == T::parse_spec(raw_value@),
            r.wf(),
    {
        let parsed = T::parse_text(raw_value.as_str());
        RawAndParsed { raw_value, parsed }
    }

    /// The empty text and what parsing it gives (often a failure).
    pub fn empty() -> (r: Self)
        ensures
            r@.raw == Seq::<char>::empty(),
            r@.parsed == T::parse_spec(Seq::<char>::empty()),
            r.wf(),
    {
        Self::from_raw(String::new())
    }

    /// A valid `value` together with its text.
    pub fn from_initial(value: T) -> (r: Self)
        ensures
            r@.raw == T::format_spec(value),
            r@.parsed == Ok::<T, TypedInputParseError>(value),
            r.wf(),
    {
        let raw_value = value.format_text();
        RawAndParsed { raw_value, parsed: Ok(value) }
    }

    pub fn raw_value(&self) -> (r: &str)
        ensures
            r@ == self@.raw,
    {
        self.raw_value.as_str()
    }

    pub fn parsed(&self) -> (r: Result<T, TypedInputParseError>)
        ensures
            r == self@.parsed,
    {
        copy_result(&self.parsed)
    }

    fn copy(&self) -> (r: Self)
        ensures
            r@ == self@,
    {
        proof {
            use_type_invariant(self);
        }
        RawAndParsed { raw_value: self.raw_value.clone(), parsed: copy_result(&self.parsed) }
    }
}

impl<T: TextValue> Clone for RawAndParsed<T> {
    fn clone(&self) -> (r: Self)
        ensures
            r@ == self@,
    {
        self.copy()
    }
}

/// Whether the user is editing a field.
#[derive(Clone, Copy, Debug, PartialEq, Eq, Structural)]
pub enum FocusState {
    IsFocused,
    IsBlurred,
}

/// A focus flag with an identity of its own. Storages are told apart by the
/// identity of their focus cells.
#[derive(Clone, Copy, Debug)]
pub struct FocusCell {
    id: u64,
    state: FocusState,
}

impl FocusCell {
    pub closed spec fn id_spec(&self) -> u64 {
        self.id
    }

    pub closed spec fn state_spec(&self) -> FocusState {
        self.state
    }

    pub fn id(&self) -> (r: u64)
        ensures
            r == self.id_spec(),
    {
        self.id
    }

    pub fn state(&self) -> (r: FocusState)
        ensures
            r == self.state_spec(),
    {
        self.state
    }
}

/// Hands out identities for focus cells, each one at most once. Identities
/// are unique within one source only: an application that tells storages
/// apart keeps a single `FocusIds` for all of them.
pub struct FocusIds {
    next: u64,
}

impl FocusIds {
    /// The identities handed out so far.
    pub closed spec fn issued(&self) -> Set<u64> {
        Set::new(|i: u64| i < self.next)
    }

    /// How many identities can still be handed out.
    pub closed spec fn remaining(&self) -> nat {
        (u64::MAX - self.next) as nat
    }

    /// A source that has handed out nothing. Its identities may repeat those
    /// of another source.
    pub fn new() -> (r: Self)
        ensures
            r.issued() == Set::<u64>::empty(),
            r.remaining() == u64::MAX as nat,
    {
        let r = FocusIds { next: 0 };
        assert(r.issued() =~= Set::<u64>::empty());
        r
    }

    pub fn has_room(&self) -> (r: bool)
        ensures
            r == (self.remaining() > 0),
    {
        self.next < u64::MAX
    }

    fn issue(&mut self) -> (r: u64)
        requires
            old(self).remaining() > 0,
        ensures
            !old(self).issued().contains(r),
            final(self).issued() == old(self).issued().insert(r),
            final(self).remaining() == old(self).remaining() - 1,
    {
        let r = self.next;
        self.next = self.next + 1;
        assert(self.issued() =~= old(self).issued().insert(r));
        r
    }
}

/// A new focus cell, blurred, with an identity that `ids` never handed out
/// before.
pub fn new_focus_state(ids: &mut FocusIds) -> (r: FocusCell)
    requires
        old(ids).remaining() > 0,
    ensures
        r.state_spec() == FocusState::IsBlurred,
        !old(ids).issued().contains(r.id_spec()),
        final(ids).issued() == old(ids).issued().insert(r.id_spec()),
        final(ids).remaining() == old(ids).remaining() - 1,
{
    let id = ids.issue();
    FocusCell { id, state: FocusState::IsBlurred }
}

/// What a `TypedInputStorage` holds.
pub struct StorageView<T> {
    pub raw: Seq<char>,
    pub parsed: Result<T, TypedInputParseError>,
    pub focus_id: u64,
    pub focused: bool,
    pub linked: bool,
}

impl<T> StorageView<T> {
    /// The same storage holding a new text and parse result.
    pub open spec fn with_text(self, raw: Seq<char>, parsed: Result<T, TypedInputParseError>) -> Self {
        StorageView { raw, parsed, ..self }
    }

    /// The same storage with a new focus state.
    pub open spec fn with_focus(self, focused: bool) -> Self {
        StorageView { focused, ..self }
    }

    /// The same storage with a controller linked to it.
    pub open spec fn with_link(self) -> Self {
        StorageView { linked: true, ..self }
    }

    /// Two storages are equal when they share a focus cell and hold the same
    /// text.
    pub open spec fn same_as(self, other: Self) -> bool {
        self.focus_id == other.focus_id && self.raw == other.raw
    }
}

/// The state behind a typed input field, shared by the field and the parts of
/// the application that read or push its value.
#[derive(Debug)]
pub struct TypedInputStorage<T: TextValue> {
    raw_and_parsed: RawAndParsed<T>,
    focus_state: FocusCell,
    linked: bool,
}

impl<T: TextValue> View for TypedInputStorage<T> {
    type V = StorageView<T>;

    closed spec fn view(&self) -> StorageView<T> {
        StorageView {
            raw: self.raw_and_parsed.raw_value@,
            parsed: self.raw_and_parsed.parsed,
            focus_id: self.focus_state.id,
            focused: self.focus_state.state == FocusState::IsFocused,
            linked: self.linked,
        }
    }
}

/// Two storages are equal when they hold one focus cell and the same text.
/// Identities are unique within one `FocusIds`: storages made from
/// different sources may share one.
impl<T: TextValue> PartialEq for TypedInputStorage<T> {
    fn eq(&self, other: &Self) -> (r: bool) {
        self.focus_state.id == other.focus_state.id && self.raw_and_parsed.raw_value
            == other.raw_and_parsed.raw_value
    }
}

impl<T: TextValue> vstd::std_specs::cmp::PartialEqSpecImpl for TypedInputStorage<T> {
    open spec fn obeys_eq_spec() -> bool {
        true
    }

    open spec fn eq_spec(&self, other: &Self) -> bool {
        self@.same_as(other@)
    }
}

/// Why `modify` did not change the value.
#[derive(Clone, Copy, Debug, PartialEq, Eq, Structural)]
pub enum ModifyError {
    /// The text does not parse: there is no value to change.
    NotCurrentlyValid,
}

impl<T: TextValue> TypedInputStorage<T> {
    pub open spec fn wf(&self) -> bool {
        agrees(self@.raw, self@.parsed)
    }

    /// A storage holding the empty text, blurred, with no field linked.
    pub fn empty(ids: &mut FocusIds) -> (r: Self)
        requires
            old(ids).remaining() > 0,
        ensures
            r@.raw == Seq::<char>::empty(),
            r@.parsed == T::parse_spec(Seq::<char>::empty()),
            !r@.focused,
            !r@.linked,
            r.wf(),
            !old(ids).issued().contains(r@.focus_id),
            final(ids).issued() == old(ids).issued().insert(r@.focus_id),
            final(ids).remaining() == old(ids).remaining() - 1,
    {
        Self::create(RawAndParsed::empty(), ids)
    }

    /// A storage holding the valid `value` and its text, blurred, with no
    /// field linked.
    pub fn from_initial(ids: &mut FocusIds, value: T) -> (r: Self)
        requires
            old(ids).remaining() > 0,
        ensures
            r@.raw == T::format_spec(value),
            r@.parsed == Ok::<T, TypedInputParseError>(value),
            !r@.focused,
            !r@.linked,
            r.wf(),
            !old(ids).issued().contains(r@.focus_id),
            final(ids).issued() == old(ids).issued().insert(r@.focus_id),
            final(ids).remaining() == old(ids).remaining() - 1,
    {
        Self::create(RawAndParsed::from_initial(value), ids)
    }

    fn create(raw_and_parsed: RawAndParsed<T>, ids: &mut FocusIds) -> (r: Self)
        requires
            old(ids).remaining() > 0,
        ensures
            r@.raw == raw_and_parsed@.raw,
            r@.parsed == raw_and_parsed@.parsed,
            !r@.focused,
            !r@.linked,
            !old(ids).issued().contains(r@.focus_id),
            final(ids).issued() == old(ids).issued().insert(r@.focus_id),
            final(ids).remaining() == old(ids).remaining() - 1,
    {
        let focus_state = new_focus_state(ids);
        TypedInputStorage { raw_and_parsed, focus_state, linked: false }
    }

    /// The latest parse result.
    pub fn parsed(&self) -> (r: Result<T, TypedInputParseError>)
        ensures
            r == self@.parsed,
    {
        copy_result(&self.raw_and_parsed.parsed)
    }

    /// The value: the latest parse result.
    pub fn get(&self) -> (r: Result<T, TypedInputParseError>)
        ensures
            r == self@.parsed,
    {
        copy_result(&self.raw_and_parsed.parsed)
    }

    /// The text the field shows.
    pub fn raw_value(&self) -> (r: &str)
        ensures
            r@ == self@.raw,
    {
        self.raw_and_parsed.raw_value()
    }

    pub fn is_focused(&self) -> (r: bool)
        ensures
            r == self@.focused,
    {
        self.focus_state.state == FocusState::IsFocused
    }

    pub fn is_linked(&self) -> (r: bool)
        ensures
            r == self@.linked,
    {
        self.linked
    }

    /// The storage's focus cell.
    pub fn focus_state(&self) -> (r: FocusCell)
        ensures
            r.id_spec() == self@.focus_id,
            (r.state_spec() == FocusState::IsFocused) == self@.focused,
    {
        self.focus_state
    }

    /// Records that a field now handles this storage's messages.
    pub fn set_link(&mut self)
        ensures
            final(self)@ == old(self)@.with_link(),
    {
        self.linked = true;
    }

    /// Applies `f` to the current value. Where the text does not parse there
    /// is no value, and the error comes back. Otherwise the result is the
    /// message that carries the new value's text to the linked field, as if
    /// the user had typed it: handled there, it updates this storage and
    /// reaches the same observers as typing does. A valid value may only be
    /// modified once a field is linked.
    pub fn modify<F: Fn(T) -> T>(&mut self, f: F) -> (r: Result<Msg, ModifyError>)
        requires
            old(self)@.parsed is Ok ==> old(self)@.linked,
            old(self)@.parsed is Ok ==> f.requires((old(self)@.parsed->Ok_0,)),
        ensures
            *final(self) == *old(self),
            old(self)@.parsed is Err <==> r == Err::<Msg, ModifyError>(ModifyError::NotCurrentlyValid),
            old(self)@.parsed is Ok ==> r is Ok,
            r is Ok ==> exists|w: T|
                #![trigger f.ensures((old(self)@.parsed->Ok_0,), w)]
                f.ensures((old(self)@.parsed->Ok_0,), w) && new_value_text(r->Ok_0) == Some(
                    T::format_spec(w),
                ),
    {
        match &self.raw_and_parsed.parsed {
            Ok(value) => {
                let w = f(value.copy_value());
                let raw_value = w.format_text();
                Ok(Msg::NewValue(raw_value))
            },
            Err(_) => Err(ModifyError::NotCurrentlyValid),
        }
    }

    /// Pushes `value` into the storage unless the user is editing the field,
    /// in which case nothing changes.
    pub fn set_if_not_focused(&mut self, value: T)
        ensures
            old(self)@.focused ==> final(self)@ == old(self)@,
            !old(self)@.focused ==> final(self)@ == old(self)@.with_text(
                T::format_spec(value),
                Ok(value),
            ),
            final(self).wf(),
    {
        proof {
            use_type_invariant(&self.raw_and_parsed);
        }
        match self.focus_state.state {
            FocusState::IsFocused => {},
            FocusState::IsBlurred => {
                self.raw_and_parsed = RawAndParsed::from_initial(value);
            },
        }
    }
}

/// A message that a typed input field handles.
#[derive(Debug)]
pub enum Msg {
    /// The field's text is now this.
    NewValue(String),
    /// The field gained focus.
    OnFocus,
    /// The field lost focus.
    OnBlur,
    /// The user asked to commit the value (the Enter key).
    SendValueIfValid,
    /// Nothing to do (any other key).
    Ignore,
}

/// The text that a `NewValue` message carries.
pub open spec fn new_value_text(msg: Msg) -> Option<Seq<char>> {
    match msg {
        Msg::NewValue(raw) => Some(raw@),
        _ => None,
    }
}

/// What handling one message asks of the host.
pub struct UpdateOutcomeView<T> {
    pub render: bool,
    pub input_changed: Option<RawAndParsedView<T>>,
    pub commit: Option<T>,
}

/// What handling one message asks of the host: whether to draw the field
/// again, what to hand to the observer of changes and what to hand to the
/// observer of commits.
#[derive(Debug)]
pub struct UpdateOutcome<T: TextValue> {
    pub render: bool,
    pub input_changed: Option<RawAndParsed<T>>,
    pub commit: Option<T>,
}

impl<T: TextValue> View for UpdateOutcome<T> {
    type V = UpdateOutcomeView<T>;

    open spec fn view(&self) -> UpdateOutcomeView<T> {
        UpdateOutcomeView {
            render: self.render,
            input_changed: match self.input_changed {
                Some(c) => Some(c@),
                None => None,
            },
            commit: self.commit,
        }
    }
}

/// An outcome with no notification.
pub open spec fn quiet<T>(render: bool) -> UpdateOutcomeView<T> {
    UpdateOutcomeView { render, input_changed: None, commit: None }
}

/// What handling `msg` does to a storage, and what it asks of the host.
pub open spec fn handle<T: TextValue>(s: StorageView<T>, msg: Msg) -> (StorageView<T>, UpdateOutcomeView<T>) {
    match msg {
        Msg::NewValue(raw) => {
            let parsed = T::parse_spec(raw@);
            (
                s.with_text(raw@, parsed),
                UpdateOutcomeView {
                    render: true,
                    input_changed: Some(RawAndParsedView { raw: raw@, parsed }),
                    commit: None,
                },
            )
        },
        Msg::OnFocus => (s.with_focus(true), quiet(true)),
        Msg::OnBlur => (
            s.with_focus(false),
            UpdateOutcomeView { render: true, input_changed: None, commit: commit_of(s.parsed) },
        ),
        Msg::SendValueIfValid => (
            s,
            UpdateOutcomeView { render: false, input_changed: None, commit: commit_of(s.parsed) },
        ),
        Msg::Ignore => (s, quiet(false)),
    }
}

/// The field's text after handling `msg`, given the text before.
pub open spec fn shown_after(shown: Seq<char>, msg: Msg) -> Seq<char> {
    match msg {
        Msg::NewValue(raw) => raw@,
        _ => shown,
    }
}

/// One mounted typed input field: it handles the field's messages against
/// the storage it was created with.
pub struct TypedInput {
    raw_value_copy: String,
}

impl View for TypedInput {
    type V = Seq<char>;

    closed spec fn view(&self) -> Seq<char> {
        self.raw_value_copy@
    }
}

impl TypedInput {
    /// A field showing the storage's text; the storage is linked to it.
    pub fn create<T: TextValue>(storage: &mut TypedInputStorage<T>) -> (r: TypedInput)
        ensures
            r@ == old(storage)@.raw,
            final(storage)@ == old(storage)@.with_link(),
    {
        let raw_value_copy = storage.raw_and_parsed.raw_value.clone();
        storage.set_link();
        TypedInput { raw_value_copy }
    }

    /// The text the field shows.
    pub fn raw_value(&self) -> (r: &str)
        ensures
            r@ == self@,
    {
        self.raw_value_copy.as_str()
    }

    /// Takes over the storage's text, for instance after a value was pushed
    /// into it from outside.
    pub fn sync<T: TextValue>(&mut self, storage: &TypedInputStorage<T>)
        ensures
            final(self)@ == storage@.raw,
    {
        self.raw_value_copy = storage.raw_and_parsed.raw_value.clone();
    }

    fn send_value_if_valid<T: TextValue>(storage: &TypedInputStorage<T>) -> (r: Option<T>)
        ensures
            r == commit_of(storage@.parsed),
    {
        match &storage.raw_and_parsed.parsed {
            Ok(value) => Some(value.copy_value()),
            Err(_) => None,
        }
    }

    /// Handles one message of the field: see `handle`.
    pub fn update<T: TextValue>(&mut self, storage: &mut TypedInputStorage<T>, msg: Msg) -> (r:
        UpdateOutcome<T>)
        ensures
            (final(storage)@, r@) == handle(old(storage)@, msg),
            final(self)@ == shown_after(old(self)@, msg),
            final(storage).wf(),
    {
        proof {
            use_type_invariant(&storage.raw_and_parsed);
        }
        match msg {
            Msg::NewValue(raw_value) => {
                self.raw_value_copy = raw_value.clone();
                let raw_and_parsed = RawAndParsed::<T>::from_raw(raw_value);
                let changed = raw_and_parsed.copy();
                storage.raw_and_parsed = raw_and_parsed;
                UpdateOutcome { render: true, input_changed: Some(changed), commit: None }
            },
            Msg::OnFocus => {
                storage.focus_state.state = FocusState::IsFocused;
                UpdateOutcome { render: true, input_changed: None, commit: None }
            },
            Msg::OnBlur => {
                storage.focus_state.state = FocusState::IsBlurred;
                let commit = Self::send_value_if_valid(storage);
                UpdateOutcome { render: true, input_changed: None, commit }
            },
            Msg::SendValueIfValid => {
                let commit = Self::send_value_if_valid(storage);
                UpdateOutcome { render: false, input_changed: None, commit }
            },
            Msg::Ignore => UpdateOutcome { render: false, input_changed: None, commit: None },
        }
    }

    /// The style class of the field: whether its text parses.
    pub fn input_class<T: TextValue>(storage: &TypedInputStorage<T>) -> (r: &'static str)
        ensures
            storage@.parsed is Ok ==> r@ == "valid-input"@,
            storage@.parsed is Err ==> r@ == "invalid-input"@,
    {
        match &storage.raw_and_parsed.parsed {
            Ok(_) => "valid-input",
            Err(_) => "invalid-input",
        }
    }
}

/// When the storage holds a valid `v`, `modify(f)` hands out the text of a
/// value `w` that `f` gives for `v`. Handled by the linked field, that
/// message leaves `w` and its text in the storage, provided the text parses
/// back to `w` (for `i64` it always does: `lemma_i64_round_trip`), and
/// reports exactly one input change, carrying that text and `w`, and no
/// commit.
pub proof fn lemma_modify_reaches_input_observers<T: TextValue, F: Fn(T) -> T>(
    s: StorageView<T>,
    f: F,
    v: T,
    w: T,
    msg: Msg,
)
    requires
        s.parsed == Ok::<T, TypedInputParseError>(v),
        f.ensures((v,), w),
        new_value_text(msg) == Some(T::format_spec(w)),
        round_trips(w),
    ensures
        handle(s, msg).0 == s.with_text(T::format_spec(w), Ok(w)),
        handle(s, msg).1.input_changed == Some(
            RawAndParsedView { raw: T::format_spec(w), parsed: Ok::<T, TypedInputParseError>(w) },
        ),
        handle(s, msg).1.commit is None,
{
}

/// A keystroke never commits. Losing focus right after it commits the value
/// that the keystroke's text parses to, and nothing where the text does not
/// parse.
pub proof fn lemma_blur_commits_last_keystroke<T: TextValue>(s: StorageView<T>, raw: String)
    ensures
        handle(s, Msg::NewValue(raw)).1.commit is None,
        handle(handle(s, Msg::NewValue(raw)).0, Msg::OnBlur).1.commit == commit_of(
            T::parse_spec(raw@),
        ),
{
}

/// The storage after handling each of `msgs` in turn.
pub open spec fn handle_all<T: TextValue>(s: StorageView<T>, msgs: Seq<Msg>) -> StorageView<T>
    decreases msgs.len(),
{
    if msgs.len() == 0 {
        s
    } else {
        handle(handle_all(s, msgs.drop_last()), msgs.last()).0
    }
}

/// Handling messages and pushing values never change a storage's focus
/// identity: storages with distinct focus cells stay unequal after any
/// messages, and after a value pushed into each (as `set_if_not_focused`
/// does when blurred) on top of those.
pub proof fn lemma_storages_stay_distinct<T: TextValue>(
    a: StorageView<T>,
    b: StorageView<T>,
    msgs_a: Seq<Msg>,
    msgs_b: Seq<Msg>,
    pushed_a: T,
    pushed_b: T,
)
    requires
        a.focus_id != b.focus_id,
    ensures
        !handle_all(a, msgs_a).same_as(handle_all(b, msgs_b)),
        !handle_all(a, msgs_a).with_text(T::format_spec(pushed_a), Ok(pushed_a)).same_as(
            handle_all(b, msgs_b).with_text(T::format_spec(pushed_b), Ok(pushed_b)),
        ),
{
    lemma_handle_all_keeps_identity(a, msgs_a);
    lemma_handle_all_keeps_identity(b, msgs_b);
}

proof fn lemma_handle_all_keeps_identity<T: TextValue>(s: StorageView<T>, msgs: Seq<Msg>)
    ensures
        handle_all(s, msgs).focus_id == s.focus_id,
    decreases msgs.len(),
{
    if msgs.len() > 0 {
        lemma_handle_all_keeps_identity(s, msgs.drop_last());
    }
}

/// Two storages whose focus cells one `FocusIds` handed out at different
/// times (the first before `ids` was seen, the second after) are never
/// equal, whatever text they hold.
pub proof fn lemma_independent_storages_never_equal<T: TextValue>(
    earlier: TypedInputStorage<T>,
    ids: FocusIds,
    later: TypedInputStorage<T>,
)
    requires
        ids.issued().contains(earlier@.focus_id),
        !ids.issued().contains(later@.focus_id),
    ensures
        !earlier@.same_as(later@),
        !earlier.eq_spec(&later),
{
}

} // verus!
