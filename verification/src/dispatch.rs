//! What a click asks of the backend, and what its answer does to the row.
//!
//! A row has up to three buttons. Start and Stop each stand for one backend
//! operation. The toggle stands for two, and its label says which: a toggle
//! that reads `Disable` belongs to an enabled unit and disables it, a toggle
//! with any other label enables it. The label is the only record of the
//! unit's state that the interface keeps, so it changes only when the
//! backend has reported success.
//!
//! A click is handled in two steps around the backend call, which the
//! caller makes: `clicked` says what to call, and `completed` says what to
//! do with the reply.

use vstd::prelude::*;
use vstd::utf8::{encode_utf8, encode_utf8_decode_utf8};
use crate::unit::UnitState;
use crate::unit_name::{file_name, rm_directory_path};

verus! {

/// Label of the toggle of an enabled unit.
pub const DISABLE_LABEL: &'static str = "Disable";

/// Label of the toggle of a disabled unit, padded to the width of the other.
pub const ENABLE_LABEL: &'static str = " Enable";

/// The buttons that a row can have.
#[derive(Clone, Copy, Debug, PartialEq, Eq, Structural)]
pub enum Control {
    Toggle,
    Start,
    Stop,
}

/// The four operations that the backend offers on a unit.
#[derive(Clone, Copy, Debug, PartialEq, Eq, Structural)]
pub enum Operation {
    Enable,
    Disable,
    Start,
    Stop,
}

/// A call to make: the operation, and the unit's file name without its
/// directory.
#[derive(Clone, Debug, PartialEq, Eq)]
pub struct BackendCall {
    pub operation: Operation,
    pub unit: String,
}

/// What the interface does once the backend has answered.
#[derive(Clone, Debug, PartialEq, Eq)]
pub enum Effect {
    /// Give the button that was clicked this label.
    SetLabel(String),
    /// Present this message, the backend's own, as an error.
    ShowError(String),
    /// Leave everything as it is.
    Nothing,
}

/// An `Effect` with texts in place of strings.
pub enum EffectView {
    SetLabel(Seq<char>),
    ShowError(Seq<char>),
    Nothing,
}

impl View for Effect {
    type V = EffectView;

    open spec fn view(&self) -> EffectView {
        match self {
            Effect::SetLabel(label) => EffectView::SetLabel(label@),
            Effect::ShowError(message) => EffectView::ShowError(message@),
            Effect::Nothing => EffectView::Nothing,
        }
    }
}

/// The text of a string that may be absent.
pub open spec fn text_of(string: Option<String>) -> Option<Seq<char>> {
    match string {
        Some(s) => Some(s@),
        None => None,
    }
}

/// The label that a toggle starts with, for the states that can be toggled.
pub open spec fn initial_label(state: UnitState) -> Option<Seq<char>> {
    match state {
        UnitState::Enabled => Some(DISABLE_LABEL@),
        UnitState::Disabled => Some(ENABLE_LABEL@),
        UnitState::Other => None,
    }
}

/// The operation behind `control` when the button shows `label`. Only the
/// toggle goes by its label.
pub open spec fn operation_of(control: Control, label: Seq<char>) -> Operation {
    match control {
        Control::Toggle => if label == DISABLE_LABEL@ {
            Operation::Disable
        } else {
            Operation::Enable
        },
        Control::Start => Operation::Start,
        Control::Stop => Operation::Stop,
    }
}

/// What follows from the backend's reply to `operation`. A reply without a
/// message is success.
pub open spec fn effect_of(operation: Operation, reply: Option<Seq<char>>) -> EffectView {
    match reply {
        Some(message) => EffectView::ShowError(message),
        None => match operation {
            Operation::Enable => EffectView::SetLabel(DISABLE_LABEL@),
            Operation::Disable => EffectView::SetLabel(ENABLE_LABEL@),
            Operation::Start | Operation::Stop => EffectView::Nothing,
        },
    }
}

/// The label of a button after `effect`, where it showed `label` before.
pub open spec fn label_after(label: Seq<char>, effect: EffectView) -> Seq<char> {
    match effect {
        EffectView::SetLabel(next) => next,
        EffectView::ShowError(_) | EffectView::Nothing => label,
    }
}

/// A toggle that reads `Disable` disables, and if the backend reports
/// success it reads ` Enable` afterwards. If the backend reports an error,
/// that message is shown as it came and the label stays.
pub proof fn lemma_toggle_disables(label: Seq<char>, reply: Option<Seq<char>>)
    requires
        label == "Disable"@,
    ensures
        operation_of(Control::Toggle, label) == Operation::Disable,
        reply is None ==> effect_of(Operation::Disable, reply) == EffectView::SetLabel(
            " Enable"@,
        ),
        reply is None ==> label_after(label, effect_of(Operation::Disable, reply)) == " Enable"@,
        reply is Some ==> effect_of(Operation::Disable, reply) == EffectView::ShowError(reply->0),
        reply is Some ==> label_after(label, effect_of(Operation::Disable, reply)) == label,
{
}

/// A toggle with any label but `Disable` enables, and if the backend
/// reports success it reads `Disable` afterwards. If the backend reports an
/// error, that message is shown as it came and the label stays.
pub proof fn lemma_toggle_enables(label: Seq<char>, reply: Option<Seq<char>>)
    requires
        label != "Disable"@,
    ensures
        operation_of(Control::Toggle, label) == Operation::Enable,
        reply is None ==> effect_of(Operation::Enable, reply) == EffectView::SetLabel("Disable"@),
        reply is None ==> label_after(label, effect_of(Operation::Enable, reply)) == "Disable"@,
        reply is Some ==> effect_of(Operation::Enable, reply) == EffectView::ShowError(reply->0),
        reply is Some ==> label_after(label, effect_of(Operation::Enable, reply)) == label,
{
}

/// Start and Stop set no label, whatever the button shows and whatever the
/// backend replies: every label in the row stays as it is.
pub proof fn lemma_start_stop_keep_label(
    control: Control,
    shown: Seq<char>,
    label: Seq<char>,
    reply: Option<Seq<char>>,
)
    requires
        control == Control::Start || control == Control::Stop,
    ensures
        !(effect_of(operation_of(control, shown), reply) is SetLabel),
        label_after(label, effect_of(operation_of(control, shown), reply)) == label,
{
}

/// The two labels differ, so a toggle that succeeded asks for the opposite
/// operation at the next click.
pub proof fn lemma_toggle_alternates(label: Seq<char>)
    ensures
        DISABLE_LABEL@ != ENABLE_LABEL@,
        operation_of(
            Control::Toggle,
            label_after(label, effect_of(operation_of(Control::Toggle, label), None)),
        ) != operation_of(Control::Toggle, label),
{
    reveal_strlit("Disable");
    reveal_strlit(" Enable");
    assert(DISABLE_LABEL@[0] != ENABLE_LABEL@[0]);
}

/// A new toggle offers the operation that changes the unit's state:
/// disabling for an enabled unit, enabling for a disabled one.
pub proof fn lemma_initial_label_fits_state(state: UnitState)
    ensures
        state == UnitState::Enabled ==> initial_label(state) is Some && operation_of(
            Control::Toggle,
            initial_label(state)->0,
        ) == Operation::Disable,
        state == UnitState::Disabled ==> initial_label(state) is Some && operation_of(
            Control::Toggle,
            initial_label(state)->0,
        ) == Operation::Enable,
        state == UnitState::Other ==> initial_label(state) is None,
{
    lemma_toggle_alternates(DISABLE_LABEL@);
}

/// Whether `a` and `b` are the same text. Texts are equal exactly where
/// their UTF-8 encodings are, so the bytes are compared.
fn same_text(a: &str, b: &str) -> (same: bool)
    ensures
        same == (a@ == b@),
{
    let left = a.as_bytes();
    let right = b.as_bytes();
    proof {
        encode_utf8_decode_utf8(a@);
        encode_utf8_decode_utf8(b@);
    }
    if left.len() != right.len() {
        return false;
    }
    let mut index: usize = 0;
    while index < left.len()
        invariant
            index <= left@.len(),
            left@.len() == right@.len(),
            left@.take(index as int) == right@.take(index as int),
            left@ == encode_utf8(a@),
            right@ == encode_utf8(b@),
        decreases left@.len() - index,
    {
        if left[index] != right[index] {
            return false;
        }
        assert(left@.take(index + 1) == left@.take(index as int).push(left@[index as int]));
        assert(right@.take(index + 1) == right@.take(index as int).push(right@[index as int]));
        index = index + 1;
    }
    assert(left@ == left@.take(index as int) && right@ == right@.take(index as int));
    true
}

/// The label of a new row's toggle: `Disable` for an enabled unit,
/// ` Enable` for a disabled one. A unit in any other state gets no toggle.
pub fn initial_toggle_label(state: UnitState) -> (label: Option<String>)
    ensures
        text_of(label) == initial_label(state),
        state == UnitState::Enabled ==> text_of(label) == Some("Disable"@),
        state == UnitState::Disabled ==> text_of(label) == Some(" Enable"@),
        state == UnitState::Other ==> label is None,
{
    match state {
        UnitState::Enabled => Some(DISABLE_LABEL.to_owned()),
        UnitState::Disabled => Some(ENABLE_LABEL.to_owned()),
        UnitState::Other => None,
    }
}

/// The button `control` was clicked while it showed `label`, in the row of
/// the unit whose file is `unit_file`.
///
/// The call to make names the unit by its file name without directory. A
/// toggle disables if it reads `Disable` and enables otherwise; Start
/// starts and Stop stops, whatever they show.
pub fn clicked(control: Control, label: &str, unit_file: &str) -> (call: BackendCall)
    ensures
        call.operation == operation_of(control, label@),
        control == Control::Toggle && label@ == "Disable"@ ==> call.operation
            == Operation::Disable,
        control == Control::Toggle && label@ != "Disable"@ ==> call.operation
            == Operation::Enable,
        call.unit@ == file_name(unit_file@),
        !call.unit@.contains('/'),
{
    let operation = match control {
        Control::Toggle => if same_text(label, DISABLE_LABEL) {
            Operation::Disable
        } else {
            Operation::Enable
        },
        Control::Start => Operation::Start,
        Control::Stop => Operation::Stop,
    };
    BackendCall { operation, unit: rm_directory_path(unit_file) }
}

/// The backend has answered `operation` with `reply`: an error message, or
/// nothing where it succeeded.
///
/// A message is shown as it came and nothing else happens. On success a
/// toggle takes the label of the opposite operation; Start and Stop leave
/// no trace.
pub fn completed(operation: Operation, reply: Option<String>) -> (effect: Effect)
    ensures
        effect@ == effect_of(operation, text_of(reply)),
{
    match reply {
        Some(message) => Effect::ShowError(message),
        None => match operation {
            Operation::Enable => Effect::SetLabel(DISABLE_LABEL.to_owned()),
            Operation::Disable => Effect::SetLabel(ENABLE_LABEL.to_owned()),
            Operation::Start => Effect::Nothing,
            Operation::Stop => Effect::Nothing,
        },
    }
}

} // verus!
