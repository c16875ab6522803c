//! What the window lists, top to bottom.
//!
//! The catalog is shown in three sections, one for each kind of unit that
//! can be toggled. Which units belong to a section is the backend's
//! knowledge; the caller asks it and passes the units of each section in
//! the order in which they came.

use vstd::prelude::*;
use crate::dispatch::{initial_label, initial_toggle_label, Control};
use crate::unit::{UnitDescriptor, UnitState};
use crate::unit_name::{display_name, get_unit_name};

verus! {

/// The three sections, in the order in which they are shown.
#[derive(Clone, Copy, Debug, PartialEq, Eq, Structural)]
pub enum Section {
    Services,
    Sockets,
    Timers,
}

/// Title of the section of services.
pub const SERVICES_TITLE: &'static str = "Services (Activate on Startup)";

/// Title of the section of sockets.
pub const SOCKETS_TITLE: &'static str = "Sockets (Activate On Use)";

/// Title of the section of timers.
pub const TIMERS_TITLE: &'static str = "Timers (Activate Periodically)";

/// Label of the button that starts a unit.
pub const START_LABEL: &'static str = "Start";

/// Label of the button that stops a unit.
pub const STOP_LABEL: &'static str = "Stop";

/// A button of a row: what it stands for and what it reads at first.
#[derive(Clone, Debug, PartialEq, Eq)]
pub struct Button {
    pub control: Control,
    pub label: String,
}

/// A `Button` with a text in place of its string.
pub struct ButtonView {
    pub control: Control,
    pub label: Seq<char>,
}

impl View for Button {
    type V = ButtonView;

    open spec fn view(&self) -> ButtonView {
        ButtonView { control: self.control, label: self.label@ }
    }
}

/// One row: a unit's name to the left, its buttons in a cluster to the
/// right.
#[derive(Clone, Debug, PartialEq, Eq)]
pub struct UnitRow {
    /// The unit's file name as the backend gave it; the click handlers
    /// take it as it is.
    pub unit_file: String,
    /// The text of the row's label.
    pub display_name: String,
    /// The row's buttons, from left to right.
    pub buttons: Vec<Button>,
}

/// A `UnitRow` with texts in place of strings.
pub struct UnitRowView {
    pub unit_file: Seq<char>,
    pub display_name: Seq<char>,
    pub buttons: Seq<ButtonView>,
}

impl View for UnitRow {
    type V = UnitRowView;

    open spec fn view(&self) -> UnitRowView {
        UnitRowView {
            unit_file: self.unit_file@,
            display_name: self.display_name@,
            buttons: self.buttons@.map_values(|button: Button| button@),
        }
    }
}

/// One thing in a section's list.
#[derive(Clone, Debug, PartialEq, Eq)]
pub enum Entry {
    /// A horizontal line.
    Separator,
    /// The section's title.
    Header(String),
    /// The row of one unit.
    Unit(UnitRow),
}

/// An `Entry` with texts in place of strings.
pub enum EntryView {
    Separator,
    Header(Seq<char>),
    Unit(UnitRowView),
}

impl View for Entry {
    type V = EntryView;

    open spec fn view(&self) -> EntryView {
        match self {
            Entry::Separator => EntryView::Separator,
            Entry::Header(title) => EntryView::Header(title@),
            Entry::Unit(row) => EntryView::Unit(row@),
        }
    }
}

impl Section {
    /// The text of the section's header.
    pub open spec fn spec_title(self) -> Seq<char> {
        match self {
            Section::Services => SERVICES_TITLE@,
            Section::Sockets => SOCKETS_TITLE@,
            Section::Timers => TIMERS_TITLE@,
        }
    }

    /// Whether this section stands at the top of the window, with nothing
    /// above it to be set apart from.
    pub open spec fn spec_is_first(self) -> bool {
        self == Section::Services
    }

    /// The text of the section's header.
    pub fn title(self) -> (title: String)
        ensures
            title@ == self.spec_title(),
    {
        match self {
            Section::Services => SERVICES_TITLE.to_owned(),
            Section::Sockets => SOCKETS_TITLE.to_owned(),
            Section::Timers => TIMERS_TITLE.to_owned(),
        }
    }

    /// Whether this section stands at the top of the window.
    pub fn is_first(self) -> (first: bool)
        ensures
            first == self.spec_is_first(),
    {
        match self {
            Section::Services => true,
            Section::Sockets => false,
            Section::Timers => false,
        }
    }
}

/// The buttons of a unit in `state`: Start and Stop, and before them the
/// toggle where the state can be toggled.
pub open spec fn buttons_of(state: UnitState) -> Seq<ButtonView> {
    let start_stop = seq![
        ButtonView { control: Control::Start, label: START_LABEL@ },
        ButtonView { control: Control::Stop, label: STOP_LABEL@ },
    ];
    match initial_label(state) {
        Some(label) => seq![ButtonView { control: Control::Toggle, label }] + start_stop,
        None => start_stop,
    }
}

/// The row of `unit`.
pub open spec fn row_of(unit: UnitDescriptor) -> UnitRowView {
    UnitRowView {
        unit_file: unit.name@,
        display_name: display_name(unit.name@),
        buttons: buttons_of(unit.state),
    }
}

/// What precedes the rows of `section`: a separator unless the section is
/// the first, then the header.
pub open spec fn section_head(section: Section) -> Seq<EntryView> {
    if section.spec_is_first() {
        seq![EntryView::Header(section.spec_title())]
    } else {
        seq![EntryView::Separator, EntryView::Header(section.spec_title())]
    }
}

/// The rows of `units` in their order, a separator before each.
pub open spec fn section_rows(units: Seq<UnitDescriptor>) -> Seq<EntryView> {
    Seq::new(
        2 * units.len(),
        |k: int|
            if k % 2 == 0 {
                EntryView::Separator
            } else {
                EntryView::Unit(row_of(units[k / 2]))
            },
    )
}

/// The list of `section` when it holds `units`.
pub open spec fn section_layout(section: Section, units: Seq<UnitDescriptor>) -> Seq<EntryView> {
    section_head(section) + section_rows(units)
}

/// In the list of a section a separator stands right before every row, and
/// the rows are those of the units, one for each, in the units' order.
pub proof fn lemma_rows_follow_separators(section: Section, units: Seq<UnitDescriptor>)
    ensures
        ({
            let head = section_head(section);
            let list = section_layout(section, units);
            &&& list.len() == head.len() + 2 * units.len()
            &&& forall|k: int|
                0 <= k < list.len() && #[trigger] list[k] is Unit ==> k > 0 && list[k
                    - 1] is Separator
            &&& forall|i: int|
                0 <= i < units.len() ==> list[head.len() + 2 * i + 1] == EntryView::Unit(
                    #[trigger] row_of(units[i]),
                )
        }),
{
    let head = section_head(section);
    let rows = section_rows(units);
    let list = section_layout(section, units);
    assert forall|k: int| 0 <= k < list.len() && #[trigger] list[k] is Unit implies k > 0 && list[k
        - 1] is Separator by {
        // A row is no part of the head, and in `rows` it stands at an odd place.
        let at = k - head.len();
        assert(list[k] == rows[at]);
        assert(list[k - 1] == rows[at - 1]);
    }
    assert forall|i: int| 0 <= i < units.len() implies list[head.len() + 2 * i + 1]
        == EntryView::Unit(#[trigger] row_of(units[i])) by {
        assert(list[head.len() + 2 * i + 1] == rows[2 * i + 1]);
    }
}

/// The entries of a list, each by its view.
pub open spec fn views(entries: Seq<Entry>) -> Seq<EntryView> {
    entries.map_values(|entry: Entry| entry@)
}

/// Builds the row of one unit: its file name for the click handlers, its
/// display name for the label, and its buttons. The toggle comes first and
/// reads what `initial_toggle_label` gives for the unit's state; a unit
/// that cannot be toggled has Start and Stop alone.
pub fn unit_row(unit: &UnitDescriptor) -> (row: UnitRow)
    ensures
        row@ == row_of(*unit),
{
    let mut buttons: Vec<Button> = Vec::new();
    match initial_toggle_label(unit.state) {
        Some(label) => {
            buttons.push(Button { control: Control::Toggle, label });
        },
        None => {},
    }
    buttons.push(Button { control: Control::Start, label: START_LABEL.to_owned() });
    buttons.push(Button { control: Control::Stop, label: STOP_LABEL.to_owned() });
    let row = UnitRow {
        unit_file: unit.name.clone(),
        display_name: get_unit_name(unit.name.as_str()),
        buttons,
    };
    assert(row@.buttons == buttons_of(unit.state));
    row
}

/// Lays out one section: its header, set apart by a separator from the
/// section above if there is one, then one row for each of `units`, in
/// their order, with a separator before each row.
pub fn section_entries(section: Section, units: &Vec<UnitDescriptor>) -> (entries: Vec<Entry>)
    ensures
        views(entries@) == section_layout(section, units@),
{
    let mut entries: Vec<Entry> = Vec::new();
    if !section.is_first() {
        entries.push(Entry::Separator);
    }
    entries.push(Entry::Header(section.title()));
    let mut index: usize = 0;
    while index < units.len()
        invariant
            index <= units@.len(),
            views(entries@) == section_head(section) + section_rows(units@.take(index as int)),
        decreases units@.len() - index,
    {
        let ghost before = views(entries@);
        entries.push(Entry::Separator);
        entries.push(Entry::Unit(unit_row(&units[index])));
        proof {
            let added = seq![EntryView::Separator, EntryView::Unit(row_of(units@[index as int]))];
            assert(views(entries@) == before + added);
            assert(section_rows(units@.take(index + 1)) == section_rows(
                units@.take(index as int),
            ) + added);
        }
        index = index + 1;
    }
    assert(units@.take(index as int) == units@);
    entries
}

} // verus!
