//! Units as the backend reports them.

use vstd::prelude::*;

verus! {

/// Whether a unit is started automatically.
///
/// The init system knows more states than the two that can be toggled
/// (static, masked, indirect, ...). They are all `Other` here: such a unit
/// can be listed, started and stopped, but has nothing to toggle.
#[derive(Clone, Copy, Debug, PartialEq, Eq, Structural)]
pub enum UnitState {
    Enabled,
    Disabled,
    Other,
}

/// One unit of the catalog: the name of its file, directory and extension
/// included, and its state when the catalog was read.
#[derive(Clone, Debug, PartialEq, Eq)]
pub struct UnitDescriptor {
    pub name: String,
    pub state: UnitState,
}

} // verus!
