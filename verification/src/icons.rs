//! Names for the control-button icons the application ships.
//!
//! Mapping an icon name to actual image data is asset loading and lives with
//! the application shell.

use vstd::prelude::*;

verus! {

/// The icon drawn on each control button.
#[derive(Clone, Copy, Debug, PartialEq, Eq, Structural)]
pub enum SvgIcon {
    Close,
    Minimize,
    Maximize,
}

} // verus!
