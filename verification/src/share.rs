//! Separators of the keyboard text format.
use vstd::prelude::*;

verus! {

/// Separates the rows of a keyboard text.
pub const ROW_SEP: char = ':';

/// Separates the buttons within one row of a keyboard text.
pub const BUTTON_SEP: char = ',';

} // verus!
