//! The colours of the interface, by name.

use vstd::prelude::*;

verus! {

/// A colour of the toolkit's palette, by its name there. The interface paints
/// with these and no others.
#[derive(Clone, Copy, Debug, PartialEq, Eq)]
pub enum Color {
    Black,
    White,
    DarkCharcoal,
    LightCharcoal,
    LightBlue,
    Orange,
    Purple,
}

} // verus!
