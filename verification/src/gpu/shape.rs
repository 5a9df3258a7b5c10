//! Built-in geometry by name.

use vstd::prelude::*;

verus! {

/// The kinds of built-in geometry.
#[derive(Clone, Copy, Debug, PartialEq, Eq, PartialOrd, Ord, Hash)]
pub enum Shape {
    Rectangle,
}

} // verus!
