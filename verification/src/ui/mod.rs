//! The state behind the windows, and what the windows decide.

use vstd::prelude::*;

pub mod counter;
pub mod functions;
pub mod hitsplit;
pub mod panels;

verus! {

/// Whose picture the open file dialog is choosing.
#[derive(Clone, Debug, Eq, PartialEq, PartialOrd, Ord)]
pub enum ChangeImage {
    Game,
    Category,
    /// The split with this id.
    Split(String),
}

} // verus!
