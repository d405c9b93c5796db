//! The pages of the manager window.

use vstd::prelude::*;

pub mod list;

verus! {

#[derive(Clone, Copy, Debug, Eq, PartialEq, Structural)]
pub enum Pages {
    List,
    Settings,
}

} // verus!
