//! One checkpoint of a category.

use vstd::prelude::*;
use std::path::PathBuf;
use crate::run::span::TimeSpan;

verus! {

/// A path in the file system. It is kept and handed on; nothing here looks
/// into it.
#[verifier::external_type_specification]
#[verifier::external_body]
pub struct ExPathBuf(std::path::PathBuf);

/// `Uuid::new_v4`, written out with hyphens: an id that is made at random.
/// Each call gives another id, so nothing is stated of the result.
#[verifier::external_body]
pub(crate) fn new_unique_id() -> String {
    uuid::Uuid::new_v4().to_string()
}

/// A checkpoint: its hits in the current attempt, the hits of the best
/// attempt, and the time spent on it.
#[derive(Clone, Debug)]
pub struct Split {
    pub uuid: Option<String>,
    pub icon_path: Option<PathBuf>,
    pub name: String,
    pub hits: u16,
    pub pb: u16,
    pub real_time: TimeSpan,
}

impl Split {
    /// A split with no name, no picture, no hits and no time.
    pub open spec fn is_blank(self, uuid: Option<String>) -> bool {
        &&& self.uuid == uuid
        &&& self.icon_path is None
        &&& self.name@ == Seq::<char>::empty()
        &&& self.hits == 0
        &&& self.pb == 0
        &&& self.real_time@ == 0
    }

    pub fn new(uuid: Option<String>) -> (split: Self)
        ensures
            split.is_blank(uuid),
    {
        Self {
            uuid,
            icon_path: None,
            name: String::new(),
            hits: 0,
            pb: 0,
            real_time: TimeSpan::zero(),
        }
    }

    /// Takes the picture off the split.
    pub fn clear_icon_path(&mut self)
        ensures
            *final(self) == (Split { icon_path: None, ..*old(self) }),
    {
        self.icon_path = None;
    }
}

impl Default for Split {
    fn default() -> (split: Self)
        ensures
            split.is_blank(None),
    {
        Split::new(None)
    }
}

} // verus!
