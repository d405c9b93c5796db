//! A category: the ordered splits of one kind of run.

use vstd::prelude::*;
use vstd::string::*;
use std::path::PathBuf;
use crate::run::split::{new_unique_id, Split};
use crate::{Error, Stored, Written};

verus! {

#[derive(Clone, Debug)]
pub struct Category {
    pub uuid: String,
    pub name: String,
    pub icon_path: Option<PathBuf>,
    pub splits: Vec<Split>,
}

impl Category {
    /// A category without picture and without splits.
    pub fn new(uuid: String, name: String) -> (category: Self)
        ensures
            category.uuid == uuid,
            category.name == name,
            category.icon_path is None,
            category.splits@ == Seq::<Split>::empty(),
    {
        Category { uuid, name, icon_path: None, splits: Vec::new() }
    }

    /// The file of the category with the id `uuid`, below the directory
    /// `config_path`.
    pub open spec fn spec_file(config_path: Seq<char>, uuid: Seq<char>) -> Seq<char> {
        config_path + "/categories/"@ + uuid + ".json"@
    }

    pub open spec fn not_found(config_path: Seq<char>, uuid: Seq<char>) -> Seq<char> {
        "Could not load category with uuid "@ + uuid + ". File not found: \""@ + Self::spec_file(
            config_path,
            uuid,
        ) + "\""@
    }

    pub open spec fn not_parsed(config_path: Seq<char>, uuid: Seq<char>) -> Seq<char> {
        "Could not parse category json file: \""@ + Self::spec_file(config_path, uuid) + "\""@
    }

    pub open spec fn not_serialized(self) -> Seq<char> {
        "Could not serialize category "@ + self.name@ + " with uuid "@ + self.uuid@
    }

    pub open spec fn not_saved(self, config_path: Seq<char>) -> Seq<char> {
        "Could not save category "@ + self.name@ + " with uuid "@ + self.uuid@ + " on path \""@
            + Self::spec_file(config_path, self.uuid@) + "\""@
    }

    /// The file of the category with the id `uuid`.
    pub fn file(config_path: &str, uuid: &str) -> (path: String)
        ensures
            path@ == Self::spec_file(config_path@, uuid@),
    {
        let mut path: String = config_path.to_string();
        path.append("/categories/");
        path.append(uuid);
        path.append(".json");
        path
    }

    /// What comes of looking for the category with the id `uuid` in storage:
    /// the category that was found, or the report that its file could not be
    /// read or not be understood.
    pub fn load(config_path: &str, uuid: &str, stored: Stored<Category>) -> (result: Result<
        Self,
        Error,
    >)
        ensures
            match stored {
                Stored::Found(category) => result == Ok::<Category, Error>(category),
                Stored::Missing => result matches Err(e) && e.message() == Some(
                    Self::not_found(config_path@, uuid@),
                ),
                Stored::Malformed => result matches Err(e) && e.message() == Some(
                    Self::not_parsed(config_path@, uuid@),
                ),
            },
    {
        match stored {
            Stored::Found(category) => Ok(category),
            Stored::Missing => {
                let mut text: String = "Could not load category with uuid ".to_string();
                text.append(uuid);
                text.append(". File not found: \"");
                text.append(Self::file(config_path, uuid).as_str());
                text.append("\"");
                Err(Error::Error(text))
            },
            Stored::Malformed => {
                let mut text: String = "Could not parse category json file: \"".to_string();
                text.append(Self::file(config_path, uuid).as_str());
                text.append("\"");
                Err(Error::Error(text))
            },
        }
    }

    /// What comes of putting the category into storage: nothing to report,
    /// or the report that it could not be turned into text or not be written.
    pub fn save(&self, config_path: &str, written: Written) -> (result: Result<(), Error>)
        ensures
            match written {
                Written::Done => result is Ok,
                Written::NotSerialized => result matches Err(e) && e.message() == Some(
                    self.not_serialized(),
                ),
                Written::NotWritten => result matches Err(e) && e.message() == Some(
                    self.not_saved(config_path@),
                ),
            },
    {
        match written {
            Written::Done => Ok(()),
            Written::NotSerialized => {
                let mut text: String = "Could not serialize category ".to_string();
                text.append(self.name.as_str());
                text.append(" with uuid ");
                text.append(self.uuid.as_str());
                Err(Error::Error(text))
            },
            Written::NotWritten => {
                let mut text: String = "Could not save category ".to_string();
                text.append(self.name.as_str());
                text.append(" with uuid ");
                text.append(self.uuid.as_str());
                text.append(" on path \"");
                text.append(Self::file(config_path, self.uuid.as_str()).as_str());
                text.append("\"");
                Err(Error::Error(text))
            },
        }
    }

    pub fn change_name(&mut self, new_name: &str)
        ensures
            final(self).name@ == new_name@,
            final(self).uuid == old(self).uuid,
            final(self).icon_path == old(self).icon_path,
            final(self).splits == old(self).splits,
    {
        self.name = new_name.to_string();
    }

    /// The splits with their pictures taken off.
    pub open spec fn without_icons(splits: Seq<Split>) -> Seq<Split> {
        Seq::new(splits.len(), |i: int| Split { icon_path: None, ..splits[i] })
    }

    /// Takes the picture off every split. The category's own picture stays.
    pub fn clear_icon_path(&mut self)
        ensures
            final(self).splits@ == Self::without_icons(old(self).splits@),
            final(self).uuid == old(self).uuid,
            final(self).name == old(self).name,
            final(self).icon_path == old(self).icon_path,
    {
        let n: usize = self.splits.len();
        let mut i: usize = 0;
        while i < n
            invariant
                i <= n,
                n == self.splits.len(),
                n == old(self).splits.len(),
                self.uuid == old(self).uuid,
                self.name == old(self).name,
                self.icon_path == old(self).icon_path,
                forall|j: int|
                    0 <= j < i ==> self.splits[j] == (Split {
                        icon_path: None,
                        ..old(self).splits[j]
                    }),
                forall|j: int| i <= j < n ==> self.splits[j] == old(self).splits[j],
            decreases n - i,
        {
            self.splits[i].clear_icon_path();
            i += 1;
        }
    }

    /// The splits `before` with an id on each: a split that had one has kept
    /// it, and nothing else has changed.
    pub open spec fn identified(before: Seq<Split>, after: Seq<Split>) -> bool {
        &&& after.len() == before.len()
        &&& forall|i: int|
            0 <= i < before.len() ==> {
                &&& (#[trigger] after[i]).uuid is Some
                &&& after[i] == (Split { uuid: after[i].uuid, ..before[i] })
                &&& before[i].uuid is Some ==> after[i].uuid == before[i].uuid
            }
    }

    /// Gives a new id to every split that has none.
    pub fn fill_ids(&mut self)
        ensures
            Self::identified(old(self).splits@, final(self).splits@),
            *final(self) == (Category { splits: final(self).splits, ..*old(self) }),
    {
        let n: usize = self.splits.len();
        let mut i: usize = 0;
        while i < n
            invariant
                i <= n,
                n == self.splits.len(),
                n == old(self).splits.len(),
                *self == (Category { splits: self.splits, ..*old(self) }),
                forall|j: int|
                    0 <= j < i ==> {
                        &&& (#[trigger] self.splits[j]).uuid is Some
                        &&& self.splits[j] == (Split {
                            uuid: self.splits[j].uuid,
                            ..old(self).splits[j]
                        })
                        &&& old(self).splits[j].uuid is Some ==> self.splits[j].uuid == old(
                            self,
                        ).splits[j].uuid
                    },
                forall|j: int| i <= j < n ==> self.splits[j] == old(self).splits[j],
            decreases n - i,
        {
            if self.splits[i].uuid.is_none() {
                self.splits[i].uuid = Some(new_unique_id());
            }
            i += 1;
        }
    }

    /// Puts `splits` behind the splits of the category, in their order.
    pub fn save_splits(&mut self, splits: Vec<Split>)
        ensures
            final(self).splits@ == old(self).splits@ + splits@,
            final(self).uuid == old(self).uuid,
            final(self).name == old(self).name,
            final(self).icon_path == old(self).icon_path,
    {
        let mut splits = splits;
        self.splits.append(&mut splits);
    }
}

impl Default for Category {
    /// A category without id, name, picture and splits.
    fn default() -> (category: Self)
        ensures
            category.uuid@.len() == 0,
            category.name@.len() == 0,
            category.icon_path is None,
            category.splits@.len() == 0,
    {
        Category::new(String::new(), String::new())
    }
}

/// An id as text.
pub open spec fn id_text(id: Option<String>) -> Option<Seq<char>> {
    match id {
        Some(text) => Some(text@),
        None => None,
    }
}

/// The id of a split, as text.
pub open spec fn id_of(split: Split) -> Option<Seq<char>> {
    id_text(split.uuid)
}

/// How many splits stand in front of the first one with the id `id`; all of
/// them where none has it.
pub open spec fn place_of(splits: Seq<Split>, id: Option<Seq<char>>) -> nat
    decreases splits.len(),
{
    if splits.len() == 0 || id_of(splits[0]) == id {
        0
    } else {
        1 + place_of(splits.drop_first(), id)
    }
}

/// The place found is a place of the table or the one behind its last; if
/// it is in the table, the split there has the id, and none in front of it
/// has.
pub proof fn law_place_of(splits: Seq<Split>, id: Option<Seq<char>>)
    ensures
        place_of(splits, id) <= splits.len(),
        place_of(splits, id) < splits.len() ==> id_of(splits[place_of(splits, id) as int]) == id,
        forall|i: int| 0 <= i < place_of(splits, id) ==> id_of(#[trigger] splits[i]) != id,
    decreases splits.len(),
{
    if splits.len() == 0 || id_of(splits[0]) == id {
    } else {
        let rest = splits.drop_first();
        law_place_of(rest, id);
        assert forall|i: int| 0 <= i < place_of(splits, id) implies id_of(#[trigger] splits[i])
            != id by {
            if i > 0 {
                assert(splits[i] == rest[i - 1]);
            }
        }
    }
}

fn same_id(a: &Option<String>, b: &Option<String>) -> (same: bool)
    ensures
        same == (id_text(*a) == id_text(*b)),
{
    match a {
        Some(x) => match b {
            Some(y) => *x == *y,
            None => false,
        },
        None => b.is_none(),
    }
}

/// The place of the first split with the id `id`; the number of the splits
/// where none has it.
pub fn find_split(splits: &Vec<Split>, id: &Option<String>) -> (place: usize)
    ensures
        place == place_of(splits@, id_text(*id)),
        place <= splits.len(),
{
    let ghost wanted: Option<Seq<char>> = id_text(*id);
    let n: usize = splits.len();
    let mut i: usize = 0;
    assert(splits@.skip(0) =~= splits@);
    while i < n
        invariant
            i <= n,
            n == splits.len(),
            wanted == id_text(*id),
            place_of(splits@, wanted) == i + place_of(splits@.skip(i as int), wanted),
        decreases n - i,
    {
        if same_id(&splits[i].uuid, id) {
            return i;
        }
        assert(splits@.skip(i as int).drop_first() =~= splits@.skip(i + 1));
        i += 1;
    }
    n
}

/// What a game keeps of each of its categories.
#[derive(Clone, Debug)]
pub struct SmallCategory {
    pub uuid: String,
    pub name: String,
}

impl SmallCategory {
    pub fn change_name(&mut self, new_name: &str)
        ensures
            final(self).name@ == new_name@,
            final(self).uuid == old(self).uuid,
    {
        self.name = new_name.to_string();
    }
}

} // verus!
