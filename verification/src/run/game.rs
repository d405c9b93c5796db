//! A game and the categories it lists.

use vstd::prelude::*;
use vstd::string::*;
use std::path::PathBuf;
use crate::run::category::{Category, SmallCategory};
use crate::{Error, Stored, Written};

verus! {

#[derive(Clone, Debug)]
pub struct Game {
    pub uuid: String,
    pub name: String,
    pub icon_path: Option<PathBuf>,
    pub categories: Vec<SmallCategory>,
}

impl Game {
    /// A game without picture and without categories.
    pub fn new(uuid: String, name: String) -> (game: Self)
        ensures
            game.uuid == uuid,
            game.name == name,
            game.icon_path is None,
            game.categories@ == Seq::<SmallCategory>::empty(),
    {
        Game { uuid, name, icon_path: None, categories: Vec::new() }
    }

    /// The file of the game with the id `uuid`, below the directory
    /// `config_path`.
    pub open spec fn spec_file(config_path: Seq<char>, uuid: Seq<char>) -> Seq<char> {
        config_path + "/games/"@ + uuid + ".json"@
    }

    pub open spec fn not_serialized(self) -> Seq<char> {
        "Could not serialize game "@ + self.name@ + " with uuid "@ + self.uuid@
    }

    pub open spec fn not_saved(self, config_path: Seq<char>) -> Seq<char> {
        "Could not save game with uuid "@ + self.uuid@ + " on path \""@ + Self::spec_file(
            config_path,
            self.uuid@,
        ) + "\""@
    }

    /// The file of the game with the id `uuid`.
    pub fn file(config_path: &str, uuid: &str) -> (path: String)
        ensures
            path@ == Self::spec_file(config_path@, uuid@),
    {
        let mut path: String = config_path.to_string();
        path.append("/games/");
        path.append(uuid);
        path.append(".json");
        path
    }

    /// What comes of putting the game into storage: nothing to report, or
    /// the report that it could not be turned into text or not be written.
    pub fn save(&self, config_path: &str, written: Written) -> (result: Result<(), Error>)
        ensures
            match written {
                Written::Done => result is Ok,
                Written::NotSerialized => result matches Err(e) && e.message() == Some(
                    self.not_serialized(),
                ),
                Written::NotWritten => result matches Err(e) && e.message() == Some(
                    self.not_saved(config_path@),
                ),
            },
    {
        match written {
            Written::Done => Ok(()),
            Written::NotSerialized => {
                let mut text: String = "Could not serialize game ".to_string();
                text.append(self.name.as_str());
                text.append(" with uuid ");
                text.append(self.uuid.as_str());
                Err(Error::Error(text))
            },
            Written::NotWritten => {
                let mut text: String = "Could not save game with uuid ".to_string();
                text.append(self.uuid.as_str());
                text.append(" on path \"");
                text.append(Self::file(config_path, self.uuid.as_str()).as_str());
                text.append("\"");
                Err(Error::Error(text))
            },
        }
    }

    /// What comes of looking for the game with the id `uuid` in storage: the
    /// game that was found, or the report that its file was not understood;
    /// a file that could not be read counts as an empty one. The report
    /// names the file of the category with that id.
    pub fn load(config_path: &str, uuid: &str, stored: Stored<Game>) -> (result: Result<Self, Error>)
        ensures
            match stored {
                Stored::Found(game) => result == Ok::<Game, Error>(game),
                _ => result matches Err(e) && e.message() == Some(
                    Category::not_parsed(config_path@, uuid@),
                ),
            },
    {
        match stored {
            Stored::Found(game) => Ok(game),
            _ => {
                let mut text: String = "Could not parse category json file: \"".to_string();
                text.append(Category::file(config_path, uuid).as_str());
                text.append("\"");
                Err(Error::Error(text))
            },
        }
    }

    pub fn change_name(&mut self, new_name: &str)
        ensures
            final(self).name@ == new_name@,
            final(self).uuid == old(self).uuid,
            final(self).icon_path == old(self).icon_path,
            final(self).categories == old(self).categories,
    {
        self.name = new_name.to_string();
    }
}

impl Default for Game {
    /// A game without id, name, picture and categories.
    fn default() -> (game: Self)
        ensures
            game.uuid@.len() == 0,
            game.name@.len() == 0,
            game.icon_path is None,
            game.categories@.len() == 0,
    {
        Game::new(String::new(), String::new())
    }
}

/// What the settings keep of each game.
#[derive(Clone, Debug)]
pub struct SmallGame {
    pub uuid: String,
    pub name: String,
}

impl SmallGame {
    pub fn change_name(&mut self, new_name: &str)
        ensures
            final(self).name@ == new_name@,
            final(self).uuid == old(self).uuid,
    {
        self.name = new_name.to_string();
    }
}

} // verus!
