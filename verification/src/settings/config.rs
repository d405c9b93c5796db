//! The settings that are kept between sessions, and how a stored copy with
//! gaps is filled up.

use vstd::prelude::*;
use vstd::string::*;
use crate::run::chrono::ChronometerFormat;
use crate::run::game::SmallGame;
use crate::settings::columns::{Column, ColumnVec};
use crate::Stored;

verus! {

/// Every column, from left to right.
pub open spec fn all_columns() -> Seq<Column> {
    seq![
        Column::Icon,
        Column::SplitName,
        Column::Hits,
        Column::Difference,
        Column::PersonalBest,
        Column::Chrono,
        Column::ChronoAcum,
    ]
}

/// A colour by its red, green and blue part.
pub open spec fn rgb(red: u8, green: u8, blue: u8) -> Seq<u8> {
    seq![red, green, blue]
}

/// The settings as they are found in storage: a setting that is not there
/// is `None`.
#[derive(Debug)]
pub struct OptionalConfig {
    pub dark_mode: Option<bool>,
    pub next_split_as_reset: Option<bool>,
    pub autosave: Option<bool>,
    pub autosave_interval: Option<u64>,
    pub game_list: Option<Vec<SmallGame>>,
    pub limit_splits_shown: Option<bool>,
    pub num_splits_counter: Option<usize>,
    pub columns: Option<ColumnVec>,
    pub chrono_format: Option<ChronometerFormat>,
    pub background_color: Option<[u8; 3]>,
    pub background_transparency: Option<u8>,
    pub text_color_default: Option<[u8; 3]>,
    pub text_color_nohit: Option<[u8; 3]>,
    pub text_color_better: Option<[u8; 3]>,
    pub text_color_worse: Option<[u8; 3]>,
    pub always_on_top: Option<bool>,
}

/// The settings in use. The sizes on the screen are not among them: they
/// are kept with the windows.
#[derive(Debug)]
pub struct Config {
    pub dark_mode: bool,
    pub next_split_as_reset: bool,
    pub autosave: bool,
    /// Seconds between two automatic saves.
    pub autosave_interval: u64,
    pub game_list: Vec<SmallGame>,
    pub limit_splits_shown: bool,
    pub num_splits_counter: usize,
    pub columns: ColumnVec,
    pub chrono_format: ChronometerFormat,
    pub background_color: [u8; 3],
    pub background_transparency: u8,
    pub text_color_default: [u8; 3],
    pub text_color_nohit: [u8; 3],
    pub text_color_better: [u8; 3],
    pub text_color_worse: [u8; 3],
    pub always_on_top: bool,
}

/// The stored setting, or `otherwise` where there is none.
pub open spec fn or_else<T>(stored: Option<T>, otherwise: T) -> T {
    match stored {
        Some(value) => value,
        None => otherwise,
    }
}

/// The stored colour, or `otherwise` where there is none.
pub open spec fn color_or(stored: Option<[u8; 3]>, otherwise: Seq<u8>) -> Seq<u8> {
    match stored {
        Some(color) => color@,
        None => otherwise,
    }
}

impl OptionalConfig {
    /// Nothing stored.
    pub open spec fn is_empty(self) -> bool {
        &&& self.dark_mode is None
        &&& self.next_split_as_reset is None
        &&& self.autosave is None
        &&& self.autosave_interval is None
        &&& self.game_list is None
        &&& self.limit_splits_shown is None
        &&& self.num_splits_counter is None
        &&& self.columns is None
        &&& self.chrono_format is None
        &&& self.background_color is None
        &&& self.background_transparency is None
        &&& self.text_color_default is None
        &&& self.text_color_nohit is None
        &&& self.text_color_better is None
        &&& self.text_color_worse is None
        &&& self.always_on_top is None
    }

    /// Every setting of `config` stored.
    pub open spec fn holds(self, config: Config) -> bool {
        &&& self.dark_mode == Some(config.dark_mode)
        &&& self.next_split_as_reset == Some(config.next_split_as_reset)
        &&& self.autosave == Some(config.autosave)
        &&& self.autosave_interval == Some(config.autosave_interval)
        &&& self.game_list == Some(config.game_list)
        &&& self.limit_splits_shown == Some(config.limit_splits_shown)
        &&& self.num_splits_counter == Some(config.num_splits_counter)
        &&& self.columns == Some(config.columns)
        &&& self.chrono_format == Some(config.chrono_format)
        &&& self.background_color == Some(config.background_color)
        &&& self.background_transparency == Some(config.background_transparency)
        &&& self.text_color_default == Some(config.text_color_default)
        &&& self.text_color_nohit == Some(config.text_color_nohit)
        &&& self.text_color_better == Some(config.text_color_better)
        &&& self.text_color_worse == Some(config.text_color_worse)
        &&& self.always_on_top == Some(config.always_on_top)
    }

    /// Nothing stored: every setting is missing.
    pub open spec fn nothing() -> OptionalConfig {
        OptionalConfig {
            dark_mode: None,
            next_split_as_reset: None,
            autosave: None,
            autosave_interval: None,
            game_list: None,
            limit_splits_shown: None,
            num_splits_counter: None,
            columns: None,
            chrono_format: None,
            background_color: None,
            background_transparency: None,
            text_color_default: None,
            text_color_nohit: None,
            text_color_better: None,
            text_color_worse: None,
            always_on_top: None,
        }
    }

    /// `config` holds each stored setting, and for each that is not stored
    /// its default: the value that a first start has for it.
    pub open spec fn fills(self, config: Config) -> bool {
        &&& config.dark_mode == or_else(self.dark_mode, true)
        &&& config.next_split_as_reset == or_else(self.next_split_as_reset, true)
        &&& config.autosave == or_else(self.autosave, true)
        &&& config.autosave_interval == or_else(self.autosave_interval, 60)
        &&& match self.game_list {
            Some(games) => config.game_list == games,
            None => config.game_list@ == Seq::<SmallGame>::empty(),
        }
        &&& config.limit_splits_shown == or_else(self.limit_splits_shown, false)
        &&& config.num_splits_counter == or_else(self.num_splits_counter, 10)
        &&& match self.columns {
            Some(columns) => config.columns == columns,
            None => config.columns@ == all_columns(),
        }
        &&& config.chrono_format == or_else(self.chrono_format, ChronometerFormat::HHMMSSX)
        &&& config.background_color@ == color_or(self.background_color, rgb(28, 28, 28))
        &&& config.background_transparency == or_else(self.background_transparency, 255)
        &&& config.text_color_default@ == color_or(self.text_color_default, rgb(240, 240, 240))
        &&& config.text_color_nohit@ == color_or(self.text_color_nohit, rgb(8, 250, 8))
        &&& config.text_color_better@ == color_or(self.text_color_better, rgb(250, 250, 8))
        &&& config.text_color_worse@ == color_or(self.text_color_worse, rgb(250, 8, 8))
        &&& config.always_on_top == or_else(self.always_on_top, true)
    }

    /// Nothing stored.
    pub fn new() -> (stored: Self)
        ensures
            stored == Self::nothing(),
    {
        OptionalConfig {
            dark_mode: None,
            next_split_as_reset: None,
            autosave: None,
            autosave_interval: None,
            game_list: None,
            limit_splits_shown: None,
            num_splits_counter: None,
            columns: None,
            chrono_format: None,
            background_color: None,
            background_transparency: None,
            text_color_default: None,
            text_color_nohit: None,
            text_color_better: None,
            text_color_worse: None,
            always_on_top: None,
        }
    }

    /// The settings in use: what is stored, and for the rest its default.
    pub fn to_config(self) -> (config: Config)
        ensures
            self.fills(config),
    {
        let background_color: [u8; 3] = match self.background_color {
            Some(color) => color,
            None => [28, 28, 28],
        };
        let text_color_default: [u8; 3] = match self.text_color_default {
            Some(color) => color,
            None => [240, 240, 240],
        };
        let text_color_nohit: [u8; 3] = match self.text_color_nohit {
            Some(color) => color,
            None => [8, 250, 8],
        };
        let text_color_better: [u8; 3] = match self.text_color_better {
            Some(color) => color,
            None => [250, 250, 8],
        };
        let text_color_worse: [u8; 3] = match self.text_color_worse {
            Some(color) => color,
            None => [250, 8, 8],
        };
        Config {
            dark_mode: self.dark_mode.unwrap_or(true),
            next_split_as_reset: self.next_split_as_reset.unwrap_or(true),
            autosave: self.autosave.unwrap_or(true),
            autosave_interval: self.autosave_interval.unwrap_or(60),
            game_list: match self.game_list {
                Some(games) => games,
                None => Vec::new(),
            },
            limit_splits_shown: self.limit_splits_shown.unwrap_or(false),
            num_splits_counter: self.num_splits_counter.unwrap_or(10),
            columns: match self.columns {
                Some(columns) => columns,
                None => ColumnVec::default(),
            },
            chrono_format: self.chrono_format.unwrap_or(ChronometerFormat::HHMMSSX),
            background_color,
            background_transparency: self.background_transparency.unwrap_or(255),
            text_color_default,
            text_color_nohit,
            text_color_better,
            text_color_worse,
            always_on_top: self.always_on_top.unwrap_or(true),
        }
    }
}

impl Config {
    /// The settings of a first start: the default of every setting, as for
    /// settings of which nothing is stored.
    pub open spec fn is_default(self) -> bool {
        OptionalConfig::nothing().fills(self)
    }

    /// The file of the settings, below the directory `config_path`.
    pub open spec fn spec_file(config_path: Seq<char>) -> Seq<char> {
        config_path + "/config.json"@
    }

    /// The file of the settings.
    pub fn file(config_path: &str) -> (path: String)
        ensures
            path@ == Self::spec_file(config_path@),
    {
        let mut path: String = config_path.to_string();
        path.append("/config.json");
        path
    }

    /// Whether the settings of a first start are to be written to the file
    /// of the settings: they are wherever no settings were found in it, the
    /// file missing or not understood.
    pub fn writes_defaults(stored: &Stored<OptionalConfig>) -> (due: bool)
        ensures
            due == !(*stored is Found),
    {
        match stored {
            Stored::Found(_) => false,
            _ => true,
        }
    }

    /// The settings to go on with after looking for them in storage: what
    /// was found, gaps filled; where nothing was found or what was found was
    /// not understood, the settings of a first start, which are then what has
    /// to be written back.
    pub fn load(stored: Stored<OptionalConfig>) -> (config: Config)
        ensures
            match stored {
                Stored::Found(found) => found.fills(config),
                _ => config.is_default(),
            },
    {
        match stored {
            Stored::Found(found) => found.to_config(),
            _ => Config::default(),
        }
    }
}

impl Default for Config {
    fn default() -> (config: Self)
        ensures
            config.is_default(),
    {
        OptionalConfig::new().to_config()
    }
}

/// Settings of which nothing is stored are those of a first start, whether
/// no file was found, the file was not understood, or the file was
/// understood and held no setting.
pub proof fn law_nothing_stored_is_first_start(stored: OptionalConfig, config: Config)
    requires
        stored.is_empty(),
    ensures
        stored.fills(config) <==> config.is_default(),
{
}

/// Settings that were stored whole are read back as they were.
pub proof fn law_stored_settings_read_back(config: Config, stored: OptionalConfig, read: Config)
    requires
        stored.holds(config),
        stored.fills(read),
    ensures
        read.dark_mode == config.dark_mode,
        read.next_split_as_reset == config.next_split_as_reset,
        read.autosave == config.autosave,
        read.autosave_interval == config.autosave_interval,
        read.game_list == config.game_list,
        read.limit_splits_shown == config.limit_splits_shown,
        read.num_splits_counter == config.num_splits_counter,
        read.columns == config.columns,
        read.chrono_format == config.chrono_format,
        read.background_color@ == config.background_color@,
        read.background_transparency == config.background_transparency,
        read.text_color_default@ == config.text_color_default@,
        read.text_color_nohit@ == config.text_color_nohit@,
        read.text_color_better@ == config.text_color_better@,
        read.text_color_worse@ == config.text_color_worse@,
        read.always_on_top == config.always_on_top,
        config.is_default() ==> read.is_default(),
{
}

} // verus!
