//! The application state: the settings, what is loaded and where the run
//! stands.

use vstd::prelude::*;
use crate::Error;
use crate::run::category::Category;
use crate::run::chrono::{Chronometer, ChronometerFormat, ChronometerState, ChronometerView};
use crate::run::game::Game;
use crate::settings::config::Config;
use crate::run::manager::with_splits;
use crate::run::span::TimeSpan;
use crate::run::split::Split;
use crate::settings::shortcut::{handled, shortcut_handler, KeyEvent, Shortcut, ShortcutAction};
use crate::ui::panels::Pages;

verus! {

#[derive(Debug)]
pub struct HitSplit {
    pub config: Config,
    pub shortcut: Option<Shortcut>,
    /// How many splits the table of the loaded category is to have.
    pub num_splits_category: usize,
    pub open_page: Pages,
    pub loaded_game: Option<Game>,
    pub loaded_category: Option<Category>,
    /// The cursor: the place of the current split among those of the loaded
    /// category.
    pub selected_split: usize,
    /// Whether the manager window is shown.
    pub show_config: bool,
    /// The action that waits for its new key.
    pub capturing: Option<ShortcutAction>,
    pub chrono: Chronometer,
    /// The last thing that went wrong.
    pub error: Error,
}

impl HitSplit {
    /// Nothing differs from `before` but, at most, the loaded category, the
    /// cursor and the chronometer.
    pub open spec fn same_but_run(self, before: HitSplit) -> bool {
        self == (HitSplit {
            loaded_category: self.loaded_category,
            selected_split: self.selected_split,
            chrono: self.chrono,
            ..before
        })
    }

    /// With a category loaded that has splits, the cursor stands on one of
    /// them.
    pub open spec fn cursor_in_range(self) -> bool {
        match self.loaded_category {
            Some(category) => category.splits.len() > 0 ==> self.selected_split
                < category.splits.len(),
            None => true,
        }
    }

    /// This state with `result` noted: a failure takes the place of what went
    /// wrong last, a success leaves that as it is.
    pub open spec fn noting(self, result: Result<(), Error>) -> HitSplit {
        match result {
            Ok(_) => self,
            Err(e) => HitSplit { error: e, ..self },
        }
    }

    /// What `load_category` makes of `before`.
    pub open spec fn category_loaded(
        before: HitSplit,
        loaded: Result<Category, Error>,
        after: HitSplit,
    ) -> bool {
        match loaded {
            Ok(category) => {
                &&& after == (HitSplit {
                    loaded_category: after.loaded_category,
                    num_splits_category: category.splits.len(),
                    selected_split: 0,
                    ..before
                })
                &&& after.loaded_category matches Some(ready)
                &&& ready == (Category { splits: ready.splits, ..category })
                &&& Category::identified(category.splits@, ready.splits@)
            },
            Err(e) => after == (HitSplit { loaded_category: None, error: e, ..before }),
        }
    }

    /// What `record_reading` makes of `before`, and what it reports.
    pub open spec fn recorded(
        before: HitSplit,
        reading: Result<TimeSpan, Error>,
        after: HitSplit,
        result: Result<(), Error>,
    ) -> bool {
        match before.loaded_category {
            Some(category) => if before.selected_split < category.splits.len() {
                match reading {
                    Ok(time) => {
                        &&& result is Ok
                        &&& after.same_but_run(before)
                        &&& after.loaded_category matches Some(timed)
                        &&& with_splits(
                            category,
                            timed,
                            category.splits@.update(
                                before.selected_split as int,
                                Split {
                                    real_time: time,
                                    ..category.splits[before.selected_split as int]
                                },
                            ),
                        )
                        &&& after.selected_split == before.selected_split
                        &&& after.chrono == before.chrono
                    },
                    Err(e) => result == Err::<(), Error>(e) && after == before,
                }
            } else {
                result is Ok && after == before
            },
            None => result is Ok && after == before,
        }
    }

    /// What `update` makes of `timed`, the state with the time recorded, and
    /// whether it says that the keys of the table have to be registered anew.
    pub open spec fn keys_answered(
        timed: HitSplit,
        event: Option<KeyEvent>,
        held: Option<String>,
        after: HitSplit,
        rebound: bool,
    ) -> bool {
        match timed.capturing {
            Some(action) => match held {
                Some(code) => {
                    &&& rebound
                    &&& exists|changed: HitSplit|
                        {
                            &&& ShortcutAction::rebound(timed, action, code@, changed)
                            &&& after == (HitSplit { capturing: None, ..changed })
                        }
                },
                None => !rebound && after == timed,
            },
            None => {
                &&& !rebound
                &&& exists|acted: HitSplit, result: Result<(), Error>|
                    {
                        &&& handled(timed, event, acted, result)
                        &&& after == acted.noting(result)
                    }
            },
        }
    }

    /// Whether everything is to be saved now: on the timer if the settings
    /// ask for saving by themselves, at the end if they do not.
    pub fn save_due(&self, on_exit: bool) -> (due: bool)
        ensures
            due == (on_exit != self.config.autosave),
    {
        if on_exit {
            !self.config.autosave
        } else {
            self.config.autosave
        }
    }

    /// Notes `result` in the error slot: a failure takes the place of what
    /// went wrong last.
    pub fn note(&mut self, result: Result<(), Error>)
        ensures
            *final(self) == old(self).noting(result),
    {
        match result {
            Ok(_) => {},
            Err(e) => {
                self.error = e;
            },
        }
    }

    /// Takes in the outcome of loading a category. A category comes with an
    /// id on each of its splits, and the cursor goes to its first split. A
    /// failure is noted, and no category is loaded any more.
    pub fn load_category(&mut self, loaded: Result<Category, Error>)
        ensures
            Self::category_loaded(*old(self), loaded, *final(self)),
            final(self).cursor_in_range(),
    {
        match loaded {
            Ok(category) => {
                let mut category = category;
                self.num_splits_category = category.splits.len();
                category.fill_ids();
                self.loaded_category = Some(category);
                self.selected_split = 0;
            },
            Err(e) => {
                self.error = e;
                self.loaded_category = None;
            },
        }
    }

    /// Writes `reading`, a reading of the chronometer, to the current split
    /// as the time spent on it. Without a loaded category, or with the cursor
    /// on no split, nothing happens. A reading that failed is handed on, and
    /// the split keeps its time.
    pub fn record_reading(&mut self, reading: Result<TimeSpan, Error>) -> (result: Result<
        (),
        Error,
    >)
        ensures
            Self::recorded(*old(self), reading, *final(self), result),
            old(self).cursor_in_range() ==> final(self).cursor_in_range(),
    {
        match &mut self.loaded_category {
            Some(category) => {
                if self.selected_split < category.splits.len() {
                    match reading {
                        Ok(time) => {
                            category.splits[self.selected_split].real_time = time;
                        },
                        Err(e) => {
                            return Err(e);
                        },
                    }
                }
            },
            None => {},
        }
        Ok(())
    }

    /// Writes the time that the chronometer shows now to the current split.
    pub fn record_time(&mut self) -> (result: Result<(), Error>)
        ensures
            exists|reading: Result<TimeSpan, Error>|
                {
                    &&& old(self).chrono@.read(reading)
                    &&& Self::recorded(*old(self), reading, *final(self), result)
                },
            old(self).cursor_in_range() ==> final(self).cursor_in_range(),
    {
        let reading: Result<TimeSpan, Error> = self.chrono.get_time();
        self.record_reading(reading)
    }

    /// One frame. First the time of the chronometer is written to the
    /// current split. Then the keys are seen to. While no action waits for a
    /// key, `event`, the one event taken from the hotkey queue for this
    /// frame, is answered as by `shortcut_handler`. While an action waits,
    /// the event counts for nothing; if a key is held (`held` is the code of
    /// the last one), the action gets that key as by `change_shortcut`, and
    /// whether it took it or not, the waiting is over and the result is
    /// `true`: the keys of the table are to be registered anew, all of them.
    /// What fails on the way is noted in the error slot.
    pub fn update(&mut self, event: Option<KeyEvent>, held: Option<String>) -> (rebound: bool)
        ensures
            exists|reading: Result<TimeSpan, Error>, timed: HitSplit, first: Result<(), Error>|
                {
                    &&& old(self).chrono@.read(reading)
                    &&& Self::recorded(*old(self), reading, timed, first)
                    &&& Self::keys_answered(
                        timed.noting(first),
                        event,
                        held,
                        *final(self),
                        rebound,
                    )
                },
            old(self).cursor_in_range() ==> final(self).cursor_in_range(),
    {
        let reading: Result<TimeSpan, Error> = self.chrono.get_time();
        let first = self.record_reading(reading);
        self.note(first);
        let mut rebound: bool = false;
        match self.capturing {
            Some(action) => {
                match &held {
                    Some(code) => {
                        ShortcutAction::change_shortcut(self, &action, code.as_str());
                        self.capturing = None;
                        rebound = true;
                    },
                    None => {},
                }
            },
            None => {
                let result = shortcut_handler(self, event);
                self.note(result);
            },
        }
        rebound
    }

    /// The state of a start with these settings and shortcuts: nothing
    /// loaded, the cursor at the first split, the chronometer stopped and
    /// showing its time as the settings say.
    pub fn new(config: Config, shortcut: Shortcut) -> (app: Self)
        ensures
            app.config == config,
            app.shortcut == Some(shortcut),
            app.num_splits_category == 0,
            app.open_page == Pages::List,
            app.loaded_game is None,
            app.loaded_category is None,
            app.selected_split == 0,
            app.show_config,
            app.capturing is None,
            app.error == Error::NoError,
            app.chrono@ == (ChronometerView {
                origin: None,
                elapsed: None,
                state: ChronometerState::Stopped,
                format: config.chrono_format,
            }),
    {
        let format: ChronometerFormat = config.chrono_format;
        HitSplit {
            config,
            shortcut: Some(shortcut),
            num_splits_category: 0,
            open_page: Pages::List,
            loaded_game: None,
            loaded_category: None,
            selected_split: 0,
            show_config: true,
            capturing: None,
            chrono: Chronometer::new(format),
            error: Error::NoError,
        }
    }
}

impl Default for HitSplit {
    /// The state of a first start.
    fn default() -> (app: Self)
        ensures
            app.config.is_default(),
            app.shortcut matches Some(table) && table@ == Shortcut::default_codes(),
            app.num_splits_category == 0,
            app.open_page == Pages::List,
            app.loaded_game is None,
            app.loaded_category is None,
            app.selected_split == 0,
            app.show_config,
            app.capturing is None,
            app.error == Error::NoError,
            app.chrono@ == (ChronometerView {
                origin: None,
                elapsed: None,
                state: ChronometerState::Stopped,
                format: ChronometerFormat::HHMMSSX,
            }),
    {
        HitSplit::new(Config::default(), Shortcut::default())
    }
}

} // verus!
