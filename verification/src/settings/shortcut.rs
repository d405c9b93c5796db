//! The shortcut table: which key stands for which action, how a key press
//! finds its action, and how an action gets a new key.

use vstd::prelude::*;
use vstd::string::*;
use crate::{Error, Stored, Written};
use crate::run::manager::{
    add_hit, could_not_add, could_not_subtract, hit_added, hit_done, hit_taken, next_split,
    next_split_done, pause_chrono, pause_chrono_done, prev_split, prev_split_done, reset,
    reset_done, set_pb, set_pb_done, start_chrono, start_chrono_done, sub_hit,
};
use crate::run::split::Split;
use crate::ui::hitsplit::HitSplit;

verus! {

/// What a shortcut can do to the run.
#[derive(Copy, Clone, Debug, Eq, PartialEq, Structural)]
pub enum ShortcutAction {
    PrevSplit,
    NextSplit,
    AddHit,
    SubHit,
    Reset,
    SetPb,
    StartChrono,
    PauseChrono,
}

impl ShortcutAction {
    /// The place of the action's key in the shortcut table.
    pub open spec fn index(self) -> nat {
        match self {
            ShortcutAction::PrevSplit => 0,
            ShortcutAction::NextSplit => 1,
            ShortcutAction::AddHit => 2,
            ShortcutAction::SubHit => 3,
            ShortcutAction::Reset => 4,
            ShortcutAction::SetPb => 5,
            ShortcutAction::StartChrono => 6,
            ShortcutAction::PauseChrono => 7,
        }
    }

    /// The action whose key stands at place `u` of the shortcut table.
    pub open spec fn at(u: nat) -> Option<ShortcutAction> {
        if u == 0 {
            Some(ShortcutAction::PrevSplit)
        } else if u == 1 {
            Some(ShortcutAction::NextSplit)
        } else if u == 2 {
            Some(ShortcutAction::AddHit)
        } else if u == 3 {
            Some(ShortcutAction::SubHit)
        } else if u == 4 {
            Some(ShortcutAction::Reset)
        } else if u == 5 {
            Some(ShortcutAction::SetPb)
        } else if u == 6 {
            Some(ShortcutAction::StartChrono)
        } else if u == 7 {
            Some(ShortcutAction::PauseChrono)
        } else {
            None
        }
    }

    pub fn from_usize(u: usize) -> (action: Option<Self>)
        ensures
            action == Self::at(u as nat),
    {
        match u {
            0 => Some(ShortcutAction::PrevSplit),
            1 => Some(ShortcutAction::NextSplit),
            2 => Some(ShortcutAction::AddHit),
            3 => Some(ShortcutAction::SubHit),
            4 => Some(ShortcutAction::Reset),
            5 => Some(ShortcutAction::SetPb),
            6 => Some(ShortcutAction::StartChrono),
            7 => Some(ShortcutAction::PauseChrono),
            _ => None,
        }
    }

    pub fn to_usize(self) -> (u: usize)
        ensures
            u == self.index(),
            u < 8,
    {
        match self {
            ShortcutAction::PrevSplit => 0,
            ShortcutAction::NextSplit => 1,
            ShortcutAction::AddHit => 2,
            ShortcutAction::SubHit => 3,
            ShortcutAction::Reset => 4,
            ShortcutAction::SetPb => 5,
            ShortcutAction::StartChrono => 6,
            ShortcutAction::PauseChrono => 7,
        }
    }

    /// What the action makes of `before`, and what it reports.
    pub open spec fn done(
        self,
        before: HitSplit,
        after: HitSplit,
        result: Result<(), Error>,
    ) -> bool {
        match self {
            ShortcutAction::PrevSplit => prev_split_done(before, after, result),
            ShortcutAction::NextSplit => result is Ok && next_split_done(before, after),
            ShortcutAction::AddHit => hit_done(
                before,
                after,
                result,
                |s: Split| hit_added(s),
                could_not_add(),
            ),
            ShortcutAction::SubHit => hit_done(
                before,
                after,
                result,
                |s: Split| hit_taken(s),
                could_not_subtract(),
            ),
            ShortcutAction::Reset => result is Ok && reset_done(before, after),
            ShortcutAction::SetPb => result is Ok && set_pb_done(before, after),
            ShortcutAction::StartChrono => result is Ok && start_chrono_done(before, after),
            ShortcutAction::PauseChrono => pause_chrono_done(before, after, result),
        }
    }

    /// Carries the action out on `app`.
    pub fn to_function(self, app: &mut HitSplit) -> (result: Result<(), Error>)
        ensures
            self.done(*old(app), *final(app), result),
            old(app).cursor_in_range() ==> final(app).cursor_in_range(),
    {
        match self {
            ShortcutAction::PrevSplit => prev_split(app),
            ShortcutAction::NextSplit => next_split(app),
            ShortcutAction::AddHit => add_hit(app),
            ShortcutAction::SubHit => sub_hit(app),
            ShortcutAction::Reset => reset(app),
            ShortcutAction::SetPb => set_pb(app),
            ShortcutAction::StartChrono => start_chrono(app),
            ShortcutAction::PauseChrono => pause_chrono(app),
        }
    }

    /// What `change_shortcut` makes of `before`: the key `code` stands for
    /// `action` from now on, unless it stands for some action already or the
    /// table has no place for `action`; then nothing changes.
    pub open spec fn rebound(
        before: HitSplit,
        action: ShortcutAction,
        code: Seq<char>,
        after: HitSplit,
    ) -> bool {
        match before.shortcut {
            Some(table) => if !table@.contains(code) && action.index() < table@.len() {
                &&& after == (HitSplit { shortcut: after.shortcut, ..before })
                &&& after.shortcut matches Some(changed)
                &&& changed@ == table@.update(action.index() as int, code)
            } else {
                after == before
            },
            None => after == before,
        }
    }

    /// Gives `action` the key that `code` names. A key that stands for an
    /// action already, the same or another, is not taken: the table stays as
    /// it is, and nothing is reported.
    pub fn change_shortcut(app: &mut HitSplit, action: &ShortcutAction, code: &str)
        ensures
            Self::rebound(*old(app), *action, code@, *final(app)),
            old(app).shortcut matches Some(table) && no_key_twice(table@) ==> (final(app).shortcut
                matches Some(changed) && no_key_twice(changed@)),
            old(app).cursor_in_range() ==> final(app).cursor_in_range(),
    {
        match &mut app.shortcut {
            Some(shortcut) => {
                if !shortcut.contains(code) {
                    let place: usize = action.to_usize();
                    if place < shortcut.0.len() {
                        let ghost before = shortcut@;
                        shortcut.0[place] = code.to_string();
                        assert(shortcut@ =~= before.update(place as int, code@));
                    }
                }
            },
            None => {},
        }
    }
}

/// Each action has its own place in the table, and each of the eight places
/// its action.
pub proof fn law_actions_and_places(action: ShortcutAction, u: nat)
    ensures
        ShortcutAction::at(action.index()) == Some(action),
        action.index() < 8,
        ShortcutAction::at(u) matches Some(other) ==> other.index() == u,
        ShortcutAction::at(u) is Some <==> u < 8,
{
}

/// Whether a key went down or came up.
#[derive(Copy, Clone, Debug, Eq, PartialEq, Structural)]
pub enum KeyState {
    Pressed,
    Released,
}

/// What the system reports of a registered hotkey: its id, and whether it
/// was pressed or released.
#[derive(Copy, Clone, Debug, Eq, PartialEq, Structural)]
pub struct KeyEvent {
    pub id: u32,
    pub state: KeyState,
}

/// The id under which the system reports the hotkey of the key with code
/// `code` and no modifier; `None` where `code` names no key.
pub uninterp spec fn hotkey_id(code: Seq<char>) -> Option<u32>;

/// The shortcut table: the codes of the keys, by their names, each at the
/// place of its action.
#[derive(Clone, Debug)]
pub struct Shortcut(pub Vec<String>);

impl View for Shortcut {
    type V = Seq<Seq<char>>;

    open spec fn view(&self) -> Seq<Seq<char>> {
        self.0@.map_values(|code: String| code@)
    }
}

/// The place of the first code from place `from` on whose hotkey has the id
/// `id`.
pub open spec fn first_bound(codes: Seq<Seq<char>>, id: u32, from: nat) -> Option<nat>
    decreases codes.len() - from,
{
    if from >= codes.len() {
        None
    } else if hotkey_id(codes[from as int]) == Some(id) {
        Some(from)
    } else {
        first_bound(codes, id, from + 1)
    }
}

/// No key stands for two actions.
pub open spec fn no_key_twice(codes: Seq<Seq<char>>) -> bool {
    forall|i: int, j: int| 0 <= i < j < codes.len() ==> codes[i] != codes[j]
}

impl Shortcut {
    /// The keys of a first start: the number pad, 8 for the previous split,
    /// 2 for the next, 7 and 9 to add and take off a hit, 5 to reset, 3 to
    /// set the personal best, 4 and 6 to start and pause the chronometer.
    pub open spec fn default_codes() -> Seq<Seq<char>> {
        seq![
            "Numpad8"@,
            "Numpad2"@,
            "Numpad7"@,
            "Numpad9"@,
            "Numpad5"@,
            "Numpad3"@,
            "Numpad4"@,
            "Numpad6"@,
        ]
    }

    /// The file of the shortcut table, below the directory `config_path`.
    pub open spec fn spec_file(config_path: Seq<char>) -> Seq<char> {
        config_path + "/shortcuts.json"@
    }

    pub open spec fn not_serialized(config_path: Seq<char>) -> Seq<char> {
        "Could not save shortcuts in path \""@ + Self::spec_file(config_path) + "\""@
    }

    pub open spec fn not_saved(config_path: Seq<char>) -> Seq<char> {
        "Error saving file \"shortcuts.json\" at location \""@ + config_path + "\""@
    }

    pub open spec fn default_not_serialized() -> Seq<char> {
        "Could not parse config default string. Please file an issue on github."@
    }

    pub open spec fn default_not_saved() -> Seq<char> {
        "Could not parse shortcut default string. Please file an issue on github."@
    }

    /// The file of the shortcut table.
    pub fn file(config_path: &str) -> (path: String)
        ensures
            path@ == Self::spec_file(config_path@),
    {
        let mut path: String = config_path.to_string();
        path.append("/shortcuts.json");
        path
    }

    /// What comes of putting the table into storage: nothing to report, or
    /// the report that it could not be turned into text or not be written.
    pub fn save(&self, config_path: &str, written: Written) -> (result: Result<(), Error>)
        ensures
            match written {
                Written::Done => result is Ok,
                Written::NotSerialized => result matches Err(e) && e.message() == Some(
                    Self::not_serialized(config_path@),
                ),
                Written::NotWritten => result matches Err(e) && e.message() == Some(
                    Self::not_saved(config_path@),
                ),
            },
    {
        match written {
            Written::Done => Ok(()),
            Written::NotSerialized => {
                let mut text: String = "Could not save shortcuts in path \"".to_string();
                text.append(Self::file(config_path).as_str());
                text.append("\"");
                Err(Error::Error(text))
            },
            Written::NotWritten => {
                let mut text: String =
                    "Error saving file \"shortcuts.json\" at location \"".to_string();
                text.append(config_path);
                text.append("\"");
                Err(Error::Error(text))
            },
        }
    }

    /// The table that `load` gives for what was found in storage: what was
    /// found if it has a key for each of the eight actions, else the keys of
    /// a first start.
    pub open spec fn is_loaded_from(self, stored: Stored<Vec<String>>) -> bool {
        match stored {
            Stored::Found(codes) => if codes.len() >= 8 {
                self.0 == codes
            } else {
                self@ == Self::default_codes()
            },
            _ => self@ == Self::default_codes(),
        }
    }

    /// Whether the keys of a first start are to be written to the file of
    /// the table: they are where no file was found.
    pub fn writes_defaults(stored: &Stored<Vec<String>>) -> (due: bool)
        ensures
            due == (*stored is Missing),
    {
        match stored {
            Stored::Missing => true,
            _ => false,
        }
    }

    /// The table to go on with after looking for it in storage. A table that
    /// was found counts if it has a key for each of the eight actions; with
    /// fewer, and where the file was not understood, the keys of a first
    /// start take its place, the whole table. Where no file was found, the
    /// keys of a first start are written back, `written_back` tells how that
    /// went, and a failure of it is the result.
    pub fn load(stored: Stored<Vec<String>>, written_back: Written) -> (result: Result<
        Self,
        Error,
    >)
        ensures
            match (stored, written_back) {
                (Stored::Missing, Written::NotSerialized) => result matches Err(e)
                    && e.message() == Some(Self::default_not_serialized()),
                (Stored::Missing, Written::NotWritten) => result matches Err(e) && e.message()
                    == Some(Self::default_not_saved()),
                _ => result matches Ok(table) && table.is_loaded_from(stored),
            },
    {
        match stored {
            Stored::Found(codes) => {
                if codes.len() < 8 {
                    Ok(Shortcut::default())
                } else {
                    Ok(Shortcut(codes))
                }
            },
            Stored::Missing => {
                match written_back {
                    Written::Done => Ok(Shortcut::default()),
                    Written::NotSerialized => Err(
                        Error::Error(
                            "Could not parse config default string. Please file an issue on github.".to_string(),
                        ),
                    ),
                    Written::NotWritten => Err(
                        Error::Error(
                            "Could not parse shortcut default string. Please file an issue on github.".to_string(),
                        ),
                    ),
                }
            },
            Stored::Malformed => Ok(Shortcut::default()),
        }
    }

    pub open spec fn not_registered(code: Seq<char>) -> Seq<char> {
        "Could not register the shortcut "@ + code
    }

    /// What comes of registering the key `code` with the system: nothing to
    /// report, or the report that the key is not registered. The table keeps
    /// the key either way.
    pub fn registered(code: &str, done: bool) -> (result: Result<(), Error>)
        ensures
            done ==> result is Ok,
            !done ==> (result matches Err(e) && e.message() == Some(Self::not_registered(code@))),
    {
        if done {
            Ok(())
        } else {
            let mut text: String = "Could not register the shortcut ".to_string();
            text.append(code);
            Err(Error::Error(text))
        }
    }

    /// The id of the hotkey of the key that `code` names, with no modifier:
    /// `HotKey::new(None, code).id()`, where `code` is read as a key code by
    /// `Code::from_str`. The id is the hash of the hotkey's text, so the same
    /// name gives the same id. A name that is no key code gives `None`.
    #[verifier::external_body]
    pub(crate) fn code_to_id(code: &str) -> (id: Option<u32>)
        ensures
            id == hotkey_id(code@),
    {
        match code.parse::<global_hotkey::hotkey::Code>() {
            Ok(key) => Some(global_hotkey::hotkey::HotKey::new(None, key).id()),
            Err(_) => None,
        }
    }

    /// The place of the first key of the table whose hotkey has the id `id`.
    pub fn find(&self, id: u32) -> (place: Option<usize>)
        ensures
            first_bound(self@, id, 0) == match place {
                Some(i) => Some(i as nat),
                None => None,
            },
            place matches Some(i) ==> i < self@.len(),
    {
        let n: usize = self.0.len();
        let mut i: usize = 0;
        while i < n
            invariant
                i <= n,
                n == self.0.len(),
                first_bound(self@, id, 0) == first_bound(self@, id, i as nat),
            decreases n - i,
        {
            let found: Option<u32> = Self::code_to_id(self.0[i].as_str());
            if found == Some(id) {
                return Some(i);
            }
            i += 1;
        }
        None
    }

    /// Whether `code` is the key of some action.
    pub fn contains(&self, code: &str) -> (bound: bool)
        ensures
            bound == self@.contains(code@),
    {
        let wanted: String = code.to_string();
        let n: usize = self.0.len();
        let mut i: usize = 0;
        while i < n
            invariant
                i <= n,
                n == self.0.len(),
                wanted@ == code@,
                forall|j: int| 0 <= j < i ==> self@[j] != code@,
            decreases n - i,
        {
            assert(self@[i as int] == self.0[i as int]@);
            if self.0[i] == wanted {
                return true;
            }
            i += 1;
        }
        false
    }
}

impl Default for Shortcut {
    fn default() -> (table: Self)
        ensures
            table@ == Self::default_codes(),
    {
        let codes: Vec<String> = vec![
            "Numpad8".to_string(),
            "Numpad2".to_string(),
            "Numpad7".to_string(),
            "Numpad9".to_string(),
            "Numpad5".to_string(),
            "Numpad3".to_string(),
            "Numpad4".to_string(),
            "Numpad6".to_string(),
        ];
        let table = Shortcut(codes);
        table
    }
}

pub open spec fn action_not_found() -> Seq<char> {
    "Action not found. Please file an issue on github."@
}

/// The place in the table of `app` that `event` calls for: that of the first
/// key whose hotkey has the id of the event, if the event is a press.
pub open spec fn dispatched(app: HitSplit, event: Option<KeyEvent>) -> Option<nat> {
    match event {
        Some(pressed) => if pressed.state == KeyState::Pressed {
            match app.shortcut {
                Some(table) => first_bound(table@, pressed.id, 0),
                None => None,
            }
        } else {
            None
        },
        None => None,
    }
}

/// What `shortcut_handler` makes of `before` on `event`, and what it
/// reports: the one action that the event calls for, or nothing.
pub open spec fn handled(
    before: HitSplit,
    event: Option<KeyEvent>,
    after: HitSplit,
    result: Result<(), Error>,
) -> bool {
    match dispatched(before, event) {
        Some(place) => match ShortcutAction::at(place) {
            Some(action) => action.done(before, after, result),
            None => {
                &&& after == before
                &&& result matches Err(e)
                &&& e.message() == Some(action_not_found())
            },
        },
        None => after == before && result is Ok,
    }
}

/// Answers one event of the hotkey queue, or none: a press of a key of the
/// table carries out the action at the first place where that key stands.
/// A release, a key that is not in the table, no event and no table all leave
/// `app` as it is.
pub fn shortcut_handler(app: &mut HitSplit, event: Option<KeyEvent>) -> (result: Result<
    (),
    Error,
>)
    ensures
        handled(*old(app), event, *final(app), result),
        old(app).cursor_in_range() ==> final(app).cursor_in_range(),
{
    match event {
        Some(pressed) => {
            if pressed.state == KeyState::Pressed {
                let place: Option<usize> = match &app.shortcut {
                    Some(table) => table.find(pressed.id),
                    None => None,
                };
                match place {
                    Some(index) => {
                        match ShortcutAction::from_usize(index) {
                            Some(action) => {
                                return action.to_function(app);
                            },
                            None => {
                                return Err(
                                    Error::new(
                                        "Action not found. Please file an issue on github.".to_string(),
                                        "None".to_string(),
                                    ),
                                );
                            },
                        }
                    },
                    None => {},
                }
            }
        },
        None => {},
    }
    Ok(())
}

/// An action is not given a key that stands for an action already: the
/// whole table stays as it is, the place of that other action and the place
/// of this one.
pub proof fn law_taken_key_is_refused(
    before: HitSplit,
    action: ShortcutAction,
    other: ShortcutAction,
    code: Seq<char>,
    after: HitSplit,
)
    requires
        before.shortcut is Some,
        other.index() < before.shortcut->Some_0@.len(),
        before.shortcut->Some_0@[other.index() as int] == code,
        ShortcutAction::rebound(before, action, code, after),
    ensures
        after == before,
{
}

/// A table in which no key stands twice stays such a table under every
/// change of a shortcut.
pub proof fn law_no_key_twice(
    before: HitSplit,
    action: ShortcutAction,
    code: Seq<char>,
    after: HitSplit,
)
    requires
        before.shortcut is Some,
        no_key_twice(before.shortcut->Some_0@),
        ShortcutAction::rebound(before, action, code, after),
    ensures
        after.shortcut is Some,
        no_key_twice(after.shortcut->Some_0@),
{
}

/// One event is answered by one action at most: the state is then what
/// that action makes of it, and else it is as it was.
pub proof fn law_one_action_per_event(
    before: HitSplit,
    event: Option<KeyEvent>,
    after: HitSplit,
    result: Result<(), Error>,
)
    requires
        handled(before, event, after, result),
    ensures
        after == before || exists|action: ShortcutAction| action.done(before, after, result),
        !(event matches Some(pressed) && pressed.state == KeyState::Pressed) ==> after == before
            && result is Ok,
{
}

/// Whatever action is carried out, a cursor that stood on a split of the
/// loaded category stands on one afterwards.
pub proof fn law_cursor_stays_on_a_split(
    action: ShortcutAction,
    before: HitSplit,
    after: HitSplit,
    result: Result<(), Error>,
)
    requires
        action.done(before, after, result),
        before.cursor_in_range(),
    ensures
        after.cursor_in_range(),
{
}

/// The keys of a first start are eight, no key twice among them.
pub proof fn law_default_codes()
    ensures
        Shortcut::default_codes().len() == 8,
        no_key_twice(Shortcut::default_codes()),
{
    reveal_strlit("Numpad8");
    reveal_strlit("Numpad2");
    reveal_strlit("Numpad7");
    reveal_strlit("Numpad9");
    reveal_strlit("Numpad5");
    reveal_strlit("Numpad3");
    reveal_strlit("Numpad4");
    reveal_strlit("Numpad6");
    let codes = Shortcut::default_codes();
    assert forall|i: int, j: int| 0 <= i < j < codes.len() implies codes[i] != codes[j] by {
        assert(codes[i][6] != codes[j][6]);
    }
}

} // verus!
