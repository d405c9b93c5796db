use global_hotkey::hotkey::{Code, HotKey};
use hitsplit::run::category::Category;
use hitsplit::run::chrono::ChronometerState;
use hitsplit::run::span::TimeSpan;
use hitsplit::run::split::Split;
use hitsplit::settings::config::Config;
use hitsplit::settings::shortcut::{
    shortcut_handler, KeyEvent, KeyState, Shortcut, ShortcutAction,
};
use hitsplit::ui::functions::{shortcut_button, shortcut_label};
use hitsplit::{Error, HitSplit, Stored, Written};

fn id_of(code: Code) -> u32 {
    HotKey::new(None, code).id()
}

fn pressed(code: Code) -> Option<KeyEvent> {
    Some(KeyEvent { id: id_of(code), state: KeyState::Pressed })
}

fn codes(table: &Shortcut) -> Vec<&str> {
    table.0.iter().map(|c| c.as_str()).collect()
}

fn blank_split(hits: u16, pb: u16) -> Split {
    let mut split = Split::new(Some("s".to_string()));
    split.hits = hits;
    split.pb = pb;
    split
}

fn app_with(splits: Vec<Split>) -> HitSplit {
    let mut app = HitSplit::new(Config::default(), Shortcut::default());
    let mut category = Category::new("cat".to_string(), "Any%".to_string());
    category.splits = splits;
    app.load_category(Ok(category));
    app
}

fn hits(app: &HitSplit) -> Vec<u16> {
    app.loaded_category.as_ref().unwrap().splits.iter().map(|s| s.hits).collect()
}

const DEFAULTS: [&str; 8] = [
    "Numpad8", "Numpad2", "Numpad7", "Numpad9", "Numpad5", "Numpad3", "Numpad4", "Numpad6",
];

#[test]
fn actions_and_their_places() {
    let all = [
        ShortcutAction::PrevSplit,
        ShortcutAction::NextSplit,
        ShortcutAction::AddHit,
        ShortcutAction::SubHit,
        ShortcutAction::Reset,
        ShortcutAction::SetPb,
        ShortcutAction::StartChrono,
        ShortcutAction::PauseChrono,
    ];
    for (place, action) in all.iter().enumerate() {
        assert_eq!(action.to_usize(), place);
        assert_eq!(ShortcutAction::from_usize(place), Some(*action));
    }
    assert_eq!(ShortcutAction::from_usize(8), None);
    assert_eq!(ShortcutAction::from_usize(usize::MAX), None);
}

#[test]
fn default_table() {
    let table = Shortcut::default();
    assert_eq!(codes(&table), DEFAULTS.to_vec());
    // each default is the name of its key
    let keys = [
        Code::Numpad8, Code::Numpad2, Code::Numpad7, Code::Numpad9, Code::Numpad5,
        Code::Numpad3, Code::Numpad4, Code::Numpad6,
    ];
    for (code, key) in table.0.iter().zip(keys) {
        assert_eq!(*code, key.to_string());
    }
}

#[test]
fn load_keeps_a_whole_table() {
    let stored: Vec<String> =
        ["KeyA", "KeyB", "KeyC", "KeyD", "KeyE", "KeyF", "KeyG", "KeyH"].iter().map(|c| c.to_string()).collect();
    let table = Shortcut::load(Stored::Found(stored.clone()), Written::Done).unwrap();
    assert_eq!(table.0, stored);
}

#[test]
fn load_replaces_a_short_table_as_a_whole() {
    let stored: Vec<String> =
        ["KeyA", "KeyB", "KeyC", "KeyD", "KeyE", "KeyF", "KeyG"].iter().map(|c| c.to_string()).collect();
    let table = Shortcut::load(Stored::Found(stored), Written::Done).unwrap();
    assert_eq!(codes(&table), DEFAULTS.to_vec());
    let table = Shortcut::load(Stored::Found(vec![]), Written::Done).unwrap();
    assert_eq!(codes(&table), DEFAULTS.to_vec());
}

#[test]
fn load_without_a_usable_file_gives_the_defaults() {
    let table = Shortcut::load(Stored::Missing, Written::Done).unwrap();
    assert_eq!(codes(&table), DEFAULTS.to_vec());
    let table = Shortcut::load(Stored::Malformed, Written::Done).unwrap();
    assert_eq!(codes(&table), DEFAULTS.to_vec());
    let table = Shortcut::load(Stored::Malformed, Written::NotWritten).unwrap();
    assert_eq!(codes(&table), DEFAULTS.to_vec());
}

#[test]
fn load_reports_defaults_that_could_not_be_written_back() {
    assert_eq!(
        Shortcut::load(Stored::Missing, Written::NotSerialized).unwrap_err(),
        Error::Error(
            "Could not parse config default string. Please file an issue on github.".to_string()
        )
    );
    assert_eq!(
        Shortcut::load(Stored::Missing, Written::NotWritten).unwrap_err(),
        Error::Error(
            "Could not parse shortcut default string. Please file an issue on github.".to_string()
        )
    );
}

#[test]
fn save_reports() {
    let table = Shortcut::default();
    assert_eq!(table.save("conf", Written::Done), Ok(()));
    assert_eq!(
        table.save("conf", Written::NotSerialized),
        Err(Error::Error("Could not save shortcuts in path \"conf/shortcuts.json\"".to_string()))
    );
    assert_eq!(
        table.save("conf", Written::NotWritten),
        Err(Error::Error(
            "Error saving file \"shortcuts.json\" at location \"conf\"".to_string()
        ))
    );
    assert_eq!(Shortcut::file("conf"), "conf/shortcuts.json");
}

#[test]
fn find_gives_the_first_place_of_a_key() {
    let table = Shortcut::default();
    assert_eq!(table.find(id_of(Code::Numpad8)), Some(0));
    assert_eq!(table.find(id_of(Code::Numpad7)), Some(2));
    assert_eq!(table.find(id_of(Code::Numpad6)), Some(7));
    assert_eq!(table.find(id_of(Code::KeyQ)), None);
    let twice = Shortcut(vec!["KeyA".to_string(), "KeyB".to_string(), "KeyA".to_string()]);
    assert_eq!(twice.find(id_of(Code::KeyA)), Some(0));
    assert_eq!(twice.find(id_of(Code::KeyB)), Some(1));
}

#[test]
fn find_passes_over_what_names_no_key() {
    let table = Shortcut(vec!["".to_string(), "numpad8".to_string(), "Numpad8".to_string()]);
    assert_eq!(table.find(id_of(Code::Numpad8)), Some(2));
    assert_eq!(Shortcut(vec![]).find(0), None);
}

#[test]
fn contains_looks_for_the_name() {
    let table = Shortcut::default();
    assert!(table.contains("Numpad5"));
    assert!(!table.contains("Numpad1"));
    assert!(!table.contains("numpad5"));
    assert!(!table.contains(""));
}

#[test]
fn press_carries_out_the_action_of_the_key() {
    let mut app = app_with(vec![blank_split(0, 0), blank_split(0, 0)]);
    assert_eq!(shortcut_handler(&mut app, pressed(Code::Numpad7)), Ok(()));
    assert_eq!(hits(&app), vec![1, 0]);
    assert_eq!(shortcut_handler(&mut app, pressed(Code::Numpad2)), Ok(()));
    assert_eq!(app.selected_split, 1);
    assert_eq!(shortcut_handler(&mut app, pressed(Code::Numpad7)), Ok(()));
    assert_eq!(shortcut_handler(&mut app, pressed(Code::Numpad7)), Ok(()));
    assert_eq!(shortcut_handler(&mut app, pressed(Code::Numpad9)), Ok(()));
    assert_eq!(hits(&app), vec![1, 1]);
    assert_eq!(shortcut_handler(&mut app, pressed(Code::Numpad3)), Ok(()));
    assert_eq!(app.loaded_category.as_ref().unwrap().splits[0].pb, 1);
    assert_eq!(shortcut_handler(&mut app, pressed(Code::Numpad4)), Ok(()));
    assert_eq!(app.chrono.state(), ChronometerState::Running);
    assert_eq!(shortcut_handler(&mut app, pressed(Code::Numpad6)), Ok(()));
    assert_eq!(app.chrono.state(), ChronometerState::Paused);
    assert_eq!(shortcut_handler(&mut app, pressed(Code::Numpad8)), Ok(()));
    assert_eq!(app.selected_split, 0);
    assert_eq!(shortcut_handler(&mut app, pressed(Code::Numpad5)), Ok(()));
    assert_eq!(hits(&app), vec![0, 0]);
    assert_eq!(app.chrono.state(), ChronometerState::Stopped);
}

#[test]
fn one_event_is_one_action() {
    let mut app = app_with(vec![blank_split(0, 0)]);
    assert_eq!(shortcut_handler(&mut app, pressed(Code::Numpad7)), Ok(()));
    assert_eq!(hits(&app), vec![1]);
    assert_eq!(app.selected_split, 0);
    assert_eq!(app.chrono.state(), ChronometerState::Stopped);
}

#[test]
fn release_unknown_key_and_no_event_do_nothing() {
    let mut app = app_with(vec![blank_split(2, 0)]);
    let released = Some(KeyEvent { id: id_of(Code::Numpad7), state: KeyState::Released });
    assert_eq!(shortcut_handler(&mut app, released), Ok(()));
    assert_eq!(shortcut_handler(&mut app, pressed(Code::KeyQ)), Ok(()));
    assert_eq!(shortcut_handler(&mut app, None), Ok(()));
    assert_eq!(hits(&app), vec![2]);
    app.shortcut = None;
    assert_eq!(shortcut_handler(&mut app, pressed(Code::Numpad7)), Ok(()));
    assert_eq!(hits(&app), vec![2]);
}

#[test]
fn press_hands_on_what_the_action_reports() {
    let mut app = app_with(vec![]);
    assert_eq!(
        shortcut_handler(&mut app, pressed(Code::Numpad7)),
        Err(Error::Error("Could not add hit. Split not selected.".to_string()))
    );
}

#[test]
fn key_beyond_the_eight_actions_is_reported() {
    let mut app = app_with(vec![blank_split(0, 0)]);
    let mut table = Shortcut::default();
    table.0.push("KeyZ".to_string());
    app.shortcut = Some(table);
    assert_eq!(
        shortcut_handler(&mut app, pressed(Code::KeyZ)),
        Err(Error::Error("Action not found. Please file an issue on github.".to_string()))
    );
    assert_eq!(hits(&app), vec![0]);
}

#[test]
fn to_function_runs_the_action() {
    let mut app = app_with(vec![blank_split(0, 0), blank_split(0, 0)]);
    assert_eq!(ShortcutAction::AddHit.to_function(&mut app), Ok(()));
    assert_eq!(ShortcutAction::NextSplit.to_function(&mut app), Ok(()));
    assert_eq!(ShortcutAction::AddHit.to_function(&mut app), Ok(()));
    assert_eq!(ShortcutAction::SubHit.to_function(&mut app), Ok(()));
    assert_eq!(ShortcutAction::SetPb.to_function(&mut app), Ok(()));
    assert_eq!(ShortcutAction::StartChrono.to_function(&mut app), Ok(()));
    assert_eq!(ShortcutAction::PauseChrono.to_function(&mut app), Ok(()));
    assert_eq!(ShortcutAction::PrevSplit.to_function(&mut app), Ok(()));
    assert_eq!(hits(&app), vec![1, 0]);
    assert_eq!(app.selected_split, 0);
    assert_eq!(ShortcutAction::Reset.to_function(&mut app), Ok(()));
    assert_eq!(hits(&app), vec![0, 0]);
}

#[test]
fn change_shortcut_takes_a_free_key() {
    let mut app = HitSplit::new(Config::default(), Shortcut::default());
    ShortcutAction::change_shortcut(&mut app, &ShortcutAction::AddHit, "KeyH");
    let table = app.shortcut.as_ref().unwrap();
    assert_eq!(
        codes(table),
        vec!["Numpad8", "Numpad2", "KeyH", "Numpad9", "Numpad5", "Numpad3", "Numpad4", "Numpad6"]
    );
    // the new key works, the old one does not any more
    assert_eq!(table.find(id_of(Code::KeyH)), Some(2));
    assert_eq!(table.find(id_of(Code::Numpad7)), None);
}

#[test]
fn change_shortcut_refuses_a_key_of_another_action() {
    let mut app = HitSplit::new(Config::default(), Shortcut::default());
    ShortcutAction::change_shortcut(&mut app, &ShortcutAction::AddHit, "Numpad5");
    assert_eq!(codes(app.shortcut.as_ref().unwrap()), DEFAULTS.to_vec());
    // its own key too
    ShortcutAction::change_shortcut(&mut app, &ShortcutAction::AddHit, "Numpad7");
    assert_eq!(codes(app.shortcut.as_ref().unwrap()), DEFAULTS.to_vec());
}

#[test]
fn change_shortcut_without_table_or_place() {
    let mut app = HitSplit::new(Config::default(), Shortcut::default());
    app.shortcut = None;
    ShortcutAction::change_shortcut(&mut app, &ShortcutAction::AddHit, "KeyH");
    assert!(app.shortcut.is_none());
    app.shortcut = Some(Shortcut(vec!["KeyA".to_string(), "KeyB".to_string()]));
    ShortcutAction::change_shortcut(&mut app, &ShortcutAction::Reset, "KeyH");
    assert_eq!(codes(app.shortcut.as_ref().unwrap()), vec!["KeyA", "KeyB"]);
    ShortcutAction::change_shortcut(&mut app, &ShortcutAction::NextSplit, "KeyH");
    assert_eq!(codes(app.shortcut.as_ref().unwrap()), vec!["KeyA", "KeyH"]);
}

#[test]
fn button_label_and_click() {
    let mut app = HitSplit::new(Config::default(), Shortcut::default());
    assert_eq!(shortcut_label(&app, &ShortcutAction::Reset), Some("Numpad5".to_string()));
    shortcut_button(&mut app, &ShortcutAction::Reset);
    assert_eq!(app.capturing, Some(ShortcutAction::Reset));
    assert_eq!(
        shortcut_label(&app, &ShortcutAction::Reset),
        Some("Press a key to change shortcut. Click again to cancel.".to_string())
    );
    assert_eq!(shortcut_label(&app, &ShortcutAction::AddHit), Some("Numpad7".to_string()));
    // another button takes the waiting over
    shortcut_button(&mut app, &ShortcutAction::AddHit);
    assert_eq!(app.capturing, Some(ShortcutAction::AddHit));
    // the same button again ends it
    shortcut_button(&mut app, &ShortcutAction::AddHit);
    assert_eq!(app.capturing, None);
    app.shortcut = None;
    assert_eq!(shortcut_label(&app, &ShortcutAction::Reset), None);
}

#[test]
fn update_records_the_time_then_answers_the_event() {
    let mut app = app_with(vec![blank_split(0, 0), blank_split(0, 0)]);
    app.chrono.load_chrono(TimeSpan::from_secs(4), &app.config.chrono_format.clone());
    let rebound = app.update(pressed(Code::Numpad2), None);
    assert!(!rebound);
    // the time went to the split that was current before the event moved the cursor
    let splits = &app.loaded_category.as_ref().unwrap().splits;
    assert_eq!(splits[0].real_time, TimeSpan::from_secs(4));
    assert_eq!(splits[1].real_time, TimeSpan::zero());
    assert_eq!(app.selected_split, 1);
    assert_eq!(app.error, Error::NoError);
}

#[test]
fn update_without_event_only_records_the_time() {
    let mut app = app_with(vec![blank_split(3, 0)]);
    app.chrono.load_chrono(TimeSpan::from_millis(250), &app.config.chrono_format.clone());
    assert!(!app.update(None, None));
    assert_eq!(app.loaded_category.as_ref().unwrap().splits[0].real_time, TimeSpan::from_millis(250));
    assert_eq!(hits(&app), vec![3]);
    // a held key counts for nothing while no action waits
    assert!(!app.update(None, Some("KeyH".to_string())));
    assert_eq!(codes(app.shortcut.as_ref().unwrap()), DEFAULTS.to_vec());
}

#[test]
fn update_notes_what_fails() {
    let mut app = app_with(vec![]);
    assert!(!app.update(pressed(Code::Numpad7), None));
    assert_eq!(app.error, Error::Error("Could not add hit. Split not selected.".to_string()));
    // a later success leaves the note
    assert!(!app.update(pressed(Code::Numpad5), None));
    assert_eq!(app.error, Error::Error("Could not add hit. Split not selected.".to_string()));
    // a later failure takes its place
    assert!(!app.update(pressed(Code::Numpad9), None));
    assert_eq!(app.error, Error::Error("Could not substract hit. Split not selected.".to_string()));
}

#[test]
fn update_while_capturing_rebinds_and_fires_nothing() {
    let mut app = app_with(vec![blank_split(0, 0)]);
    shortcut_button(&mut app, &ShortcutAction::Reset);
    // no key held yet: the action goes on waiting, the event counts for nothing
    assert!(!app.update(pressed(Code::Numpad7), None));
    assert_eq!(app.capturing, Some(ShortcutAction::Reset));
    assert_eq!(hits(&app), vec![0]);
    // a free key is taken
    assert!(app.update(pressed(Code::Numpad7), Some("KeyR".to_string())));
    assert_eq!(app.capturing, None);
    assert_eq!(hits(&app), vec![0]);
    assert_eq!(
        codes(app.shortcut.as_ref().unwrap()),
        vec!["Numpad8", "Numpad2", "Numpad7", "Numpad9", "KeyR", "Numpad3", "Numpad4", "Numpad6"]
    );
}

#[test]
fn update_while_capturing_refuses_a_taken_key_and_still_ends() {
    let mut app = app_with(vec![blank_split(0, 0)]);
    shortcut_button(&mut app, &ShortcutAction::Reset);
    assert!(app.update(None, Some("Numpad7".to_string())));
    assert_eq!(app.capturing, None);
    assert_eq!(codes(app.shortcut.as_ref().unwrap()), DEFAULTS.to_vec());
    assert_eq!(app.error, Error::NoError);
}

#[test]
fn default_keys_are_written_back_where_no_file_was_found() {
    assert!(Shortcut::writes_defaults(&Stored::Missing));
    assert!(!Shortcut::writes_defaults(&Stored::Malformed));
    assert!(!Shortcut::writes_defaults(&Stored::Found(vec![])));
}
