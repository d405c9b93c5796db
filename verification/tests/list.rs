use std::path::PathBuf;

use hitsplit::run::category::{Category, SmallCategory};
use hitsplit::run::game::{Game, SmallGame};
use hitsplit::run::span::TimeSpan;
use hitsplit::run::split::Split;
use hitsplit::settings::config::Config;
use hitsplit::settings::shortcut::Shortcut;
use hitsplit::ui::panels::list::{
    add_category, add_game, create_table, edit_table, list, load_game, modify_category,
    modify_game, resize_table, set_image, ListEvent, ListPage, Saves,
};
use hitsplit::ui::panels::Pages;
use hitsplit::ui::ChangeImage;
use hitsplit::{Error, HitSplit, Stored, Written};

fn fresh() -> HitSplit {
    HitSplit::new(Config::default(), Shortcut::default())
}

fn named(id: &str, name: &str) -> Split {
    let mut split = Split::new(Some(id.to_string()));
    split.name = name.to_string();
    split
}

fn with_game_and_category() -> HitSplit {
    let mut app = fresh();
    let mut game = Game::new("g1".to_string(), "Game".to_string());
    game.categories.push(SmallCategory { uuid: "c0".to_string(), name: "Other".to_string() });
    game.categories.push(SmallCategory { uuid: "c1".to_string(), name: "Any%".to_string() });
    app.config.game_list.push(SmallGame { uuid: "g0".to_string(), name: "Older".to_string() });
    app.config.game_list.push(SmallGame { uuid: "g1".to_string(), name: "Game".to_string() });
    load_game(&mut app, Ok(game));
    let mut category = Category::new("c1".to_string(), "Any%".to_string());
    category.splits = vec![named("a", "First"), named("b", "Second"), named("c", "Third")];
    app.load_category(Ok(category));
    app
}

fn names(app: &HitSplit) -> Vec<String> {
    app.loaded_category.as_ref().unwrap().splits.iter().map(|s| s.name.clone()).collect()
}

#[test]
fn state_of_a_start() {
    let app = fresh();
    assert!(app.loaded_game.is_none());
    assert!(app.loaded_category.is_none());
    assert_eq!(app.selected_split, 0);
    assert_eq!(app.num_splits_category, 0);
    assert_eq!(app.open_page, Pages::List);
    assert!(app.show_config);
    assert_eq!(app.capturing, None);
    assert_eq!(app.error, Error::NoError);
    assert_eq!(app.chrono.format(), app.config.chrono_format);
    let app = HitSplit::default();
    assert!(app.shortcut.is_some());
    assert_eq!(app.config.autosave_interval, 60);
    let page = ListPage::new();
    assert!(page.add_game_name.is_empty());
    assert!(!page.add_game_open && !page.add_category_open);
    assert!(page.change_image.is_none() && page.delete_split.is_none());
}

#[test]
fn blank_split() {
    let split = Split::new(Some("id".to_string()));
    assert_eq!(split.uuid, Some("id".to_string()));
    assert!(split.icon_path.is_none());
    assert_eq!(split.name, "");
    assert_eq!((split.hits, split.pb), (0, 0));
    assert_eq!(split.real_time, TimeSpan::zero());
    let split = Split::default();
    assert_eq!(split.uuid, None);
    assert_eq!(split.name, "");
}

#[test]
fn new_game_and_category() {
    let game = Game::new("g".to_string(), "Game".to_string());
    assert_eq!((game.uuid.as_str(), game.name.as_str()), ("g", "Game"));
    assert!(game.icon_path.is_none() && game.categories.is_empty());
    let category = Category::new("c".to_string(), "Any%".to_string());
    assert_eq!((category.uuid.as_str(), category.name.as_str()), ("c", "Any%"));
    assert!(category.icon_path.is_none() && category.splits.is_empty());
    assert_eq!(Game::default().name, "");
    assert_eq!(Category::default().uuid, "");
}

#[test]
fn names_are_changed() {
    let mut game = Game::new("g".to_string(), "Game".to_string());
    game.change_name("Other game");
    assert_eq!((game.uuid.as_str(), game.name.as_str()), ("g", "Other game"));
    let mut category = Category::new("c".to_string(), "Any%".to_string());
    category.splits.push(named("a", "First"));
    category.change_name("100%");
    assert_eq!((category.uuid.as_str(), category.name.as_str()), ("c", "100%"));
    assert_eq!(category.splits.len(), 1);
    let mut small = SmallGame { uuid: "g".to_string(), name: "Game".to_string() };
    small.change_name("");
    assert_eq!((small.uuid.as_str(), small.name.as_str()), ("g", ""));
    let mut small = SmallCategory { uuid: "c".to_string(), name: "Any%".to_string() };
    small.change_name("Low%");
    assert_eq!((small.uuid.as_str(), small.name.as_str()), ("c", "Low%"));
}

#[test]
fn pictures_are_cleared() {
    let mut category = Category::new("c".to_string(), "Any%".to_string());
    category.icon_path = Some(PathBuf::from("cat.png"));
    let mut a = named("a", "First");
    a.icon_path = Some(PathBuf::from("a.png"));
    a.hits = 4;
    category.splits = vec![a, named("b", "Second")];
    category.clear_icon_path();
    assert!(category.splits.iter().all(|s| s.icon_path.is_none()));
    assert_eq!(category.icon_path, Some(PathBuf::from("cat.png")));
    assert_eq!(category.splits[0].hits, 4);
    assert_eq!(category.splits[0].name, "First");
    let mut split = named("a", "First");
    split.icon_path = Some(PathBuf::from("a.png"));
    split.clear_icon_path();
    assert!(split.icon_path.is_none());
    assert_eq!(split.name, "First");
}

#[test]
fn splits_are_put_behind() {
    let mut category = Category::new("c".to_string(), "Any%".to_string());
    category.splits = vec![named("a", "First")];
    category.save_splits(vec![named("b", "Second"), named("c", "Third")]);
    let order: Vec<&str> = category.splits.iter().map(|s| s.name.as_str()).collect();
    assert_eq!(order, vec!["First", "Second", "Third"]);
}

#[test]
fn ids_are_filled_in() {
    let mut category = Category::new("c".to_string(), "Any%".to_string());
    let mut nameless = Split::new(None);
    nameless.name = "Second".to_string();
    nameless.hits = 3;
    category.splits = vec![named("a", "First"), nameless, Split::new(None)];
    category.fill_ids();
    assert_eq!(category.splits[0].uuid, Some("a".to_string()));
    let second = category.splits[1].uuid.clone().unwrap();
    let third = category.splits[2].uuid.clone().unwrap();
    assert_eq!(second.len(), 36);
    assert_eq!(third.len(), 36);
    assert_ne!(second, third);
    assert_eq!(category.splits[1].name, "Second");
    assert_eq!(category.splits[1].hits, 3);
}

#[test]
fn load_category_puts_the_cursor_on_the_first_split() {
    let mut app = fresh();
    app.selected_split = 7;
    let mut category = Category::new("c".to_string(), "Any%".to_string());
    category.splits = vec![Split::new(None), named("b", "Second")];
    app.load_category(Ok(category));
    assert_eq!(app.selected_split, 0);
    assert_eq!(app.num_splits_category, 2);
    let loaded = app.loaded_category.as_ref().unwrap();
    assert_eq!(loaded.uuid, "c");
    assert!(loaded.splits[0].uuid.is_some());
    assert_eq!(loaded.splits[1].uuid, Some("b".to_string()));
    assert_eq!(app.error, Error::NoError);
}

#[test]
fn load_category_notes_a_failure() {
    let mut app = with_game_and_category();
    app.load_category(Category::load("conf", "c9", Stored::Missing));
    assert!(app.loaded_category.is_none());
    assert!(app.loaded_game.is_some());
    assert_eq!(
        app.error,
        Error::Error(
            "Could not load category with uuid c9. File not found: \"conf/categories/c9.json\""
                .to_string()
        )
    );
}

#[test]
fn load_game_unloads_the_category() {
    let mut app = with_game_and_category();
    load_game(&mut app, Ok(Game::new("g2".to_string(), "Next".to_string())));
    assert_eq!(app.loaded_game.as_ref().unwrap().uuid, "g2");
    assert!(app.loaded_category.is_none());
    load_game(&mut app, Game::load("conf", "g3", Stored::Malformed));
    assert!(app.loaded_game.is_none());
    assert_eq!(
        app.error,
        Error::Error("Could not parse category json file: \"conf/categories/g3.json\"".to_string())
    );
}

#[test]
fn storage_reports_of_a_category() {
    let category = Category::new("c1".to_string(), "Any%".to_string());
    assert_eq!(Category::file("conf", "c1"), "conf/categories/c1.json");
    let found = Category::load("conf", "c1", Stored::Found(category.clone())).unwrap();
    assert_eq!((found.uuid.as_str(), found.name.as_str()), ("c1", "Any%"));
    assert_eq!(
        Category::load("conf", "c1", Stored::Malformed).unwrap_err(),
        Error::Error("Could not parse category json file: \"conf/categories/c1.json\"".to_string())
    );
    assert_eq!(category.save("conf", Written::Done), Ok(()));
    assert_eq!(
        category.save("conf", Written::NotSerialized),
        Err(Error::Error("Could not serialize category Any% with uuid c1".to_string()))
    );
    assert_eq!(
        category.save("conf", Written::NotWritten),
        Err(Error::Error(
            "Could not save category Any% with uuid c1 on path \"conf/categories/c1.json\""
                .to_string()
        ))
    );
}

#[test]
fn storage_reports_of_a_game() {
    let game = Game::new("g1".to_string(), "Game".to_string());
    assert_eq!(Game::file("conf", "g1"), "conf/games/g1.json");
    let found = Game::load("conf", "g1", Stored::Found(game.clone())).unwrap();
    assert_eq!((found.uuid.as_str(), found.name.as_str()), ("g1", "Game"));
    assert_eq!(
        Game::load("conf", "g1", Stored::Missing).unwrap_err(),
        Error::Error("Could not parse category json file: \"conf/categories/g1.json\"".to_string())
    );
    assert_eq!(game.save("conf", Written::Done), Ok(()));
    assert_eq!(
        game.save("conf", Written::NotSerialized),
        Err(Error::Error("Could not serialize game Game with uuid g1".to_string()))
    );
    assert_eq!(
        game.save("conf", Written::NotWritten),
        Err(Error::Error(
            "Could not save game with uuid g1 on path \"conf/games/g1.json\"".to_string()
        ))
    );
}

#[test]
fn add_game_needs_a_name() {
    let mut app = fresh();
    let mut page = ListPage::new();
    page.add_game_open = true;
    assert!(!add_game(&mut page, &mut app));
    assert!(page.add_game_empty);
    assert!(page.add_game_open);
    assert!(app.loaded_game.is_none());
    assert!(app.config.game_list.is_empty());
}

#[test]
fn add_game_lists_and_loads_the_game() {
    let mut app = with_game_and_category();
    app.num_splits_category = 3;
    let mut page = ListPage::new();
    page.add_game_open = true;
    page.add_game_empty = true;
    page.add_game_name = "New game".to_string();
    assert!(add_game(&mut page, &mut app));
    assert_eq!(page.add_game_name, "");
    assert!(!page.add_game_empty && !page.add_game_open);
    let game = app.loaded_game.as_ref().unwrap();
    assert_eq!(game.name, "New game");
    assert_eq!(game.uuid.len(), 36);
    assert!(game.categories.is_empty());
    assert!(app.loaded_category.is_none());
    assert_eq!(app.num_splits_category, 0);
    assert_eq!(app.config.game_list.len(), 3);
    assert_eq!(app.config.game_list[2].uuid, game.uuid);
    assert_eq!(app.config.game_list[2].name, "New game");
    assert_eq!(app.config.game_list[1].name, "Game");
}

#[test]
fn modify_game_renames_the_game_and_its_entry() {
    let mut app = with_game_and_category();
    let mut page = ListPage::new();
    page.modify_game_open = true;
    assert!(!modify_game(&mut page, &mut app));
    assert!(page.add_game_empty && page.modify_game_open);
    page.add_game_name = "Renamed".to_string();
    assert!(modify_game(&mut page, &mut app));
    assert_eq!(app.loaded_game.as_ref().unwrap().name, "Renamed");
    assert_eq!(app.loaded_game.as_ref().unwrap().uuid, "g1");
    let listed: Vec<(&str, &str)> =
        app.config.game_list.iter().map(|g| (g.uuid.as_str(), g.name.as_str())).collect();
    assert_eq!(listed, vec![("g0", "Older"), ("g1", "Renamed")]);
    assert_eq!(page.add_game_name, "");
    assert!(!page.add_game_empty && !page.modify_game_open);
    assert!(app.loaded_category.is_some());
}

#[test]
fn modify_game_without_a_game_does_nothing() {
    let mut app = fresh();
    let mut page = ListPage::new();
    page.add_game_name = "Renamed".to_string();
    page.modify_game_open = true;
    assert!(!modify_game(&mut page, &mut app));
    assert_eq!(page.add_game_name, "Renamed");
    assert!(page.modify_game_open);
}

#[test]
fn add_category_lists_and_loads_the_category() {
    let mut app = with_game_and_category();
    app.selected_split = 2;
    let mut page = ListPage::new();
    page.add_category_open = true;
    assert!(!add_category(&mut page, &mut app));
    assert!(page.add_category_empty);
    page.add_category_name = "Glitchless".to_string();
    assert!(add_category(&mut page, &mut app));
    let category = app.loaded_category.as_ref().unwrap();
    assert_eq!(category.name, "Glitchless");
    assert_eq!(category.uuid.len(), 36);
    assert!(category.splits.is_empty());
    let game = app.loaded_game.as_ref().unwrap();
    assert_eq!(game.categories.len(), 3);
    assert_eq!(game.categories[2].uuid, category.uuid);
    assert_eq!(game.categories[2].name, "Glitchless");
    assert_eq!(app.num_splits_category, 0);
    assert_eq!(app.selected_split, 0);
    assert_eq!(page.add_category_name, "");
    assert!(!page.add_category_empty && !page.add_category_open);
}

#[test]
fn add_category_without_a_game_does_nothing() {
    let mut app = fresh();
    let mut page = ListPage::new();
    page.add_category_name = "Glitchless".to_string();
    assert!(!add_category(&mut page, &mut app));
    assert!(app.loaded_category.is_none());
    assert_eq!(page.add_category_name, "Glitchless");
}

#[test]
fn modify_category_renames_the_category_and_its_entry() {
    let mut app = with_game_and_category();
    let mut page = ListPage::new();
    page.modify_category_open = true;
    page.add_category_name = "All bosses".to_string();
    assert!(modify_category(&mut page, &mut app));
    assert_eq!(app.loaded_category.as_ref().unwrap().name, "All bosses");
    let listed: Vec<(&str, &str)> = app
        .loaded_game
        .as_ref()
        .unwrap()
        .categories
        .iter()
        .map(|c| (c.uuid.as_str(), c.name.as_str()))
        .collect();
    assert_eq!(listed, vec![("c0", "Other"), ("c1", "All bosses")]);
    assert!(!page.modify_category_open);
    assert_eq!(names(&app), vec!["First", "Second", "Third"]);
    // without a name
    page.modify_category_open = true;
    assert!(!modify_category(&mut page, &mut app));
    assert!(page.add_category_empty && page.modify_category_open);
}

#[test]
fn table_is_cut_and_filled() {
    let mut rows = vec![named("a", "First"), named("b", "Second"), named("c", "Third")];
    resize_table(&mut rows, 2);
    assert_eq!(rows.iter().map(|s| s.name.as_str()).collect::<Vec<_>>(), vec!["First", "Second"]);
    resize_table(&mut rows, 4);
    assert_eq!(rows.len(), 4);
    assert_eq!(rows[1].name, "Second");
    assert_eq!(rows[2].name, "");
    assert_eq!(rows[2].uuid.as_ref().unwrap().len(), 36);
    assert_ne!(rows[2].uuid, rows[3].uuid);
    resize_table(&mut rows, 4);
    assert_eq!(rows.len(), 4);
    resize_table(&mut rows, 0);
    assert!(rows.is_empty());
}

#[test]
fn create_table_follows_the_count_of_the_page() {
    let mut app = with_game_and_category();
    app.num_splits_category = 5;
    assert!(create_table(&mut app));
    assert_eq!(names(&app), vec!["First", "Second", "Third", "", ""]);
    app.num_splits_category = 1;
    assert!(create_table(&mut app));
    assert_eq!(names(&app), vec!["First"]);
    let mut app = fresh();
    app.num_splits_category = 5;
    assert!(!create_table(&mut app));
}

#[test]
fn rows_are_taken_out_and_put_in() {
    let mut app = with_game_and_category();
    let mut page = ListPage::new();
    assert!(!edit_table(&mut page, &mut app));
    page.delete_split = Some(1);
    assert!(edit_table(&mut page, &mut app));
    assert_eq!(names(&app), vec!["First", "Third"]);
    assert_eq!(app.num_splits_category, 2);
    assert_eq!(page.delete_split, None);
    page.add_split_under = Some(0);
    assert!(edit_table(&mut page, &mut app));
    assert_eq!(names(&app), vec!["First", "", "Third"]);
    assert_eq!(app.loaded_category.as_ref().unwrap().splits[1].uuid, None);
    assert_eq!(app.num_splits_category, 3);
    assert_eq!(page.add_split_under, None);
    // both at once: first the row goes, then the new one comes
    page.delete_split = Some(0);
    page.add_split_under = Some(1);
    assert!(edit_table(&mut page, &mut app));
    assert_eq!(names(&app), vec!["", "Third", ""]);
}

#[test]
fn rows_that_are_not_there() {
    let mut app = with_game_and_category();
    let mut page = ListPage::new();
    page.delete_split = Some(3);
    page.add_split_under = Some(3);
    assert!(edit_table(&mut page, &mut app));
    assert_eq!(names(&app), vec!["First", "Second", "Third"]);
    assert_eq!((page.delete_split, page.add_split_under), (None, None));
    let mut app = fresh();
    page.delete_split = Some(0);
    assert!(!edit_table(&mut page, &mut app));
    assert_eq!(page.delete_split, Some(0));
}

#[test]
fn chosen_file_becomes_the_picture() {
    let mut app = with_game_and_category();
    let mut page = ListPage::new();
    page.change_image = Some(ChangeImage::Game);
    set_image(&mut page, &mut app, PathBuf::from("game.png"));
    assert_eq!(app.loaded_game.as_ref().unwrap().icon_path, Some(PathBuf::from("game.png")));
    assert_eq!(page.change_image, None);
    page.change_image = Some(ChangeImage::Category);
    set_image(&mut page, &mut app, PathBuf::from("cat.png"));
    assert_eq!(app.loaded_category.as_ref().unwrap().icon_path, Some(PathBuf::from("cat.png")));
    page.change_image = Some(ChangeImage::Split("b".to_string()));
    set_image(&mut page, &mut app, PathBuf::from("b.png"));
    let icons: Vec<Option<PathBuf>> =
        app.loaded_category.as_ref().unwrap().splits.iter().map(|s| s.icon_path.clone()).collect();
    assert_eq!(icons, vec![None, Some(PathBuf::from("b.png")), None]);
    // a split that is not there, and no request at all
    page.change_image = Some(ChangeImage::Split("x".to_string()));
    set_image(&mut page, &mut app, PathBuf::from("x.png"));
    set_image(&mut page, &mut app, PathBuf::from("y.png"));
    let again: Vec<Option<PathBuf>> =
        app.loaded_category.as_ref().unwrap().splits.iter().map(|s| s.icon_path.clone()).collect();
    assert_eq!(again, icons);
    assert_eq!(app.loaded_game.as_ref().unwrap().icon_path, Some(PathBuf::from("game.png")));
}

#[test]
fn chosen_file_without_game_and_category() {
    let mut app = fresh();
    let mut page = ListPage::new();
    page.change_image = Some(ChangeImage::Game);
    set_image(&mut page, &mut app, PathBuf::from("game.png"));
    assert_eq!(page.change_image, Some(ChangeImage::Game));
    assert!(app.loaded_game.is_none());
}

#[test]
fn saving_is_due_by_the_settings() {
    let mut app = fresh();
    assert!(app.config.autosave);
    assert!(app.save_due(false));
    assert!(!app.save_due(true));
    app.config.autosave = false;
    assert!(!app.save_due(false));
    assert!(app.save_due(true));
}

#[test]
fn note_keeps_the_last_failure() {
    let mut app = fresh();
    app.note(Ok(()));
    assert_eq!(app.error, Error::NoError);
    app.note(Err(Error::Error("first".to_string())));
    app.note(Ok(()));
    assert_eq!(app.error, Error::Error("first".to_string()));
    app.note(Err(Error::Error("second".to_string())));
    assert_eq!(app.error, Error::Error("second".to_string()));
}

#[test]
fn record_reading_writes_the_time_to_the_current_split() {
    let mut app = with_game_and_category();
    app.selected_split = 2;
    assert_eq!(app.record_reading(Ok(TimeSpan::from_secs(3))), Ok(()));
    let times: Vec<TimeSpan> =
        app.loaded_category.as_ref().unwrap().splits.iter().map(|s| s.real_time).collect();
    assert_eq!(times, vec![TimeSpan::zero(), TimeSpan::zero(), TimeSpan::from_secs(3)]);
    let failed = Err(Error::Error("no clock".to_string()));
    assert_eq!(app.record_reading(failed.clone()), Err(Error::Error("no clock".to_string())));
    app.selected_split = 3;
    assert_eq!(app.record_reading(failed), Ok(()));
    assert_eq!(app.record_reading(Ok(TimeSpan::from_secs(9))), Ok(()));
    let mut none = fresh();
    assert_eq!(none.record_reading(Ok(TimeSpan::from_secs(9))), Ok(()));
    assert_eq!(none.record_time(), Ok(()));
}

#[test]
fn list_says_what_is_to_be_saved() {
    let nothing = Saves { game: false, category: false, config: false };
    let mut app = with_game_and_category();
    let mut page = ListPage::new();

    // without a name nothing is added and nothing is saved
    assert_eq!(list(&mut page, &mut app, ListEvent::AddGame), nothing);
    assert!(page.add_game_empty);
    page.add_game_name = "New".to_string();
    assert_eq!(
        list(&mut page, &mut app, ListEvent::AddGame),
        Saves { game: true, category: false, config: true }
    );
    assert_eq!(app.loaded_game.as_ref().unwrap().name, "New");

    page.add_game_name = "Renamed".to_string();
    assert_eq!(
        list(&mut page, &mut app, ListEvent::ModifyGame),
        Saves { game: true, category: false, config: true }
    );
    assert_eq!(app.loaded_game.as_ref().unwrap().name, "Renamed");

    page.add_category_name = "Any%".to_string();
    assert_eq!(
        list(&mut page, &mut app, ListEvent::AddCategory),
        Saves { game: true, category: true, config: false }
    );
    page.add_category_name = "100%".to_string();
    assert_eq!(
        list(&mut page, &mut app, ListEvent::ModifyCategory),
        Saves { game: true, category: true, config: false }
    );
    assert_eq!(app.loaded_category.as_ref().unwrap().name, "100%");

    app.num_splits_category = 2;
    assert_eq!(
        list(&mut page, &mut app, ListEvent::CreateTable),
        Saves { game: false, category: true, config: false }
    );
    assert_eq!(names(&app).len(), 2);

    assert_eq!(list(&mut page, &mut app, ListEvent::TableDrawn), nothing);
    page.delete_split = Some(0);
    assert_eq!(
        list(&mut page, &mut app, ListEvent::TableDrawn),
        Saves { game: false, category: true, config: false }
    );
    assert_eq!(names(&app).len(), 1);

    page.change_image = Some(ChangeImage::Category);
    assert_eq!(list(&mut page, &mut app, ListEvent::ImageChosen(PathBuf::from("c.png"))), nothing);
    assert_eq!(app.loaded_category.as_ref().unwrap().icon_path, Some(PathBuf::from("c.png")));

    assert_eq!(
        list(&mut page, &mut app, ListEvent::SaveSplits),
        Saves { game: true, category: true, config: false }
    );

    let loaded = Category::load("conf", "c9", Stored::Missing);
    assert_eq!(list(&mut page, &mut app, ListEvent::CategoryLoaded(loaded)), nothing);
    assert!(app.loaded_category.is_none());
    let loaded = Ok(Game::new("g9".to_string(), "Nine".to_string()));
    assert_eq!(list(&mut page, &mut app, ListEvent::GameLoaded(loaded)), nothing);
    assert_eq!(app.loaded_game.as_ref().unwrap().uuid, "g9");

    // without a game no category is added
    let mut app = fresh();
    page.add_category_name = "Any%".to_string();
    assert_eq!(list(&mut page, &mut app, ListEvent::AddCategory), nothing);
    assert_eq!(list(&mut page, &mut app, ListEvent::CreateTable), nothing);
}
