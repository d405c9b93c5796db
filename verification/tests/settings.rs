use hitsplit::run::chrono::ChronometerFormat;
use hitsplit::run::game::SmallGame;
use hitsplit::settings::columns::{Column, ColumnVec};
use hitsplit::settings::config::{Config, OptionalConfig};
use hitsplit::Stored;

const ALL: [Column; 7] = [
    Column::Icon,
    Column::SplitName,
    Column::Hits,
    Column::Difference,
    Column::PersonalBest,
    Column::Chrono,
    Column::ChronoAcum,
];

fn shown(row: &ColumnVec) -> Vec<Column> {
    row.iter().copied().collect()
}

fn nothing_stored() -> OptionalConfig {
    OptionalConfig {
        dark_mode: None,
        next_split_as_reset: None,
        autosave: None,
        autosave_interval: None,
        game_list: None,
        limit_splits_shown: None,
        num_splits_counter: None,
        columns: None,
        chrono_format: None,
        background_color: None,
        background_transparency: None,
        text_color_default: None,
        text_color_nohit: None,
        text_color_better: None,
        text_color_worse: None,
        always_on_top: None,
    }
}

fn assert_first_start(config: &Config) {
    assert!(config.dark_mode);
    assert!(config.next_split_as_reset);
    assert!(config.autosave);
    assert_eq!(config.autosave_interval, 60);
    assert!(config.game_list.is_empty());
    assert!(!config.limit_splits_shown);
    assert_eq!(config.num_splits_counter, 10);
    assert_eq!(shown(&config.columns), ALL.to_vec());
    assert_eq!(config.chrono_format, ChronometerFormat::HHMMSSX);
    assert_eq!(config.background_color, [28, 28, 28]);
    assert_eq!(config.background_transparency, 255);
    assert_eq!(config.text_color_default, [240, 240, 240]);
    assert_eq!(config.text_color_nohit, [8, 250, 8]);
    assert_eq!(config.text_color_better, [250, 250, 8]);
    assert_eq!(config.text_color_worse, [250, 8, 8]);
    assert!(config.always_on_top);
}

#[test]
fn settings_of_a_first_start() {
    assert_first_start(&Config::default());
}

#[test]
fn load_without_a_usable_file_gives_the_first_start() {
    assert_first_start(&Config::load(Stored::Missing));
    assert_first_start(&Config::load(Stored::Malformed));
}

#[test]
fn gaps_are_filled() {
    assert_first_start(&nothing_stored().to_config());
    assert_first_start(&OptionalConfig::new().to_config());
    assert_first_start(&Config::load(Stored::Found(nothing_stored())));
}

#[test]
fn stored_settings_are_kept() {
    let mut columns = ColumnVec::new();
    columns.push(&Column::Hits);
    let stored = OptionalConfig {
        dark_mode: Some(false),
        next_split_as_reset: Some(false),
        autosave: Some(false),
        autosave_interval: Some(5),
        game_list: Some(vec![SmallGame { uuid: "g".to_string(), name: "Game".to_string() }]),
        limit_splits_shown: Some(true),
        num_splits_counter: Some(7),
        columns: Some(columns),
        chrono_format: Some(ChronometerFormat::MMSS),
        background_color: Some([1, 2, 3]),
        background_transparency: Some(9),
        text_color_default: Some([4, 5, 6]),
        text_color_nohit: Some([7, 8, 9]),
        text_color_better: Some([10, 11, 12]),
        text_color_worse: Some([13, 14, 15]),
        always_on_top: Some(false),
    };
    let config = stored.to_config();
    assert!(!config.dark_mode);
    assert!(!config.next_split_as_reset);
    assert!(!config.autosave);
    assert_eq!(config.autosave_interval, 5);
    assert_eq!(config.game_list.len(), 1);
    assert_eq!(config.game_list[0].uuid, "g");
    assert_eq!(config.game_list[0].name, "Game");
    assert!(config.limit_splits_shown);
    assert_eq!(config.num_splits_counter, 7);
    assert_eq!(shown(&config.columns), vec![Column::Hits]);
    assert_eq!(config.chrono_format, ChronometerFormat::MMSS);
    assert_eq!(config.background_color, [1, 2, 3]);
    assert_eq!(config.background_transparency, 9);
    assert_eq!(config.text_color_default, [4, 5, 6]);
    assert_eq!(config.text_color_nohit, [7, 8, 9]);
    assert_eq!(config.text_color_better, [10, 11, 12]);
    assert_eq!(config.text_color_worse, [13, 14, 15]);
    assert!(!config.always_on_top);
}

#[test]
fn single_gaps_are_filled_one_by_one() {
    let mut stored = nothing_stored();
    stored.autosave_interval = Some(30);
    stored.next_split_as_reset = Some(false);
    let config = stored.to_config();
    assert_eq!(config.autosave_interval, 30);
    assert!(!config.next_split_as_reset);
    assert!(config.dark_mode);
    assert_eq!(config.num_splits_counter, 10);
}

#[test]
fn settings_file() {
    assert_eq!(Config::file("conf"), "conf/config.json");
}

#[test]
fn column_places() {
    for (place, column) in ALL.iter().enumerate() {
        assert_eq!(column.position(), place);
    }
}

#[test]
fn all_columns_at_first() {
    let row = ColumnVec::default();
    assert_eq!(row.len(), 7);
    assert_eq!(shown(&row), ALL.to_vec());
    for column in ALL {
        assert!(row.contains(&column));
    }
    assert_eq!(row.get(0), Some(Column::Icon));
    assert_eq!(row.get(6), Some(Column::ChronoAcum));
    assert_eq!(row.get(7), None);
}

#[test]
fn push_puts_a_column_at_its_place() {
    let mut row = ColumnVec::new();
    assert_eq!(row.len(), 0);
    row.push(&Column::PersonalBest);
    row.push(&Column::Icon);
    row.push(&Column::ChronoAcum);
    row.push(&Column::Hits);
    assert_eq!(
        shown(&row),
        vec![Column::Icon, Column::Hits, Column::PersonalBest, Column::ChronoAcum]
    );
    assert!(row.contains(&Column::Hits));
    assert!(!row.contains(&Column::Chrono));
}

#[test]
fn push_does_not_show_a_column_twice() {
    let mut row = ColumnVec::default();
    row.push(&Column::Hits);
    row.push(&Column::Icon);
    row.push(&Column::ChronoAcum);
    assert_eq!(shown(&row), ALL.to_vec());
}

#[test]
fn remove_hides_a_column() {
    let mut row = ColumnVec::default();
    row.remove(&Column::Difference);
    row.remove(&Column::Icon);
    assert_eq!(
        shown(&row),
        vec![Column::SplitName, Column::Hits, Column::PersonalBest, Column::Chrono, Column::ChronoAcum]
    );
    // a hidden column stays hidden
    row.remove(&Column::Icon);
    assert_eq!(row.len(), 5);
    row.push(&Column::Difference);
    assert_eq!(
        shown(&row),
        vec![
            Column::SplitName,
            Column::Hits,
            Column::Difference,
            Column::PersonalBest,
            Column::Chrono,
            Column::ChronoAcum
        ]
    );
}

#[test]
fn clone_of_a_row() {
    let mut row = ColumnVec::default();
    row.remove(&Column::Chrono);
    let copy = row.clone();
    assert_eq!(copy, row);
    assert_eq!(shown(&copy), shown(&row));
}

#[test]
fn defaults_are_written_back_where_no_settings_were_found() {
    assert!(Config::writes_defaults(&Stored::Missing));
    assert!(Config::writes_defaults(&Stored::Malformed));
    assert!(!Config::writes_defaults(&Stored::Found(nothing_stored())));
}

#[test]
fn missing_file_and_empty_object_load_alike() {
    let missing = Config::load(Stored::Missing);
    let empty = Config::load(Stored::Found(OptionalConfig::new()));
    assert_eq!(missing.dark_mode, empty.dark_mode);
    assert_eq!(missing.next_split_as_reset, empty.next_split_as_reset);
    assert_eq!(missing.autosave, empty.autosave);
    assert_eq!(missing.autosave_interval, empty.autosave_interval);
    assert_eq!(missing.game_list.len(), empty.game_list.len());
    assert_eq!(missing.limit_splits_shown, empty.limit_splits_shown);
    assert_eq!(missing.num_splits_counter, empty.num_splits_counter);
    assert_eq!(missing.columns, empty.columns);
    assert_eq!(missing.chrono_format, empty.chrono_format);
    assert_eq!(missing.background_color, empty.background_color);
    assert_eq!(missing.background_transparency, empty.background_transparency);
    assert_eq!(missing.text_color_default, empty.text_color_default);
    assert_eq!(missing.text_color_nohit, empty.text_color_nohit);
    assert_eq!(missing.text_color_better, empty.text_color_better);
    assert_eq!(missing.text_color_worse, empty.text_color_worse);
    assert_eq!(missing.always_on_top, empty.always_on_top);
}
