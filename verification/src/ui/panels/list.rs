//! The list page: what its buttons and dialogs do to the games, the
//! categories and the splits.

use vstd::prelude::*;
use vstd::string::*;
use std::path::PathBuf;
use crate::Error;
use crate::run::category::{find_split, id_text, place_of, Category, SmallCategory};
use crate::run::game::{Game, SmallGame};
use crate::run::split::{new_unique_id, Split};
use crate::settings::config::Config;
use crate::ui::hitsplit::HitSplit;
use crate::ui::ChangeImage;

verus! {

/// What the list page is in the middle of: its dialogs and what was asked
/// of the table of splits.
#[derive(Debug)]
pub struct ListPage {
    pub add_game_name: String,
    pub add_game_open: bool,
    pub add_game_empty: bool,
    pub modify_game_open: bool,
    pub add_category_name: String,
    pub add_category_open: bool,
    pub add_category_empty: bool,
    pub modify_category_open: bool,
    /// The place of the split that is to go.
    pub delete_split: Option<usize>,
    /// The place of the split behind which a new one is to come.
    pub add_split_under: Option<usize>,
    pub opened_file: Option<PathBuf>,
    /// Whose picture the open file dialog is choosing.
    pub change_image: Option<ChangeImage>,
}

impl ListPage {
    /// The page with every dialog closed and nothing asked.
    pub fn new() -> (page: Self)
        ensures
            page.add_game_name@.len() == 0,
            !page.add_game_open,
            !page.add_game_empty,
            !page.modify_game_open,
            page.add_category_name@.len() == 0,
            !page.add_category_open,
            !page.add_category_empty,
            !page.modify_category_open,
            page.delete_split is None,
            page.add_split_under is None,
            page.opened_file is None,
            page.change_image is None,
    {
        ListPage {
            add_game_name: String::new(),
            add_game_open: false,
            add_game_empty: false,
            modify_game_open: false,
            add_category_name: String::new(),
            add_category_open: false,
            add_category_empty: false,
            modify_category_open: false,
            delete_split: None,
            add_split_under: None,
            opened_file: None,
            change_image: None,
        }
    }
}

/// A listing: the ids and names of games or of categories, in their order.
pub type Listing = Seq<(Seq<char>, Seq<char>)>;

/// The games as a listing.
pub open spec fn games_listed(games: Seq<SmallGame>) -> Listing {
    games.map_values(|game: SmallGame| (game.uuid@, game.name@))
}

/// The categories as a listing.
pub open spec fn categories_listed(categories: Seq<SmallCategory>) -> Listing {
    categories.map_values(|category: SmallCategory| (category.uuid@, category.name@))
}

/// The place of the first entry of `listing` from place `from` on that has
/// the id `id`.
pub open spec fn first_entry(listing: Listing, id: Seq<char>, from: nat) -> Option<nat>
    decreases listing.len() - from,
{
    if from >= listing.len() {
        None
    } else if listing[from as int].0 == id {
        Some(from)
    } else {
        first_entry(listing, id, from + 1)
    }
}

/// `listing` with the first entry of the id `id` named `name`; as it is
/// where no entry has that id.
pub open spec fn with_name(listing: Listing, id: Seq<char>, name: Seq<char>) -> Listing {
    match first_entry(listing, id, 0) {
        Some(place) => listing.update(place as int, (id, name)),
        None => listing,
    }
}

fn rename_game(games: &mut Vec<SmallGame>, id: &String, name: &str)
    ensures
        games_listed(final(games)@) == with_name(games_listed(old(games)@), id@, name@),
{
    let ghost listing = games_listed(games@);
    let n: usize = games.len();
    let mut i: usize = 0;
    while i < n
        invariant
            i <= n,
            n == games.len(),
            games@ == old(games)@,
            listing == games_listed(games@),
            first_entry(listing, id@, 0) == first_entry(listing, id@, i as nat),
        decreases n - i,
    {
        if games[i].uuid == *id {
            games[i].change_name(name);
            return ;
        }
        i += 1;
    }
}

fn rename_category(categories: &mut Vec<SmallCategory>, id: &String, name: &str)
    ensures
        categories_listed(final(categories)@) == with_name(
            categories_listed(old(categories)@),
            id@,
            name@,
        ),
{
    let ghost listing = categories_listed(categories@);
    let n: usize = categories.len();
    let mut i: usize = 0;
    while i < n
        invariant
            i <= n,
            n == categories.len(),
            categories@ == old(categories)@,
            listing == categories_listed(categories@),
            first_entry(listing, id@, 0) == first_entry(listing, id@, i as nat),
        decreases n - i,
    {
        if categories[i].uuid == *id {
            categories[i].change_name(name);
            return ;
        }
        i += 1;
    }
}

/// What `load_game` makes of `before`.
pub open spec fn game_loaded(before: HitSplit, loaded: Result<Game, Error>, after: HitSplit) -> bool {
    match loaded {
        Ok(game) => after == (HitSplit {
            loaded_game: Some(game),
            loaded_category: None,
            ..before
        }),
        Err(e) => after == (HitSplit {
            loaded_game: None,
            loaded_category: None,
            error: e,
            ..before
        }),
    }
}

/// Takes in the outcome of loading the game that was picked. Whatever came
/// of it, no category is loaded any more. A failure is noted, and no game is
/// loaded.
pub fn load_game(app: &mut HitSplit, loaded: Result<Game, Error>)
    ensures
        game_loaded(*old(app), loaded, *final(app)),
        final(app).cursor_in_range(),
{
    app.loaded_category = None;
    match loaded {
        Ok(game) => {
            app.loaded_game = Some(game);
        },
        Err(e) => {
            app.error = e;
            app.loaded_game = None;
        },
    }
}

/// The dialog for a name of a game, closed and emptied.
pub open spec fn game_dialog_closed(before: ListPage, after: ListPage) -> bool {
    &&& after == (ListPage {
        add_game_name: after.add_game_name,
        add_game_empty: false,
        add_game_open: false,
        modify_game_open: after.modify_game_open,
        ..before
    })
    &&& after.add_game_name@.len() == 0
}

/// The dialog for a name of a category, closed and emptied.
pub open spec fn category_dialog_closed(before: ListPage, after: ListPage) -> bool {
    &&& after == (ListPage {
        add_category_name: after.add_category_name,
        add_category_empty: false,
        add_category_open: false,
        modify_category_open: after.modify_category_open,
        ..before
    })
    &&& after.add_category_name@.len() == 0
}

/// What `add_game` makes of the page and of the state, and whether it added
/// a game.
pub open spec fn game_added(
    page: ListPage,
    before: HitSplit,
    shown: ListPage,
    after: HitSplit,
    added: bool,
) -> bool {
    if page.add_game_name@.len() == 0 {
        &&& !added
        &&& shown == (ListPage { add_game_empty: true, ..page })
        &&& after == before
    } else {
        &&& added
        &&& game_dialog_closed(page, shown)
        &&& shown.modify_game_open == page.modify_game_open
        &&& after == (HitSplit {
            config: after.config,
            loaded_game: after.loaded_game,
            num_splits_category: 0,
            loaded_category: None,
            ..before
        })
        &&& after.loaded_game matches Some(game)
        &&& game.name == page.add_game_name
        &&& game.icon_path is None
        &&& game.categories@.len() == 0
        &&& after.config == (Config { game_list: after.config.game_list, ..before.config })
        &&& after.config.game_list@ == before.config.game_list@.push(
            SmallGame { uuid: game.uuid, name: game.name },
        )
    }
}

/// The "Add" button of the dialog for a new game. Without a name the dialog
/// says so and stays. With one, a game of that name and a new id is listed
/// in the settings and becomes the loaded game, with no category loaded; the
/// dialog closes. The result tells whether there is a game to save.
pub fn add_game(page: &mut ListPage, app: &mut HitSplit) -> (added: bool)
    ensures
        game_added(*old(page), *old(app), *final(page), *final(app), added),
        old(app).cursor_in_range() ==> final(app).cursor_in_range(),
{
    if page.add_game_name.as_str().is_empty() {
        page.add_game_empty = true;
        false
    } else {
        let uuid: String = new_unique_id();
        let listed = SmallGame { uuid: uuid.clone(), name: page.add_game_name.clone() };
        let game = Game::new(uuid, page.add_game_name.clone());
        app.config.game_list.push(listed);
        page.add_game_name = String::new();
        page.add_game_empty = false;
        page.add_game_open = false;
        app.num_splits_category = 0;
        app.loaded_category = None;
        app.loaded_game = Some(game);
        true
    }
}

/// What `modify_game` makes of the page and of the state, and whether it
/// renamed a game.
pub open spec fn game_modified(
    page: ListPage,
    before: HitSplit,
    shown: ListPage,
    after: HitSplit,
    renamed: bool,
) -> bool {
    if page.add_game_name@.len() == 0 {
        &&& !renamed
        &&& shown == (ListPage { add_game_empty: true, ..page })
        &&& after == before
    } else {
        match before.loaded_game {
            Some(game) => {
                &&& renamed
                &&& shown == (ListPage {
                    add_game_name: shown.add_game_name,
                    add_game_empty: false,
                    modify_game_open: false,
                    ..page
                })
                &&& shown.add_game_name@.len() == 0
                &&& after == (HitSplit {
                    config: after.config,
                    loaded_game: after.loaded_game,
                    ..before
                })
                &&& after.loaded_game matches Some(named)
                &&& named == (Game { name: named.name, ..game })
                &&& named.name@ == page.add_game_name@
                &&& after.config == (Config { game_list: after.config.game_list, ..before.config })
                &&& games_listed(after.config.game_list@) == with_name(
                    games_listed(before.config.game_list@),
                    game.uuid@,
                    page.add_game_name@,
                )
            },
            None => !renamed && shown == page && after == before,
        }
    }
}

/// The "Change name" button of the dialog for the name of the game. Without
/// a name the dialog says so and stays. With one, the loaded game and its
/// entry in the settings get that name and the dialog closes. The result
/// tells whether there is a game to save.
pub fn modify_game(page: &mut ListPage, app: &mut HitSplit) -> (renamed: bool)
    ensures
        game_modified(*old(page), *old(app), *final(page), *final(app), renamed),
        old(app).cursor_in_range() ==> final(app).cursor_in_range(),
{
    if page.add_game_name.as_str().is_empty() {
        page.add_game_empty = true;
        return false;
    }
    match &mut app.loaded_game {
        Some(game) => {
            game.change_name(page.add_game_name.as_str());
            rename_game(&mut app.config.game_list, &game.uuid, page.add_game_name.as_str());
            page.add_game_name = String::new();
            page.add_game_empty = false;
            page.modify_game_open = false;
            true
        },
        None => false,
    }
}

/// What `add_category` makes of the page and of the state, and whether it
/// added a category.
pub open spec fn category_added(
    page: ListPage,
    before: HitSplit,
    shown: ListPage,
    after: HitSplit,
    added: bool,
) -> bool {
    if page.add_category_name@.len() == 0 {
        &&& !added
        &&& shown == (ListPage { add_category_empty: true, ..page })
        &&& after == before
    } else {
        match before.loaded_game {
            Some(game) => {
                &&& added
                &&& category_dialog_closed(page, shown)
                &&& shown.modify_category_open == page.modify_category_open
                &&& after == (HitSplit {
                    loaded_game: after.loaded_game,
                    loaded_category: after.loaded_category,
                    num_splits_category: 0,
                    selected_split: 0,
                    ..before
                })
                &&& after.loaded_category matches Some(category)
                &&& category.name == page.add_category_name
                &&& category.icon_path is None
                &&& category.splits@.len() == 0
                &&& after.loaded_game matches Some(listing)
                &&& listing == (Game { categories: listing.categories, ..game })
                &&& listing.categories@ == game.categories@.push(
                    SmallCategory { uuid: category.uuid, name: category.name },
                )
            },
            None => !added && shown == page && after == before,
        }
    }
}

/// The "Add" button of the dialog for a new category. Without a name the
/// dialog says so and stays. With one, a category of that name and a new id
/// is listed in the loaded game and becomes the loaded category, the cursor
/// on its first split; the dialog closes. The result tells whether there are
/// a game and a category to save.
pub fn add_category(page: &mut ListPage, app: &mut HitSplit) -> (added: bool)
    ensures
        category_added(*old(page), *old(app), *final(page), *final(app), added),
        old(app).cursor_in_range() ==> final(app).cursor_in_range(),
{
    if page.add_category_name.as_str().is_empty() {
        page.add_category_empty = true;
        return false;
    }
    match &mut app.loaded_game {
        Some(game) => {
            let uuid: String = new_unique_id();
            let listed = SmallCategory { uuid: uuid.clone(), name: page.add_category_name.clone() };
            let category = Category::new(uuid, page.add_category_name.clone());
            game.categories.push(listed);
            page.add_category_open = false;
            page.add_category_name = String::new();
            page.add_category_empty = false;
            app.loaded_category = Some(category);
            app.num_splits_category = 0;
            app.selected_split = 0;
            true
        },
        None => false,
    }
}

/// What `modify_category` makes of the page and of the state, and whether
/// it renamed a category.
pub open spec fn category_modified(
    page: ListPage,
    before: HitSplit,
    shown: ListPage,
    after: HitSplit,
    renamed: bool,
) -> bool {
    if page.add_category_name@.len() == 0 {
        &&& !renamed
        &&& shown == (ListPage { add_category_empty: true, ..page })
        &&& after == before
    } else {
        match (before.loaded_game, before.loaded_category) {
            (Some(game), Some(category)) => {
                &&& renamed
                &&& shown == (ListPage {
                    add_category_name: shown.add_category_name,
                    add_category_empty: false,
                    modify_category_open: false,
                    ..page
                })
                &&& shown.add_category_name@.len() == 0
                &&& after == (HitSplit {
                    loaded_game: after.loaded_game,
                    loaded_category: after.loaded_category,
                    ..before
                })
                &&& after.loaded_category matches Some(named)
                &&& named == (Category { name: named.name, ..category })
                &&& named.name@ == page.add_category_name@
                &&& after.loaded_game matches Some(listing)
                &&& listing == (Game { categories: listing.categories, ..game })
                &&& categories_listed(listing.categories@) == with_name(
                    categories_listed(game.categories@),
                    category.uuid@,
                    page.add_category_name@,
                )
            },
            _ => !renamed && shown == page && after == before,
        }
    }
}

/// The "Change name" button of the dialog for the name of the category.
/// Without a name the dialog says so and stays. With one, the loaded
/// category and its entry in the loaded game get that name and the dialog
/// closes. The result tells whether there are a game and a category to save.
pub fn modify_category(page: &mut ListPage, app: &mut HitSplit) -> (renamed: bool)
    ensures
        category_modified(*old(page), *old(app), *final(page), *final(app), renamed),
        old(app).cursor_in_range() ==> final(app).cursor_in_range(),
{
    if page.add_category_name.as_str().is_empty() {
        page.add_category_empty = true;
        return false;
    }
    match &mut app.loaded_game {
        Some(game) => {
            match &mut app.loaded_category {
                Some(category) => {
                    category.change_name(page.add_category_name.as_str());
                    rename_category(
                        &mut game.categories,
                        &category.uuid,
                        page.add_category_name.as_str(),
                    );
                    page.add_category_name = String::new();
                    page.add_category_empty = false;
                    page.modify_category_open = false;
                    true
                },
                None => false,
            }
        },
        None => false,
    }
}

/// The table `before` made `count` splits long: what is beyond is dropped,
/// what is missing is filled up with blank splits that have an id.
pub open spec fn table_of(before: Seq<Split>, after: Seq<Split>, count: nat) -> bool {
    &&& after.len() == count
    &&& forall|i: int| 0 <= i < count && i < before.len() ==> #[trigger] after[i] == before[i]
    &&& forall|i: int|
        before.len() <= i < count ==> (#[trigger] after[i]).uuid is Some && after[i].is_blank(
            after[i].uuid,
        )
}

/// Makes the table `count` splits long.
pub fn resize_table(splits: &mut Vec<Split>, count: usize)
    ensures
        table_of(old(splits)@, final(splits)@, count as nat),
{
    while splits.len() > count
        invariant
            splits.len() <= old(splits).len(),
            splits.len() >= count || splits.len() == old(splits).len(),
            splits@ == old(splits)@.take(splits.len() as int),
        decreases splits.len(),
    {
        splits.pop();
    }
    let ghost kept: int = splits.len() as int;
    while splits.len() < count
        invariant
            kept <= splits.len(),
            kept <= old(splits).len(),
            kept < old(splits).len() ==> kept == count,
            splits.len() <= count || splits.len() == kept,
            splits@.take(kept) == old(splits)@.take(kept),
            forall|i: int|
                kept <= i < splits.len() ==> (#[trigger] splits[i]).uuid is Some && splits[i].is_blank(
                    splits[i].uuid,
                ),
        decreases count - splits.len(),
    {
        let split = Split::new(Some(new_unique_id()));
        splits.push(split);
    }
    assert forall|i: int| 0 <= i < count && i < old(splits).len() implies #[trigger] splits[i]
        == old(splits)[i] by {
        assert(splits@.take(kept)[i] == old(splits)@.take(kept)[i]);
    }
}

/// What `create_table` makes of `before`, and whether there is a category to
/// save.
pub open spec fn table_created(before: HitSplit, after: HitSplit, made: bool) -> bool {
    match before.loaded_category {
        Some(category) => {
            &&& made
            &&& after == (HitSplit { loaded_category: after.loaded_category, ..before })
            &&& after.loaded_category matches Some(resized)
            &&& resized == (Category { splits: resized.splits, ..category })
            &&& table_of(category.splits@, resized.splits@, before.num_splits_category as nat)
        },
        None => !made && after == before,
    }
}

/// The "Create table" button: the loaded category gets as many splits as
/// the page says. Without a loaded category nothing happens.
pub fn create_table(app: &mut HitSplit) -> (made: bool)
    ensures
        table_created(*old(app), *final(app), made),
{
    let count: usize = app.num_splits_category;
    match &mut app.loaded_category {
        Some(category) => {
            resize_table(&mut category.splits, count);
            true
        },
        None => false,
    }
}

/// The table without the split at `place`; as it is where it has no such
/// place.
pub open spec fn split_removed(rows: Seq<Split>, place: Option<usize>) -> Seq<Split> {
    match place {
        Some(i) => if i < rows.len() {
            rows.remove(i as int)
        } else {
            rows
        },
        None => rows,
    }
}

/// `after` is the table `rows` with a blank split behind the one at
/// `place`; the same table where it has no such place.
pub open spec fn split_added(rows: Seq<Split>, place: Option<usize>, after: Seq<Split>) -> bool {
    match place {
        Some(i) => if i < rows.len() {
            &&& after.len() == rows.len() + 1
            &&& after[i + 1].is_blank(None)
            &&& after.remove(i + 1) == rows
        } else {
            after == rows
        },
        None => after == rows,
    }
}

/// What `edit_table` makes of the page and of the state, and whether there
/// is a category to save.
pub open spec fn table_edited(
    page: ListPage,
    before: HitSplit,
    shown: ListPage,
    after: HitSplit,
    edited: bool,
) -> bool {
    match before.loaded_category {
        Some(category) => {
            &&& edited == (page.delete_split is Some || page.add_split_under is Some)
            &&& shown == (ListPage { delete_split: None, add_split_under: None, ..page })
            &&& after == (HitSplit {
                loaded_category: after.loaded_category,
                num_splits_category: after.num_splits_category,
                ..before
            })
            &&& after.loaded_category matches Some(changed)
            &&& changed == (Category { splits: changed.splits, ..category })
            &&& split_added(
                split_removed(category.splits@, page.delete_split),
                page.add_split_under,
                changed.splits@,
            )
            &&& after.num_splits_category == if edited {
                changed.splits.len()
            } else {
                before.num_splits_category
            }
        },
        None => !edited && shown == page && after == before,
    }
}

fn take_out(splits: &mut Vec<Split>, place: Option<usize>)
    ensures
        final(splits)@ == split_removed(old(splits)@, place),
{
    match place {
        Some(i) => {
            if i < splits.len() {
                splits.remove(i);
            }
        },
        None => {},
    }
}

fn put_in(splits: &mut Vec<Split>, place: Option<usize>)
    ensures
        split_added(old(splits)@, place, final(splits)@),
{
    match place {
        Some(i) => {
            if i < splits.len() {
                splits.insert(i + 1, Split::new(None));
                assert(splits@.remove(i + 1) =~= old(splits)@);
            }
        },
        None => {},
    }
}

/// Does to the table of the loaded category what its rows asked for: first
/// the split that is to go is taken out, then a blank split is put behind
/// the one that asked for it. A request for a place that the table has not
/// is dropped. After a request the page says how many splits there are.
pub fn edit_table(page: &mut ListPage, app: &mut HitSplit) -> (edited: bool)
    ensures
        table_edited(*old(page), *old(app), *final(page), *final(app), edited),
{
    match &mut app.loaded_category {
        Some(category) => {
            let edited: bool = page.delete_split.is_some() || page.add_split_under.is_some();
            take_out(&mut category.splits, page.delete_split);
            put_in(&mut category.splits, page.add_split_under);
            page.delete_split = None;
            page.add_split_under = None;
            if edited {
                app.num_splits_category = category.splits.len();
            }
            edited
        },
        None => false,
    }
}

/// `after` is the table `rows` with the picture `file` on the first split of
/// the id `id`; the same table where no split has that id.
pub open spec fn picture_set(rows: Seq<Split>, id: Seq<char>, file: PathBuf, after: Seq<Split>) -> bool {
    let place = place_of(rows, Some(id)) as int;
    if place < rows.len() {
        after == rows.update(place, Split { icon_path: Some(file), ..rows[place] })
    } else {
        after == rows
    }
}

/// What `set_image` makes of the page and of the state.
pub open spec fn image_set(
    page: ListPage,
    before: HitSplit,
    file: PathBuf,
    shown: ListPage,
    after: HitSplit,
) -> bool {
    match (before.loaded_game, before.loaded_category) {
        (Some(game), Some(category)) => {
            &&& shown == (ListPage { change_image: None, ..page })
            &&& after == (HitSplit {
                loaded_game: after.loaded_game,
                loaded_category: after.loaded_category,
                ..before
            })
            &&& after.loaded_game matches Some(pictured_game)
            &&& after.loaded_category matches Some(pictured)
            &&& match page.change_image {
                Some(ChangeImage::Game) => {
                    &&& pictured_game == (Game { icon_path: Some(file), ..game })
                    &&& pictured == category
                },
                Some(ChangeImage::Category) => {
                    &&& pictured_game == game
                    &&& pictured == (Category { icon_path: Some(file), ..category })
                },
                Some(ChangeImage::Split(id)) => {
                    &&& pictured_game == game
                    &&& pictured == (Category { splits: pictured.splits, ..category })
                    &&& picture_set(category.splits@, id@, file, pictured.splits@)
                },
                None => pictured_game == game && pictured == category,
            }
        },
        _ => shown == page && after == before,
    }
}

/// Takes in the file that was chosen in the file dialog: it becomes the
/// picture of what the dialog was opened for, the loaded game, the loaded
/// category or the split with the id that was kept. Then the page waits for
/// no picture any more. Without a loaded game and a loaded category nothing
/// happens.
pub fn set_image(page: &mut ListPage, app: &mut HitSplit, file: PathBuf)
    ensures
        image_set(*old(page), *old(app), file, *final(page), *final(app)),
        old(app).cursor_in_range() ==> final(app).cursor_in_range(),
{
    match &mut app.loaded_game {
        Some(game) => {
            match &mut app.loaded_category {
                Some(category) => {
                    match page.change_image.take() {
                        Some(ChangeImage::Game) => {
                            game.icon_path = Some(file);
                        },
                        Some(ChangeImage::Category) => {
                            category.icon_path = Some(file);
                        },
                        Some(ChangeImage::Split(id)) => {
                            let wanted: Option<String> = Some(id);
                            let place: usize = find_split(&category.splits, &wanted);
                            if place < category.splits.len() {
                                category.splits[place].icon_path = Some(file);
                            }
                        },
                        None => {},
                    }
                },
                None => {},
            }
        },
        None => {},
    }
}

/// What can happen on the list page.
#[derive(Debug)]
pub enum ListEvent {
    /// The "Add" button of the dialog for a new game.
    AddGame,
    /// The "Change name" button of the dialog for the name of the game.
    ModifyGame,
    /// The "Add" button of the dialog for a new category.
    AddCategory,
    /// The "Change name" button of the dialog for the name of the category.
    ModifyCategory,
    /// A game was picked, and this came of loading it.
    GameLoaded(Result<Game, Error>),
    /// A category was picked, and this came of loading it.
    CategoryLoaded(Result<Category, Error>),
    /// The "Create table" button.
    CreateTable,
    /// The table was drawn, and its rows may have asked for something.
    TableDrawn,
    /// A file was chosen in the file dialog.
    ImageChosen(PathBuf),
    /// The "Save splits" button.
    SaveSplits,
}

/// What is to be saved after something happened on the list page.
#[derive(Copy, Clone, Debug, Eq, PartialEq, Structural)]
pub struct Saves {
    pub game: bool,
    pub category: bool,
    pub config: bool,
}

/// What `list` makes of the page and of the state on `event`, and what it
/// says is to be saved: the loaded game and the settings after a game was
/// added or renamed, the loaded game and the loaded category after a category
/// was added or renamed and on "Save splits", the loaded category after its
/// table changed.
pub open spec fn listed(
    page: ListPage,
    before: HitSplit,
    event: ListEvent,
    shown: ListPage,
    after: HitSplit,
    saves: Saves,
) -> bool {
    match event {
        ListEvent::AddGame => {
            &&& game_added(page, before, shown, after, saves.game)
            &&& saves == (Saves { game: saves.game, category: false, config: saves.game })
        },
        ListEvent::ModifyGame => {
            &&& game_modified(page, before, shown, after, saves.game)
            &&& saves == (Saves { game: saves.game, category: false, config: saves.game })
        },
        ListEvent::AddCategory => {
            &&& category_added(page, before, shown, after, saves.game)
            &&& saves == (Saves { game: saves.game, category: saves.game, config: false })
        },
        ListEvent::ModifyCategory => {
            &&& category_modified(page, before, shown, after, saves.game)
            &&& saves == (Saves { game: saves.game, category: saves.game, config: false })
        },
        ListEvent::GameLoaded(loaded) => {
            &&& game_loaded(before, loaded, after)
            &&& shown == page
            &&& saves == (Saves { game: false, category: false, config: false })
        },
        ListEvent::CategoryLoaded(loaded) => {
            &&& HitSplit::category_loaded(before, loaded, after)
            &&& shown == page
            &&& saves == (Saves { game: false, category: false, config: false })
        },
        ListEvent::CreateTable => {
            &&& table_created(before, after, saves.category)
            &&& shown == page
            &&& saves == (Saves { game: false, category: saves.category, config: false })
        },
        ListEvent::TableDrawn => {
            &&& table_edited(page, before, shown, after, saves.category)
            &&& saves == (Saves { game: false, category: saves.category, config: false })
        },
        ListEvent::ImageChosen(file) => {
            &&& image_set(page, before, file, shown, after)
            &&& saves == (Saves { game: false, category: false, config: false })
        },
        ListEvent::SaveSplits => {
            &&& shown == page
            &&& after == before
            &&& saves == (Saves { game: true, category: true, config: false })
        },
    }
}

/// Answers what happened on the list page, and says what is to be saved
/// after it.
pub fn list(page: &mut ListPage, app: &mut HitSplit, event: ListEvent) -> (saves: Saves)
    ensures
        listed(*old(page), *old(app), event, *final(page), *final(app), saves),
{
    match event {
        ListEvent::AddGame => {
            let added: bool = add_game(page, app);
            Saves { game: added, category: false, config: added }
        },
        ListEvent::ModifyGame => {
            let renamed: bool = modify_game(page, app);
            Saves { game: renamed, category: false, config: renamed }
        },
        ListEvent::AddCategory => {
            let added: bool = add_category(page, app);
            Saves { game: added, category: added, config: false }
        },
        ListEvent::ModifyCategory => {
            let renamed: bool = modify_category(page, app);
            Saves { game: renamed, category: renamed, config: false }
        },
        ListEvent::GameLoaded(loaded) => {
            load_game(app, loaded);
            Saves { game: false, category: false, config: false }
        },
        ListEvent::CategoryLoaded(loaded) => {
            app.load_category(loaded);
            Saves { game: false, category: false, config: false }
        },
        ListEvent::CreateTable => {
            let made: bool = create_table(app);
            Saves { game: false, category: made, config: false }
        },
        ListEvent::TableDrawn => {
            let edited: bool = edit_table(page, app);
            Saves { game: false, category: edited, config: false }
        },
        ListEvent::ImageChosen(file) => {
            set_image(page, app, file);
            Saves { game: false, category: false, config: false }
        },
        ListEvent::SaveSplits => Saves { game: true, category: true, config: false },
    }
}

} // verus!
