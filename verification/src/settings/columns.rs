//! The columns of the counter table and the choice of those that are shown.

use vstd::prelude::*;
use vstd::std_specs::slice::into_iter_elts;
use vstd::string::*;
use crate::run::category::{find_split, id_of, id_text, place_of};
use crate::run::chrono::{chrono_text, duration_chrono_format, ChronometerFormat};
use crate::run::manager::{sum_hits, sum_pb, sum_time, total_hits, total_pb, total_time};
use crate::run::span::TimeSpan;
use crate::run::split::Split;
use crate::text::{decimal, decimal_signed, decimal_string, push_decimal, signed_string};
use crate::ui::hitsplit::HitSplit;

verus! {

/// A column of the counter table.
#[derive(Copy, Clone, Debug, Eq, PartialEq, Structural)]
pub enum Column {
    Icon,
    SplitName,
    Hits,
    Difference,
    PersonalBest,
    Chrono,
    ChronoAcum,
}

impl Column {
    /// The place of the column in the table, counted from the left.
    pub open spec fn spec_position(self) -> nat {
        match self {
            Column::Icon => 0,
            Column::SplitName => 1,
            Column::Hits => 2,
            Column::Difference => 3,
            Column::PersonalBest => 4,
            Column::Chrono => 5,
            Column::ChronoAcum => 6,
        }
    }

    pub fn position(&self) -> (place: usize)
        ensures
            place == self.spec_position(),
            place < 7,
    {
        match self {
            Column::Icon => 0,
            Column::SplitName => 1,
            Column::Hits => 2,
            Column::Difference => 3,
            Column::PersonalBest => 4,
            Column::Chrono => 5,
            Column::ChronoAcum => 6,
        }
    }
}

/// The head of `column` where the cursor stands at `selected` and the
/// category is said to have `count` splits. The picture column has none.
pub open spec fn header_text(column: Column, selected: nat, count: nat) -> Option<Seq<char>> {
    match column {
        Column::Icon => None,
        Column::SplitName => Some(
            "Split ("@ + decimal(selected + 1) + "/"@ + decimal(count) + ")"@,
        ),
        Column::Hits => Some("Hits"@),
        Column::Difference => Some("Diff"@),
        Column::PersonalBest => Some("PB"@),
        Column::Chrono => Some("Chrono"@),
        Column::ChronoAcum => Some("Chrono Ac."@),
    }
}

/// What `column` says of `split`, which stands at place `index`.
pub open spec fn body_text(
    column: Column,
    app: HitSplit,
    index: int,
    split: Split,
    format: ChronometerFormat,
) -> Option<Seq<char>> {
    match column {
        Column::Icon => None,
        Column::SplitName => Some(
            if index == app.selected_split {
                "> "@ + split.name@
            } else {
                split.name@
            },
        ),
        Column::Hits => Some(decimal(split.hits as nat)),
        Column::Difference => Some(decimal_signed(split.hits - split.pb)),
        Column::PersonalBest => Some(decimal(split.pb as nat)),
        Column::Chrono => Some(chrono_text(split.real_time.millis(), format)),
        Column::ChronoAcum => match app.loaded_category {
            Some(category) => Some(
                chrono_text(
                    TimeSpan::saturated(
                        sum_time(
                            category.splits@.take(place_of(category.splits@, id_of(split)) as int),
                        ) + split.real_time@,
                    ).millis(),
                    format,
                ),
            ),
            None => None,
        },
    }
}

/// What `column` says of all the splits together.
pub open spec fn total_text(column: Column, app: HitSplit) -> Option<Seq<char>> {
    let splits = match app.loaded_category {
        Some(category) => category.splits@,
        None => Seq::<Split>::empty(),
    };
    match column {
        Column::Icon => None,
        Column::SplitName => Some("Total: "@),
        Column::Hits => Some(decimal(sum_hits(splits))),
        Column::Difference => Some(decimal_signed(sum_hits(splits) - sum_pb(splits))),
        Column::PersonalBest => Some(decimal(sum_pb(splits))),
        Column::Chrono | Column::ChronoAcum => match app.loaded_category {
            Some(category) => Some(
                chrono_text(
                    TimeSpan::saturated(sum_time(splits)).millis(),
                    app.config.chrono_format,
                ),
            ),
            None => None,
        },
    }
}

/// The time spent on the splits in front of the first one with the id
/// `id`.
fn time_before(splits: &Vec<Split>, id: &Option<String>) -> (time: TimeSpan)
    ensures
        time == TimeSpan::saturated(
            sum_time(splits@.take(place_of(splits@, id_text(*id)) as int)),
        ),
{
    let n: usize = find_split(splits, id);
    let mut time: TimeSpan = TimeSpan::zero();
    let mut i: usize = 0;
    while i < n
        invariant
            i <= n <= splits.len(),
            time == TimeSpan::saturated(sum_time(splits@.take(i as int))),
        decreases n - i,
    {
        assert(splits@.take(i + 1).drop_last() =~= splits@.take(i as int));
        time = time.saturating_add(splits[i].real_time);
        i += 1;
    }
    time
}

impl Column {
    /// The head of the column in the counter table.
    pub fn header(&self, app: &HitSplit) -> (text: Option<String>)
        ensures
            match header_text(*self, app.selected_split as nat, app.num_splits_category as nat) {
                Some(head) => text matches Some(written) && written@ == head,
                None => text is None,
            },
    {
        match self {
            Column::Icon => None,
            Column::SplitName => {
                let mut head: String = "Split (".to_string();
                push_decimal(&mut head, app.selected_split as u128 + 1);
                head.append("/");
                push_decimal(&mut head, app.num_splits_category as u128);
                head.append(")");
                Some(head)
            },
            Column::Hits => Some("Hits".to_string()),
            Column::Difference => Some("Diff".to_string()),
            Column::PersonalBest => Some("PB".to_string()),
            Column::Chrono => Some("Chrono".to_string()),
            Column::ChronoAcum => Some("Chrono Ac.".to_string()),
        }
    }

    /// What the column says of `split`, which stands at place `index`, with
    /// times written in `chrono_format`. The picture column says nothing:
    /// its cell holds the picture of the split.
    pub fn body(
        &self,
        app: &HitSplit,
        index: usize,
        split: &Split,
        chrono_format: &ChronometerFormat,
    ) -> (text: Option<String>)
        ensures
            match body_text(*self, *app, index as int, *split, *chrono_format) {
                Some(cell) => text matches Some(written) && written@ == cell,
                None => text is None,
            },
    {
        match self {
            Column::Icon => None,
            Column::SplitName => {
                if index == app.selected_split {
                    let mut name: String = "> ".to_string();
                    name.append(split.name.as_str());
                    Some(name)
                } else {
                    Some(split.name.clone())
                }
            },
            Column::Hits => Some(decimal_string(split.hits as u128)),
            Column::Difference => Some(signed_string(split.hits as i128 - split.pb as i128)),
            Column::PersonalBest => Some(decimal_string(split.pb as u128)),
            Column::Chrono => Some(duration_chrono_format(split.real_time, chrono_format)),
            Column::ChronoAcum => {
                match &app.loaded_category {
                    Some(category) => {
                        let before: TimeSpan = time_before(&category.splits, &split.uuid);
                        let acum: TimeSpan = before.saturating_add(split.real_time);
                        Some(duration_chrono_format(acum, chrono_format))
                    },
                    None => None,
                }
            },
        }
    }

    /// What the column says of all the splits of the loaded category
    /// together.
    pub fn total(&self, app: &HitSplit) -> (text: Option<String>)
        ensures
            match total_text(*self, *app) {
                Some(cell) => text matches Some(written) && written@ == cell,
                None => text is None,
            },
    {
        match self {
            Column::Icon => None,
            Column::SplitName => Some("Total: ".to_string()),
            Column::Hits => {
                let hits: u128 = match &app.loaded_category {
                    Some(category) => total_hits(&category.splits),
                    None => 0,
                };
                Some(decimal_string(hits))
            },
            Column::Difference => {
                let diff: i128 = match &app.loaded_category {
                    Some(category) => {
                        let hits: u128 = total_hits(&category.splits);
                        let pb: u128 = total_pb(&category.splits);
                        hits as i128 - pb as i128
                    },
                    None => 0,
                };
                Some(signed_string(diff))
            },
            Column::PersonalBest => {
                let pb: u128 = match &app.loaded_category {
                    Some(category) => total_pb(&category.splits),
                    None => 0,
                };
                Some(decimal_string(pb))
            },
            Column::Chrono | Column::ChronoAcum => {
                match &app.loaded_category {
                    Some(category) => {
                        let acum: TimeSpan = total_time(&category.splits);
                        Some(duration_chrono_format(acum, &app.config.chrono_format))
                    },
                    None => None,
                }
            },
        }
    }
}

/// Two columns in the same place are the same column.
pub proof fn lemma_position_names_column(a: Column, b: Column)
    ensures
        a.spec_position() == b.spec_position() <==> a == b,
{
}

/// The bit that stands for the column in a mask: the one at its place.
pub open spec fn bit_of(column: Column) -> nat {
    match column {
        Column::Icon => 1,
        Column::SplitName => 2,
        Column::Hits => 4,
        Column::Difference => 8,
        Column::PersonalBest => 16,
        Column::Chrono => 32,
        Column::ChronoAcum => 64,
    }
}

/// The mask of the columns: the bits of all of them together.
pub open spec fn mask_of(cols: Seq<Column>) -> nat
    decreases cols.len(),
{
    if cols.len() == 0 {
        0
    } else {
        mask_of(cols.drop_last()) + bit_of(cols.last())
    }
}

/// The columns stand from left to right, none of them twice.
pub open spec fn ordered(cols: Seq<Column>) -> bool {
    forall|i: int, j: int|
        0 <= i < j < cols.len() ==> cols[i].spec_position() < cols[j].spec_position()
}

/// How many of `cols` stand to the left of `column`.
pub open spec fn count_before(cols: Seq<Column>, column: Column) -> nat
    decreases cols.len(),
{
    if cols.len() == 0 {
        0
    } else {
        count_before(cols.drop_last(), column) + if cols.last().spec_position()
            < column.spec_position() {
            1nat
        } else {
            0nat
        }
    }
}

/// `cols` with `column` shown: a column that is shown already stays where it
/// is, a new one goes to its place from the left.
pub open spec fn with_column(cols: Seq<Column>, column: Column) -> Seq<Column> {
    if cols.contains(column) {
        cols
    } else {
        cols.insert(count_before(cols, column) as int, column)
    }
}

/// `cols` with `column` hidden.
pub open spec fn without_column(cols: Seq<Column>, column: Column) -> Seq<Column> {
    cols.filter(|c: Column| c != column)
}

/// In an ordered row the columns to the left of `column` are the first
/// `count_before` of them.
pub proof fn lemma_count_before(cols: Seq<Column>, column: Column)
    requires
        ordered(cols),
    ensures
        count_before(cols, column) <= cols.len(),
        forall|i: int|
            0 <= i < count_before(cols, column) ==> cols[i].spec_position()
                < column.spec_position(),
        forall|i: int|
            count_before(cols, column) <= i < cols.len() ==> cols[i].spec_position()
                >= column.spec_position(),
    decreases cols.len(),
{
    if cols.len() > 0 {
        let front = cols.drop_last();
        lemma_count_before(front, column);
        let k = count_before(front, column) as int;
        if cols.last().spec_position() < column.spec_position() && k < front.len() {
            assert(front[k].spec_position() >= column.spec_position());
        }
        assert forall|i: int| 0 <= i < count_before(cols, column) implies cols[i].spec_position()
            < column.spec_position() by {
            if i < front.len() {
                assert(front[i] == cols[i]);
            }
        }
    }
}

/// Showing a column keeps the row ordered, and shows that column and those
/// that were shown, no others.
pub proof fn lemma_with_column(cols: Seq<Column>, column: Column)
    requires
        ordered(cols),
    ensures
        ordered(with_column(cols, column)),
        with_column(cols, column).contains(column),
        forall|c: Column| with_column(cols, column).contains(c) <==> c == column || cols.contains(c),
{
    let row = with_column(cols, column);
    if !cols.contains(column) {
        lemma_count_before(cols, column);
        let k = count_before(cols, column) as int;
        assert forall|i: int, j: int| 0 <= i < j < row.len() implies row[i].spec_position()
            < row[j].spec_position() by {
            if i == k {
                lemma_position_names_column(cols[j - 1], column);
            }
        }
        assert(row[k] == column);
        assert forall|c: Column| cols.contains(c) implies row.contains(c) by {
            let i = choose|i: int| 0 <= i < cols.len() && cols[i] == c;
            if i < k {
                assert(row[i] == c);
            } else {
                assert(row[i + 1] == c);
            }
        }
    }
}

/// In an ordered row no column stands further left than it does in the
/// table.
proof fn lemma_place_from_left(cols: Seq<Column>, i: int)
    requires
        ordered(cols),
        0 <= i < cols.len(),
    ensures
        cols[i].spec_position() >= i,
    decreases i,
{
    if i > 0 {
        lemma_place_from_left(cols, i - 1);
    }
}

/// An ordered row holds seven columns at most.
pub proof fn lemma_ordered_is_short(cols: Seq<Column>)
    requires
        ordered(cols),
    ensures
        cols.len() <= 7,
{
    if cols.len() > 0 {
        lemma_place_from_left(cols, cols.len() - 1);
    }
}

/// The mask of an ordered row fits in seven bits, and the bit of each of
/// its columns lies above the mask of those in front of it.
pub proof fn lemma_mask_is_small(cols: Seq<Column>)
    requires
        ordered(cols),
    ensures
        mask_of(cols) < 128,
        cols.len() > 0 ==> mask_of(cols) < 2 * bit_of(cols.last()),
    decreases cols.len(),
{
    if cols.len() > 0 {
        lemma_mask_is_small(cols.drop_last());
    }
}

/// Hiding a column that is not shown changes nothing.
pub proof fn lemma_without_hidden(cols: Seq<Column>, column: Column)
    requires
        !cols.contains(column),
    ensures
        without_column(cols, column) == cols,
    decreases cols.len(),
{
    reveal(Seq::filter);
    if cols.len() > 0 {
        lemma_without_hidden(cols.drop_last(), column);
    }
}

/// Hiding a column that is shown at place `k` of an ordered row takes that
/// place out of the row, and what is left is ordered.
pub proof fn lemma_without_shown(cols: Seq<Column>, column: Column, k: int)
    requires
        ordered(cols),
        0 <= k < cols.len(),
        cols[k] == column,
    ensures
        without_column(cols, column) == cols.remove(k),
        ordered(cols.remove(k)),
    decreases cols.len(),
{
    reveal(Seq::filter);
    let front = cols.drop_last();
    if k == cols.len() - 1 {
        lemma_without_hidden(front, column);
    } else {
        lemma_without_shown(front, column, k);
    }
}

/// The columns that are shown, from left to right, none of them twice.
#[derive(Debug, Eq, PartialEq)]
pub struct ColumnVec(Vec<Column>);

impl View for ColumnVec {
    type V = Seq<Column>;

    closed spec fn view(&self) -> Seq<Column> {
        self.0@
    }
}

impl ColumnVec {
    #[verifier::type_invariant]
    spec fn ordered_row(self) -> bool {
        ordered(self.0@)
    }

    /// No column shown.
    pub fn new() -> (row: Self)
        ensures
            row@ == Seq::<Column>::empty(),
    {
        ColumnVec(Vec::new())
    }

    /// How many columns are shown. They stand in their order, so they are
    /// seven at most.
    pub fn len(&self) -> (n: usize)
        ensures
            n == self@.len(),
            ordered(self@),
            n <= 7,
    {
        proof {
            use_type_invariant(self);
            lemma_ordered_is_short(self.0@);
        }
        self.0.len()
    }

    /// The column at place `i` among those shown.
    pub fn get(&self, i: usize) -> (column: Option<Column>)
        ensures
            column == if i < self@.len() {
                Some(self@[i as int])
            } else {
                None
            },
    {
        if i < self.0.len() {
            Some(self.0[i])
        } else {
            None
        }
    }

    /// The shown columns from left to right.
    pub fn iter(&self) -> (columns: std::slice::Iter<'_, Column>)
        ensures
            into_iter_elts(columns) == self@,
    {
        let columns = self.0.iter();
        proof {
            broadcast use vstd::std_specs::slice::axiom_spec_slice_iter;
        }
        columns
    }

    pub fn contains(&self, column: &Column) -> (shown: bool)
        ensures
            shown == self@.contains(*column),
    {
        let mut i: usize = 0;
        while i < self.0.len()
            invariant
                i <= self.0.len(),
                forall|j: int| 0 <= j < i ==> self.0[j] != *column,
            decreases self.0.len() - i,
        {
            if self.0[i] == *column {
                return true;
            }
            i += 1;
        }
        false
    }

    /// The shown columns as a mask: for each of them the bit at its place.
    pub fn to_mask(&self) -> (mask: usize)
        ensures
            mask == mask_of(self@),
            mask < 128,
    {
        proof {
            use_type_invariant(self);
        }
        let n: usize = self.0.len();
        proof {
            lemma_ordered_is_short(self.0@);
        }
        let mut mask: usize = 0;
        let mut i: usize = 0;
        while i < n
            invariant
                i <= n,
                n == self.0.len(),
                n <= 7,
                ordered(self.0@),
                mask == mask_of(self.0@.take(i as int)),
                mask <= 64 * i,
            decreases n - i,
        {
            assert(self.0@.take(i + 1).drop_last() =~= self.0@.take(i as int));
            let bit: usize = match self.0[i] {
                Column::Icon => 1,
                Column::SplitName => 2,
                Column::Hits => 4,
                Column::Difference => 8,
                Column::PersonalBest => 16,
                Column::Chrono => 32,
                Column::ChronoAcum => 64,
            };
            mask = mask + bit;
            i += 1;
        }
        assert(self.0@.take(n as int) =~= self.0@);
        proof {
            lemma_mask_is_small(self.0@);
        }
        mask
    }

    /// Shows `column`, at its place from the left. A column that is shown
    /// already is not shown twice.
    pub fn push(&mut self, column: &Column)
        ensures
            final(self)@ == with_column(old(self)@, *column),
            ordered(final(self)@),
    {
        proof {
            use_type_invariant(&*self);
            lemma_with_column(self.0@, *column);
        }
        if self.contains(column) {
            return ;
        }
        let place: usize = column.position();
        let n: usize = self.0.len();
        let mut index: usize = 0;
        let mut i: usize = 0;
        while i < n
            invariant
                i <= n,
                n == self.0.len(),
                index <= i,
                index == count_before(self.0@.take(i as int), *column),
                place == column.spec_position(),
            decreases n - i,
        {
            assert(self.0@.take(i + 1).drop_last() =~= self.0@.take(i as int));
            if self.0[i].position() < place {
                index += 1;
            }
            i += 1;
        }
        assert(self.0@.take(n as int) =~= self.0@);
        let mut row: Vec<Column> = self.0.clone();
        row.insert(index, *column);
        self.0 = row;
    }

    /// Hides `column`.
    pub fn remove(&mut self, column: &Column)
        ensures
            final(self)@ == without_column(old(self)@, *column),
            ordered(final(self)@),
    {
        proof {
            use_type_invariant(&*self);
        }
        let n: usize = self.0.len();
        let mut i: usize = 0;
        while i < n
            invariant
                i <= n,
                n == self.0.len(),
                self.0@ == old(self).0@,
                ordered(self.0@),
                forall|j: int| 0 <= j < i ==> self.0[j] != *column,
            decreases n - i,
        {
            if self.0[i] == *column {
                proof {
                    lemma_without_shown(self.0@, *column, i as int);
                }
                let mut row: Vec<Column> = self.0.clone();
                row.remove(i);
                self.0 = row;
                return ;
            }
            i += 1;
        }
        proof {
            lemma_without_hidden(self.0@, *column);
        }
    }
}

impl Clone for ColumnVec {
    fn clone(&self) -> (row: Self)
        ensures
            row@ == self@,
    {
        proof {
            use_type_invariant(self);
        }
        let cols: Vec<Column> = self.0.clone();
        ColumnVec(cols)
    }
}

impl Default for ColumnVec {
    /// Every column shown.
    fn default() -> (row: Self)
        ensures
            row@ == seq![
                Column::Icon,
                Column::SplitName,
                Column::Hits,
                Column::Difference,
                Column::PersonalBest,
                Column::Chrono,
                Column::ChronoAcum,
            ],
    {
        let cols: Vec<Column> = vec![
            Column::Icon,
            Column::SplitName,
            Column::Hits,
            Column::Difference,
            Column::PersonalBest,
            Column::Chrono,
            Column::ChronoAcum,
        ];
        let row = ColumnVec(cols);
        row
    }
}

} // verus!
