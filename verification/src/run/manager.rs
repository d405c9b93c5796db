//! The run: the actions that move the cursor over the splits of the loaded
//! category, count hits, keep personal bests and drive the chronometer.

use vstd::prelude::*;
use vstd::string::*;
use crate::Error;
use crate::run::category::Category;
use crate::run::chrono::{ChronometerState, ChronometerView};
use crate::run::span::TimeSpan;
use crate::run::split::Split;
use crate::ui::hitsplit::HitSplit;

verus! {

/// The hits of all the splits together.
pub open spec fn sum_hits(splits: Seq<Split>) -> nat
    decreases splits.len(),
{
    if splits.len() == 0 {
        0
    } else {
        sum_hits(splits.drop_last()) + splits.last().hits as nat
    }
}

/// The personal bests of all the splits together.
pub open spec fn sum_pb(splits: Seq<Split>) -> nat
    decreases splits.len(),
{
    if splits.len() == 0 {
        0
    } else {
        sum_pb(splits.drop_last()) + splits.last().pb as nat
    }
}

/// The times of all the splits together, in nanoseconds.
pub open spec fn sum_time(splits: Seq<Split>) -> nat
    decreases splits.len(),
{
    if splits.len() == 0 {
        0
    } else {
        sum_time(splits.drop_last()) + splits.last().real_time@
    }
}

/// The splits of a new attempt: no hits and no time on any of them.
pub open spec fn cleared(splits: Seq<Split>) -> Seq<Split> {
    Seq::new(
        splits.len(),
        |i: int| Split { hits: 0, real_time: TimeSpan { nanos: 0 }, ..splits[i] },
    )
}

/// The splits with the hits of this attempt as their personal bests.
pub open spec fn promoted(splits: Seq<Split>) -> Seq<Split> {
    Seq::new(splits.len(), |i: int| Split { pb: splits[i].hits, ..splits[i] })
}

/// The split with one hit more; the count stops at the largest it can hold.
pub open spec fn hit_added(split: Split) -> Split {
    Split { hits: if split.hits < u16::MAX { (split.hits + 1) as u16 } else { split.hits }, ..split }
}

/// The split with one hit less; the count stops at zero.
pub open spec fn hit_taken(split: Split) -> Split {
    Split { hits: if split.hits > 0 { (split.hits - 1) as u16 } else { split.hits }, ..split }
}

/// `after` is `before` with other splits, and `splits` are those.
pub open spec fn with_splits(before: Category, after: Category, splits: Seq<Split>) -> bool {
    &&& after == (Category { splits: after.splits, ..before })
    &&& after.splits@ == splits
}

pub open spec fn split_not_selected() -> Seq<char> {
    "Split not selected"@
}

pub open spec fn could_not_subtract() -> Seq<char> {
    "Could not substract hit. Split not selected."@
}

pub open spec fn could_not_add() -> Seq<char> {
    "Could not add hit. Split not selected."@
}

/// The hits of all the splits together.
pub fn total_hits(splits: &Vec<Split>) -> (total: u128)
    ensures
        total == sum_hits(splits@),
        total <= 0xffff * splits@.len(),
        total <= 0xffff_ffff_ffff_ffff_ffff,
{
    let n: usize = splits.len();
    let mut total: u128 = 0;
    let mut i: usize = 0;
    while i < n
        invariant
            i <= n,
            n == splits.len(),
            total == sum_hits(splits@.take(i as int)),
            total <= 65535 * i,
        decreases n - i,
    {
        assert(splits@.take(i + 1).drop_last() =~= splits@.take(i as int));
        total = total + splits[i].hits as u128;
        i += 1;
    }
    assert(splits@.take(n as int) =~= splits@);
    total
}

/// The personal bests of all the splits together.
pub fn total_pb(splits: &Vec<Split>) -> (total: u128)
    ensures
        total == sum_pb(splits@),
        total <= 0xffff * splits@.len(),
        total <= 0xffff_ffff_ffff_ffff_ffff,
{
    let n: usize = splits.len();
    let mut total: u128 = 0;
    let mut i: usize = 0;
    while i < n
        invariant
            i <= n,
            n == splits.len(),
            total == sum_pb(splits@.take(i as int)),
            total <= 65535 * i,
        decreases n - i,
    {
        assert(splits@.take(i + 1).drop_last() =~= splits@.take(i as int));
        total = total + splits[i].pb as u128;
        i += 1;
    }
    assert(splits@.take(n as int) =~= splits@);
    total
}

/// The times of all the splits together, held at the longest span that can
/// be written.
pub fn total_time(splits: &Vec<Split>) -> (total: TimeSpan)
    ensures
        total == TimeSpan::saturated(sum_time(splits@)),
{
    let n: usize = splits.len();
    let mut total: TimeSpan = TimeSpan::zero();
    let mut i: usize = 0;
    while i < n
        invariant
            i <= n,
            n == splits.len(),
            total == TimeSpan::saturated(sum_time(splits@.take(i as int))),
        decreases n - i,
    {
        assert(splits@.take(i + 1).drop_last() =~= splits@.take(i as int));
        total = total.saturating_add(splits[i].real_time);
        i += 1;
    }
    assert(splits@.take(n as int) =~= splits@);
    total
}

/// Takes the hits and the time off every split.
pub fn clear_splits(splits: &mut Vec<Split>)
    ensures
        final(splits)@ == cleared(old(splits)@),
{
    let n: usize = splits.len();
    let mut i: usize = 0;
    while i < n
        invariant
            i <= n,
            n == splits.len(),
            n == old(splits).len(),
            forall|j: int| 0 <= j < i ==> splits[j] == cleared(old(splits)@)[j],
            forall|j: int| i <= j < n ==> splits[j] == old(splits)[j],
        decreases n - i,
    {
        splits[i].hits = 0;
        splits[i].real_time = TimeSpan::zero();
        i += 1;
    }
}

/// Makes the hits of every split its personal best.
pub fn promote_splits(splits: &mut Vec<Split>)
    ensures
        final(splits)@ == promoted(old(splits)@),
{
    let n: usize = splits.len();
    let mut i: usize = 0;
    while i < n
        invariant
            i <= n,
            n == splits.len(),
            n == old(splits).len(),
            forall|j: int| 0 <= j < i ==> splits[j] == promoted(old(splits)@)[j],
            forall|j: int| i <= j < n ==> splits[j] == old(splits)[j],
        decreases n - i,
    {
        let hits: u16 = splits[i].hits;
        splits[i].pb = hits;
        i += 1;
    }
}

/// What `reset` makes of `before`.
pub open spec fn reset_done(before: HitSplit, after: HitSplit) -> bool {
    match before.loaded_category {
        Some(category) => {
            &&& after.same_but_run(before)
            &&& after.loaded_category matches Some(rerun)
            &&& with_splits(category, rerun, cleared(category.splits@))
            &&& after.selected_split == 0
            &&& after.chrono@ == before.chrono@.cleared()
        },
        None => after == before,
    }
}

/// What `set_pb` makes of `before`.
pub open spec fn set_pb_done(before: HitSplit, after: HitSplit) -> bool {
    match before.loaded_category {
        Some(category) => {
            &&& after.same_but_run(before)
            &&& after.loaded_category matches Some(kept)
            &&& with_splits(category, kept, promoted(category.splits@))
            &&& after.selected_split == before.selected_split
            &&& after.chrono == before.chrono
        },
        None => after == before,
    }
}

/// Starts a new attempt: every split loses its hits and its time, the cursor
/// goes to the first split and the chronometer is stopped. Without a loaded
/// category nothing happens.
pub fn reset(app: &mut HitSplit) -> (result: Result<(), Error>)
    ensures
        result is Ok,
        reset_done(*old(app), *final(app)),
        final(app).cursor_in_range(),
{
    match &mut app.loaded_category {
        Some(category) => {
            clear_splits(&mut category.splits);
            app.selected_split = 0;
            app.chrono.reset();
        },
        None => {},
    }
    Ok(())
}

/// Makes the hits of every split of the loaded category its personal best.
/// Without a loaded category nothing happens.
pub fn set_pb(app: &mut HitSplit) -> (result: Result<(), Error>)
    ensures
        result is Ok,
        set_pb_done(*old(app), *final(app)),
        old(app).cursor_in_range() ==> final(app).cursor_in_range(),
{
    match &mut app.loaded_category {
        Some(category) => {
            promote_splits(&mut category.splits);
        },
        None => {},
    }
    Ok(())
}

/// What `prev_split` makes of `before`, and what it reports.
pub open spec fn prev_split_done(before: HitSplit, after: HitSplit, result: Result<(), Error>) -> bool {
    match before.loaded_category {
        Some(category) => if before.selected_split == 0 {
            after == before && result is Ok
        } else {
            let cursor = before.selected_split - 1;
            &&& after.same_but_run(before)
            &&& after.loaded_category == before.loaded_category
            &&& after.selected_split == cursor
            &&& if cursor < category.splits.len() {
                &&& result is Ok
                &&& after.chrono@ == ChronometerView::loaded(
                    category.splits[cursor].real_time,
                    before.config.chrono_format,
                )
            } else {
                &&& result matches Err(e)
                &&& e.message() == Some(split_not_selected())
                &&& after.chrono == before.chrono
            }
        },
        None => after == before && result is Ok,
    }
}

/// The splits that `next_split` leaves when it wraps around from the last
/// split: a new attempt, and before that the hits made personal bests if
/// they are fewer in all than the personal bests were.
pub open spec fn wrapped(splits: Seq<Split>) -> Seq<Split> {
    if sum_pb(splits) > sum_hits(splits) {
        cleared(promoted(splits))
    } else {
        cleared(splits)
    }
}

/// What `next_split` makes of `before`.
pub open spec fn next_split_done(before: HitSplit, after: HitSplit) -> bool {
    match before.loaded_category {
        Some(category) => if before.selected_split + 1 < category.splits.len() {
            &&& after.same_but_run(before)
            &&& after.loaded_category == before.loaded_category
            &&& after.selected_split == before.selected_split + 1
            &&& before.chrono@.restarted(after.chrono@)
        } else if before.config.next_split_as_reset {
            &&& after.same_but_run(before)
            &&& after.loaded_category matches Some(rerun)
            &&& with_splits(category, rerun, wrapped(category.splits@))
            &&& after.selected_split == 0
            &&& after.chrono@ == before.chrono@.cleared()
        } else {
            after == before
        },
        None => after == before,
    }
}

/// What `add_hit` (with `hit_added` for `change`) or `sub_hit` (with
/// `hit_taken`) makes of `before`, and what it reports; `message` is what it
/// says where the cursor stands on no split.
pub open spec fn hit_done(
    before: HitSplit,
    after: HitSplit,
    result: Result<(), Error>,
    change: spec_fn(Split) -> Split,
    message: Seq<char>,
) -> bool {
    match before.loaded_category {
        Some(category) => if before.selected_split < category.splits.len() {
            &&& result is Ok
            &&& after.same_but_run(before)
            &&& after.loaded_category matches Some(counted)
            &&& with_splits(
                category,
                counted,
                category.splits@.update(
                    before.selected_split as int,
                    change(category.splits[before.selected_split as int]),
                ),
            )
            &&& after.selected_split == before.selected_split
            &&& after.chrono == before.chrono
        } else {
            &&& result matches Err(e)
            &&& e.message() == Some(message)
            &&& after == before
        },
        None => result is Ok && after == before,
    }
}

/// What `start_chrono` makes of `before`.
pub open spec fn start_chrono_done(before: HitSplit, after: HitSplit) -> bool {
    &&& after == (HitSplit { chrono: after.chrono, ..before })
    &&& before.chrono@.started(after.chrono@)
}

/// What `pause_chrono` makes of `before`, and what it reports.
pub open spec fn pause_chrono_done(
    before: HitSplit,
    after: HitSplit,
    result: Result<(), Error>,
) -> bool {
    &&& after == (HitSplit { chrono: after.chrono, ..before })
    &&& before.chrono@.paused(after.chrono@, result)
}

/// Goes back one split and shows the time that was spent on it, paused. At
/// the first split, and without a loaded category, nothing happens. Where
/// the cursor then stands on no split, the cursor has moved and this is
/// reported.
pub fn prev_split(app: &mut HitSplit) -> (result: Result<(), Error>)
    ensures
        prev_split_done(*old(app), *final(app), result),
        old(app).cursor_in_range() ==> final(app).cursor_in_range(),
{
    match &app.loaded_category {
        Some(category) => {
            if app.selected_split > 0 {
                app.selected_split -= 1;
                if app.selected_split < category.splits.len() {
                    let time: TimeSpan = category.splits[app.selected_split].real_time;
                    app.chrono.load_chrono(time, &app.config.chrono_format);
                } else {
                    return Err(
                        Error::new("Split not selected".to_string(), "None".to_string()),
                    );
                }
            }
        },
        None => {},
    }
    Ok(())
}

/// Goes on to the next split and measures its time from now. At the last
/// split, where the settings say so, the run wraps around: if the hits are
/// fewer in all than the personal bests, they become the personal bests;
/// then a new attempt starts as by `reset`. Without a loaded category
/// nothing happens.
pub fn next_split(app: &mut HitSplit) -> (result: Result<(), Error>)
    ensures
        result is Ok,
        next_split_done(*old(app), *final(app)),
        old(app).cursor_in_range() ==> final(app).cursor_in_range(),
{
    let mut advance: bool = false;
    let mut wrap: bool = false;
    let mut promote: bool = false;
    match &app.loaded_category {
        Some(category) => {
            let n: usize = category.splits.len();
            if n > 0 && app.selected_split < n - 1 {
                advance = true;
            } else if app.config.next_split_as_reset {
                wrap = true;
                promote = total_pb(&category.splits) > total_hits(&category.splits);
            }
        },
        None => {},
    }
    if advance {
        app.selected_split += 1;
        app.chrono.clear_elapsed();
    } else if wrap {
        if promote {
            let _ = set_pb(app);
        }
        let _ = reset(app);
    }
    Ok(())
}

/// Takes one hit off the current split; a split without hits stays without.
/// Without a loaded category nothing happens; a cursor that stands on no
/// split is reported.
pub fn sub_hit(app: &mut HitSplit) -> (result: Result<(), Error>)
    ensures
        hit_done(*old(app), *final(app), result, |s: Split| hit_taken(s), could_not_subtract()),
        old(app).cursor_in_range() ==> final(app).cursor_in_range(),
{
    match &mut app.loaded_category {
        Some(category) => {
            if app.selected_split < category.splits.len() {
                if category.splits[app.selected_split].hits > 0 {
                    category.splits[app.selected_split].hits -= 1;
                }
                assert(category.splits@ =~= old(app).loaded_category->Some_0.splits@.update(
                    app.selected_split as int,
                    hit_taken(old(app).loaded_category->Some_0.splits[app.selected_split as int]),
                ));
            } else {
                return Err(
                    Error::new(
                        "Could not substract hit. Split not selected.".to_string(),
                        "None".to_string(),
                    ),
                );
            }
        },
        None => {},
    }
    Ok(())
}

/// Adds one hit to the current split; a count that is full stays full.
/// Without a loaded category nothing happens; a cursor that stands on no
/// split is reported.
pub fn add_hit(app: &mut HitSplit) -> (result: Result<(), Error>)
    ensures
        hit_done(*old(app), *final(app), result, |s: Split| hit_added(s), could_not_add()),
        old(app).cursor_in_range() ==> final(app).cursor_in_range(),
{
    match &mut app.loaded_category {
        Some(category) => {
            if app.selected_split < category.splits.len() {
                if category.splits[app.selected_split].hits < u16::MAX {
                    category.splits[app.selected_split].hits += 1;
                }
                assert(category.splits@ =~= old(app).loaded_category->Some_0.splits@.update(
                    app.selected_split as int,
                    hit_added(old(app).loaded_category->Some_0.splits[app.selected_split as int]),
                ));
            } else {
                return Err(
                    Error::new(
                        "Could not add hit. Split not selected.".to_string(),
                        "None".to_string(),
                    ),
                );
            }
        },
        None => {},
    }
    Ok(())
}

/// Sets the chronometer running.
pub fn start_chrono(app: &mut HitSplit) -> (result: Result<(), Error>)
    ensures
        result is Ok,
        start_chrono_done(*old(app), *final(app)),
        old(app).cursor_in_range() ==> final(app).cursor_in_range(),
{
    app.chrono.start();
    Ok(())
}

/// Pauses the chronometer, and reports what the chronometer reports.
pub fn pause_chrono(app: &mut HitSplit) -> (result: Result<(), Error>)
    ensures
        pause_chrono_done(*old(app), *final(app), result),
        old(app).cursor_in_range() ==> final(app).cursor_in_range(),
{
    app.chrono.pause()
}

/// The count of hits after a row of changes, each `true` one hit more and
/// each `false` one hit less, from the first of `adds` to the last.
pub open spec fn hits_after(hits: int, adds: Seq<bool>) -> int
    decreases adds.len(),
{
    if adds.len() == 0 {
        hits
    } else {
        let so_far = hits_after(hits, adds.drop_last());
        if adds.last() {
            if so_far < u16::MAX {
                so_far + 1
            } else {
                so_far
            }
        } else {
            if so_far > 0 {
                so_far - 1
            } else {
                so_far
            }
        }
    }
}

/// The split after that row of changes.
pub open spec fn split_after(split: Split, adds: Seq<bool>) -> Split
    decreases adds.len(),
{
    if adds.len() == 0 {
        split
    } else if adds.last() {
        hit_added(split_after(split, adds.drop_last()))
    } else {
        hit_taken(split_after(split, adds.drop_last()))
    }
}

/// However hits are added to a split and taken off it, its count is the
/// count that was made of them, it never falls below zero and never runs
/// over, and nothing else of the split changes. Taking a hit off a split
/// without hits changes nothing.
pub proof fn law_hits_stay_in_range(split: Split, adds: Seq<bool>)
    ensures
        split_after(split, adds) == (Split {
            hits: split_after(split, adds).hits,
            ..split
        }),
        split_after(split, adds).hits == hits_after(split.hits as int, adds),
        0 <= hits_after(split.hits as int, adds) <= u16::MAX,
        split.hits == 0 ==> hit_taken(split) == split,
    decreases adds.len(),
{
    if adds.len() > 0 {
        law_hits_stay_in_range(split, adds.drop_last());
    }
}

/// A run that goes on from its last split with fewer hits in all than its
/// personal bests, where the settings let it wrap around, keeps the hits of
/// each split as its personal best and starts anew: no hits and no time on
/// any split, the cursor on the first, the chronometer stopped.
pub proof fn law_better_run_is_kept(before: HitSplit, after: HitSplit, i: int)
    requires
        next_split_done(before, after),
        before.loaded_category is Some,
        before.selected_split + 1 == before.loaded_category->Some_0.splits.len(),
        before.config.next_split_as_reset,
        sum_pb(before.loaded_category->Some_0.splits@) > sum_hits(
            before.loaded_category->Some_0.splits@,
        ),
        0 <= i < before.loaded_category->Some_0.splits.len(),
    ensures
        after.loaded_category is Some,
        after.loaded_category->Some_0.splits.len() == before.loaded_category->Some_0.splits.len(),
        after.loaded_category->Some_0.splits[i].pb == before.loaded_category->Some_0.splits[i].hits,
        after.loaded_category->Some_0.splits[i].hits == 0,
        after.loaded_category->Some_0.splits[i].real_time@ == 0,
        after.selected_split == 0,
        after.chrono@.state == ChronometerState::Stopped,
{
}

/// A run that goes on from its last split with no fewer hits in all than
/// its personal bests, where the settings let it wrap around, keeps its
/// personal bests and starts anew.
pub proof fn law_worse_run_is_dropped(before: HitSplit, after: HitSplit, i: int)
    requires
        next_split_done(before, after),
        before.loaded_category is Some,
        before.selected_split + 1 == before.loaded_category->Some_0.splits.len(),
        before.config.next_split_as_reset,
        sum_pb(before.loaded_category->Some_0.splits@) <= sum_hits(
            before.loaded_category->Some_0.splits@,
        ),
        0 <= i < before.loaded_category->Some_0.splits.len(),
    ensures
        after.loaded_category is Some,
        after.loaded_category->Some_0.splits.len() == before.loaded_category->Some_0.splits.len(),
        after.loaded_category->Some_0.splits[i].pb == before.loaded_category->Some_0.splits[i].pb,
        after.loaded_category->Some_0.splits[i].hits == 0,
        after.loaded_category->Some_0.splits[i].real_time@ == 0,
        after.selected_split == 0,
        after.chrono@.state == ChronometerState::Stopped,
{
}

} // verus!
