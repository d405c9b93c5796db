//! What the counter window shows of the run: which splits, and in which
//! colour.

use vstd::prelude::*;
use crate::run::split::Split;
use crate::settings::config::Config;
use crate::ui::hitsplit::HitSplit;

verus! {

pub open spec fn min_of(a: int, b: int) -> int {
    if a <= b {
        a
    } else {
        b
    }
}

pub open spec fn max_of(a: int, b: int) -> int {
    if a >= b {
        a
    } else {
        b
    }
}

/// The place of the first split shown when `shown` of `len` splits fit in
/// the window and the cursor stands at `selected`: the window has the
/// current split in its middle, but does not reach beyond the last split.
pub open spec fn window_first(selected: int, shown: int, len: int) -> int {
    min_of(max_of(selected - shown / 2, 0), max_of(len - shown, 0))
}

/// The place behind the last split shown: the window holds `shown` splits,
/// or all of them where they are fewer.
pub open spec fn window_last(selected: int, shown: int, len: int) -> int {
    window_first(selected, shown, len) + min_of(shown, len)
}

/// The splits that the window shows: those from the first place up to, and
/// without, the second.
pub fn visible_splits(selected: usize, shown: usize, len: usize) -> (window: (usize, usize))
    ensures
        window.0 == window_first(selected as int, shown as int, len as int),
        window.1 == window_last(selected as int, shown as int, len as int),
        window.0 <= window.1 <= len,
{
    let half: usize = shown / 2;
    let back: usize = if half < selected {
        half
    } else {
        selected
    };
    let first: usize = selected - back;
    let reach: usize = if shown > usize::MAX - first {
        usize::MAX
    } else {
        first + shown
    };
    let last: usize = if reach < len {
        reach
    } else {
        len
    };
    let room: usize = if last >= shown {
        last - shown
    } else {
        0
    };
    let first: usize = if first < room {
        first
    } else {
        room
    };
    (first, last)
}

/// Whether the split at place `index` is shown: all are, unless the
/// settings limit the splits shown to a window round the current one.
pub open spec fn spec_is_shown(app: HitSplit, index: int, len: int) -> bool {
    !app.config.limit_splits_shown || window_first(
        app.selected_split as int,
        app.config.num_splits_counter as int,
        len,
    ) <= index < window_last(
        app.selected_split as int,
        app.config.num_splits_counter as int,
        len,
    )
}

/// Whether the split at place `index` of `len` splits is shown.
pub fn is_shown(app: &HitSplit, index: usize, len: usize) -> (shown: bool)
    ensures
        shown == spec_is_shown(*app, index as int, len as int),
{
    if !app.config.limit_splits_shown {
        return true;
    }
    let window: (usize, usize) = visible_splits(
        app.selected_split,
        app.config.num_splits_counter,
        len,
    );
    window.0 <= index && index < window.1
}

/// The colour in which the split at place `index` is written. The splits
/// behind the cursor have the colour of the text. The others tell how the
/// attempt goes: without a hit, with fewer hits than the personal best, or
/// with as many or more.
pub open spec fn spec_label_color(config: Config, split: Split, index: int, selected: int) -> [u8; 3] {
    if index > selected {
        config.text_color_default
    } else if split.hits == 0 {
        config.text_color_nohit
    } else if split.hits < split.pb {
        config.text_color_better
    } else {
        config.text_color_worse
    }
}

/// The colour in which the split at place `index` is written.
pub fn label_color(app: &HitSplit, index: usize, split: &Split) -> (color: [u8; 3])
    ensures
        color == spec_label_color(app.config, *split, index as int, app.selected_split as int),
{
    if index > app.selected_split {
        app.config.text_color_default
    } else if split.hits == 0 {
        app.config.text_color_nohit
    } else if split.hits < split.pb {
        app.config.text_color_better
    } else {
        app.config.text_color_worse
    }
}

/// With room for at least one split, the window shows the current split.
pub proof fn law_window_shows_current(selected: int, shown: int, len: int)
    requires
        0 <= selected < len,
        shown >= 1,
    ensures
        0 <= window_first(selected, shown, len) <= selected < window_last(selected, shown, len) <= len,
        window_last(selected, shown, len) - window_first(selected, shown, len) == min_of(shown, len),
{
}

} // verus!
