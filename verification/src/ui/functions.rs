//! What the buttons and the number fields of the pages show and do.

use vstd::prelude::*;
use vstd::string::*;
use crate::settings::shortcut::ShortcutAction;
use crate::ui::hitsplit::HitSplit;

verus! {

pub open spec fn press_a_key() -> Seq<char> {
    "Press a key to change shortcut. Click again to cancel."@
}

/// What the button of `action` says: the key of the action, or, while the
/// action waits for a new key, that a key is to be pressed. `None` where the
/// table has no key for the action.
pub open spec fn button_label(app: HitSplit, action: ShortcutAction) -> Option<Seq<char>> {
    if app.capturing == Some(action) {
        Some(press_a_key())
    } else {
        match app.shortcut {
            Some(table) => if action.index() < table@.len() {
                Some(table@[action.index() as int])
            } else {
                None
            },
            None => None,
        }
    }
}

/// What the button of `action` says.
pub fn shortcut_label(app: &HitSplit, action: &ShortcutAction) -> (label: Option<String>)
    ensures
        match button_label(*app, *action) {
            Some(text) => label matches Some(written) && written@ == text,
            None => label is None,
        },
{
    let capturing: bool = match app.capturing {
        Some(waiting) => waiting == *action,
        None => false,
    };
    if capturing {
        Some("Press a key to change shortcut. Click again to cancel.".to_string())
    } else {
        match &app.shortcut {
            Some(table) => {
                let place: usize = action.to_usize();
                if place < table.0.len() {
                    Some(table.0[place].clone())
                } else {
                    None
                }
            },
            None => None,
        }
    }
}

/// A click on the button of `action`: the action now waits for a new key,
/// or, if it was waiting, waits no more.
pub fn shortcut_button(app: &mut HitSplit, action: &ShortcutAction)
    ensures
        *final(app) == (HitSplit {
            capturing: if old(app).capturing == Some(*action) {
                None
            } else {
                Some(*action)
            },
            ..*old(app)
        }),
{
    let capturing: bool = match app.capturing {
        Some(waiting) => waiting == *action,
        None => false,
    };
    if capturing {
        app.capturing = None;
    } else {
        app.capturing = Some(*action);
    }
}

/// The digit that `c` writes.
pub open spec fn digit_of(c: char) -> Option<nat> {
    if c == '0' {
        Some(0)
    } else if c == '1' {
        Some(1)
    } else if c == '2' {
        Some(2)
    } else if c == '3' {
        Some(3)
    } else if c == '4' {
        Some(4)
    } else if c == '5' {
        Some(5)
    } else if c == '6' {
        Some(6)
    } else if c == '7' {
        Some(7)
    } else if c == '8' {
        Some(8)
    } else if c == '9' {
        Some(9)
    } else {
        None
    }
}

/// The number that a row of digits writes; `None` where something in the row
/// is no digit.
pub open spec fn number_of(digits: Seq<char>) -> Option<nat>
    decreases digits.len(),
{
    if digits.len() == 0 {
        Some(0)
    } else {
        match (number_of(digits.drop_last()), digit_of(digits.last())) {
            (Some(n), Some(d)) => Some(n * 10 + d),
            _ => None,
        }
    }
}

/// The digits of `text`: all of it, but for a plus sign at its head.
pub open spec fn digits_of(text: Seq<char>) -> Seq<char> {
    if text.len() > 0 && text[0] == '+' {
        text.skip(1)
    } else {
        text
    }
}

/// What `text` reads as: the number that its digits write, if there is at
/// least one digit, nothing but digits, and the number is `max` at most.
pub open spec fn reads_as(text: Seq<char>, max: nat) -> Option<nat> {
    if digits_of(text).len() == 0 {
        None
    } else {
        match number_of(digits_of(text)) {
            Some(n) => if n <= max {
                Some(n)
            } else {
                None
            },
            None => None,
        }
    }
}

/// The number in a field that held `value` when `text` stands in it: zero
/// for no text, the number that the text reads as, and `value` where it
/// reads as none.
pub open spec fn entered(value: nat, text: Seq<char>, max: nat) -> nat {
    if text.len() == 0 {
        0
    } else {
        match reads_as(text, max) {
            Some(n) => n,
            None => value,
        }
    }
}

/// A row of digits writes no smaller number than its first digits do, and
/// these are digits too.
pub proof fn lemma_number_grows(digits: Seq<char>, k: int)
    requires
        0 <= k <= digits.len(),
        number_of(digits) is Some,
    ensures
        number_of(digits.take(k)) is Some,
        number_of(digits.take(k))->Some_0 <= number_of(digits)->Some_0,
    decreases digits.len(),
{
    if k == digits.len() {
        assert(digits.take(k) =~= digits);
    } else {
        assert(digits.drop_last().take(k) =~= digits.take(k));
        lemma_number_grows(digits.drop_last(), k);
    }
}

fn digit_value(c: char) -> (d: Option<u64>)
    ensures
        match digit_of(c) {
            Some(n) => d == Some(n as u64) && n <= 9,
            None => d is None,
        },
{
    match c {
        '0' => Some(0),
        '1' => Some(1),
        '2' => Some(2),
        '3' => Some(3),
        '4' => Some(4),
        '5' => Some(5),
        '6' => Some(6),
        '7' => Some(7),
        '8' => Some(8),
        '9' => Some(9),
        _ => None,
    }
}

/// Reads `text` as a number up to `max`.
pub fn read_number(text: &str, max: u64) -> (number: Option<u64>)
    ensures
        match reads_as(text@, max as nat) {
            Some(n) => number == Some(n as u64),
            None => number is None,
        },
{
    let n: usize = text.unicode_len();
    let mut i: usize = 0;
    if n > 0 && text.get_char(0) == '+' {
        i = 1;
    }
    let first: usize = i;
    let ghost digits = digits_of(text@);
    if i >= n {
        return None;
    }
    let mut number: u64 = 0;
    while i < n
        invariant
            first <= i <= n,
            n == text@.len(),
            digits == digits_of(text@),
            digits == text@.skip(first as int),
            number_of(digits.take(i - first)) == Some(number as nat),
            number <= max,
        decreases n - i,
    {
        let c: char = text.get_char(i);
        proof {
            assert(digits.take(i - first + 1).drop_last() =~= digits.take(i - first));
            assert(digits.take(i - first + 1).last() == c);
            if number_of(digits) is Some {
                lemma_number_grows(digits, i - first + 1);
            }
        }
        match digit_value(c) {
            Some(d) => {
                if d > max || number > (max - d) / 10 {
                    return None;
                }
                number = number * 10 + d;
            },
            None => {
                return None;
            },
        }
        i += 1;
    }
    assert(digits.take(n - first) =~= digits);
    Some(number)
}

/// The number in a field for a `u64` after `text` was typed into it.
pub fn numeric_edit_field_u64(value: &mut u64, text: &str)
    ensures
        *final(value) == entered(*old(value) as nat, text@, u64::MAX as nat),
{
    if text.is_empty() {
        *value = 0;
    } else {
        match read_number(text, u64::MAX) {
            Some(number) => {
                *value = number;
            },
            None => {},
        }
    }
}

/// The number in a field for a `usize` after `text` was typed into it.
pub fn numeric_edit_field_usize(value: &mut usize, text: &str)
    ensures
        *final(value) == entered(*old(value) as nat, text@, usize::MAX as nat),
{
    if text.is_empty() {
        *value = 0;
    } else {
        match read_number(text, usize::MAX as u64) {
            Some(number) => {
                *value = number as usize;
            },
            None => {},
        }
    }
}

/// The number in a field for a `u16` after `text` was typed into it.
pub fn numeric_edit_field_u16(value: &mut u16, text: &str)
    ensures
        *final(value) == entered(*old(value) as nat, text@, u16::MAX as nat),
{
    if text.is_empty() {
        *value = 0;
    } else {
        match read_number(text, u16::MAX as u64) {
            Some(number) => {
                *value = number as u16;
            },
            None => {},
        }
    }
}

} // verus!
