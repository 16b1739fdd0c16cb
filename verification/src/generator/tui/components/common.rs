//! Key handling shared by the wizard screens.

use vstd::prelude::*;

use crate::generator::tui::app::{went_back, Key, WizardApp};
use crate::text::{pop_char, push_char};

verus! {

/// Whether the key moves a menu selection.
pub open spec fn is_move_key(key: Key) -> bool {
    key == Key::Up || key == Key::Down
}

/// A selection after a move key: up saturates at 0, down at `max`.
pub open spec fn moved_index(index: usize, key: Key, max: usize) -> usize {
    if key == Key::Up {
        if index == 0 {
            0
        } else {
            (index - 1) as usize
        }
    } else if key == Key::Down {
        if index + 1 < max {
            (index + 1) as usize
        } else {
            max
        }
    } else {
        index
    }
}

/// Whether the key goes back outside of text inputs: Left, `b` or Backspace.
pub open spec fn is_back_key(key: Key) -> bool {
    key == Key::Left || key == Key::Char('b') || key == Key::Backspace
}

/// `b` is `a` after an input edit: Backspace removes the last character, a
/// printable character is appended; `handled` tells whether anything changed
/// or was typed.
pub open spec fn input_edited(a: WizardApp, b: WizardApp, key: Key, handled: bool) -> bool {
    match key {
        Key::Backspace => {
            &&& handled == (a.input@.len() > 0)
            &&& b == (WizardApp { input: b.input, ..a })
            &&& b.input@ == (if a.input@.len() > 0 { a.input@.drop_last() } else { a.input@ })
        },
        Key::Char(c) => {
            &&& handled
            &&& b == (WizardApp { input: b.input, ..a })
            &&& b.input@ == a.input@.push(c)
        },
        _ => !handled && b == a,
    }
}

/// `b` is `a` after the input-or-back handling of a key: Left goes back,
/// Backspace on an empty input goes back, other keys edit the input.
pub open spec fn input_or_back(a: WizardApp, b: WizardApp, key: Key, handled: bool) -> bool {
    if key == Key::Left || (key == Key::Backspace && a.input@.len() == 0) {
        handled && went_back(a, b)
    } else {
        input_edited(a, b, key, handled)
    }
}

/// Moves the menu selection on Up/Down; tells whether the key was one of them.
pub fn move_menu(app: &mut WizardApp, key: Key, max: usize) -> (moved: bool)
    requires
        old(app).menu_index < usize::MAX,
    ensures
        moved == is_move_key(key),
        *final(app) == (WizardApp {
            menu_index: moved_index(old(app).menu_index, key, max),
            ..*old(app)
        }),
{
    move_index(&mut app.menu_index, key, max)
}

/// Moves an index on Up/Down; tells whether the key was one of them.
pub fn move_index(index: &mut usize, key: Key, max: usize) -> (moved: bool)
    requires
        *old(index) < usize::MAX,
    ensures
        moved == is_move_key(key),
        *final(index) == moved_index(*old(index), key, max),
{
    match key {
        Key::Up => {
            if *index > 0 {
                *index = *index - 1;
            }
            true
        },
        Key::Down => {
            let next = *index + 1;
            *index = if next < max { next } else { max };
            true
        },
        _ => false,
    }
}

/// Edits the input: Backspace removes a character, a printable character is
/// appended. Tells whether the key changed or typed into the input.
pub fn edit_input(app: &mut WizardApp, key: Key) -> (handled: bool)
    ensures
        input_edited(*old(app), *final(app), key, handled),
{
    match key {
        Key::Backspace => pop_char(&mut app.input).is_some(),
        Key::Char(ch) => {
            push_char(&mut app.input, ch);
            true
        },
        _ => false,
    }
}

/// Goes back on a back key; tells whether the key was one.
pub fn go_back(app: &mut WizardApp, key: Key) -> (handled: bool)
    ensures
        handled == is_back_key(key),
        handled ==> went_back(*old(app), *final(app)),
        !handled ==> *final(app) == *old(app),
{
    if is_back(key) {
        app.go_back();
        return true;
    }
    false
}

/// Goes back on Left or on Backspace with an empty input, and edits the input otherwise.
pub fn edit_input_or_go_back(app: &mut WizardApp, key: Key) -> (handled: bool)
    ensures
        input_or_back(*old(app), *final(app), key, handled),
{
    if key == Key::Left {
        app.go_back();
        return true;
    }
    if key == Key::Backspace && app.input.as_str().is_empty() {
        app.go_back();
        return true;
    }
    edit_input(app, key)
}

/// Finishes the wizard on Escape; tells whether the key was Escape.
pub fn quit_on_escape(app: &mut WizardApp, key: Key) -> (handled: bool)
    ensures
        handled == (key == Key::Esc),
        handled ==> *final(app) == (WizardApp { done: true, ..*old(app) }),
        !handled ==> *final(app) == *old(app),
{
    if key == Key::Esc {
        app.finish();
        return true;
    }
    false
}

fn is_back(key: Key) -> (b: bool)
    ensures
        b == is_back_key(key),
{
    match key {
        Key::Left | Key::Backspace => true,
        Key::Char(c) => c == 'b',
        _ => false,
    }
}

/// The help line of the status panel.
pub fn help_text() -> (s: &'static str)
    ensures
        s@ == "Enter: next/write | Left: back | b: back outside inputs | Esc: quit"@,
{
    "Enter: next/write | Left: back | b: back outside inputs | Esc: quit"
}


/// A menu row: `> ` before the selected one, two spaces before the others.
pub open spec fn menu_row(label: Seq<char>, selected: bool) -> Seq<char> {
    (if selected {
        "> "@
    } else {
        "  "@
    }) + label
}

/// The rows of a menu with the row `selected` marked.
pub fn menu_rows(labels: &Vec<&str>, selected: usize) -> (rows: Vec<String>)
    ensures
        rows.len() == labels.len(),
        forall|i: int| 0 <= i < labels.len() ==> #[trigger] rows@[i]@ == menu_row(labels@[i]@, i == selected),
{
    let mut rows: Vec<String> = Vec::new();
    let mut i: usize = 0;
    while i < labels.len()
        invariant
            i <= labels.len(),
            rows.len() == i,
            forall|j: int| 0 <= j < i ==> #[trigger] rows@[j]@ == menu_row(labels@[j]@, j == selected),
        decreases labels.len() - i,
    {
        let mut row = crate::text::chars_of(if i == selected {
            "> "
        } else {
            "  "
        });
        crate::text::push_str(&mut row, labels[i]);
        rows.push(crate::text::string_of(&row));
        i += 1;
    }
    rows
}

} // verus!
