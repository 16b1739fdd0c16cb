//! The dialog that edits one field: its name and its kind.

use vstd::prelude::*;

use crate::generator::domain::FieldKind;
use crate::generator::tui::app::{
    cycle_field_kind, cycled_kind, field_saved, transitioned, Key, Screen, WizardApp,
};
use crate::generator::tui::components::common::edit_input;

verus! {

/// The field dialog component.
pub struct FieldEdit;

/// Name of a field kind as the dialog shows it.
pub open spec fn kind_label(kind: FieldKind) -> Seq<char> {
    match kind {
        FieldKind::String => "String"@,
        FieldKind::Integer => "Integer"@,
        FieldKind::Boolean => "Boolean"@,
        FieldKind::DateTime => "DateTime"@,
        FieldKind::Uuid => "Uuid"@,
    }
}

/// An input after a key: Backspace removes the last character, a printable
/// character is appended, other keys leave it.
pub open spec fn edited_input(s: Seq<char>, key: Key) -> Seq<char> {
    match key {
        Key::Backspace => if s.len() > 0 {
            s.drop_last()
        } else {
            s
        },
        Key::Char(c) => s.push(c),
        _ => s,
    }
}

/// `b` is `a` after entering the field dialog: the input shows the edited name.
pub open spec fn field_edit_entered(a: WizardApp, b: WizardApp) -> bool {
    &&& b == (WizardApp { input: b.input, status: b.status, ..a })
    &&& b.input@ == a.editing_field_name@
    &&& b.status@ == "Edit field name, Tab type, Enter save, Esc cancel"@
}

/// `b` is `a` after a key press on the field dialog.
pub open spec fn field_edit_key(a: WizardApp, b: WizardApp, key: Key) -> bool {
    if key == Key::Esc || key == Key::Left {
        transitioned(WizardApp { editing_field_index: None, ..a }, b, Screen::FieldEditor)
    } else if key == Key::Enter {
        &&& b.editing_field_name@ == a.input@
        &&& field_saved(WizardApp { editing_field_name: b.editing_field_name, ..a }, b)
    } else if key == Key::Tab {
        b == (WizardApp { editing_field_kind: cycled_kind(a.editing_field_kind), ..a })
    } else {
        &&& b == (WizardApp { input: b.input, editing_field_name: b.editing_field_name, ..a })
        &&& b.input@ == edited_input(a.input@, key)
        &&& b.editing_field_name@ == b.input@
    }
}

/// Name of a field kind as the dialog shows it.
pub fn kind_name(kind: FieldKind) -> (s: &'static str)
    ensures
        s@ == kind_label(kind),
{
    match kind {
        FieldKind::String => "String",
        FieldKind::Integer => "Integer",
        FieldKind::Boolean => "Boolean",
        FieldKind::DateTime => "DateTime",
        FieldKind::Uuid => "Uuid",
    }
}

impl FieldEdit {
    /// Loads the edited name into the input.
    pub fn enter(&self, app: &mut WizardApp)
        ensures
            field_edit_entered(*old(app), *final(app)),
    {
        app.input = app.editing_field_name.clone();
        app.status = "Edit field name, Tab type, Enter save, Esc cancel".to_string();
    }

    /// Escape or Left cancels, Enter saves, Tab cycles the kind, other keys edit the name.
    pub fn handle_key(&self, app: &mut WizardApp, key: Key)
        requires
            old(app).editing_field_index matches Some(i) ==> i < old(app).route_selection.fields.len(),
        ensures
            field_edit_key(*old(app), *final(app), key),
    {
        if key == Key::Esc || key == Key::Left {
            app.cancel_field_edit();
        } else if key == Key::Enter {
            app.editing_field_name = app.input.clone();
            app.save_field_edit();
        } else if key == Key::Tab {
            app.editing_field_kind = cycle_field_kind(app.editing_field_kind);
        } else {
            edit_input(app, key);
            app.editing_field_name = app.input.clone();
        }
    }
}


/// Whether the dialog edits the id field: the edited field exists and its name
/// is the id key.
pub open spec fn editing_id_field(a: WizardApp) -> bool {
    a.editing_field_index matches Some(i) && i < a.route_selection.fields.len()
        && a.route_selection.fields@[i as int].name@ == a.route_selection.id_key@
}

/// The lines of the field dialog: the typed name, the kind, and whether it is the id field.
pub fn dialog_lines(app: &WizardApp) -> (lines: Vec<String>)
    ensures
        lines.len() == 3,
        lines@[0]@ == "Name: "@ + app.input@,
        lines@[1]@ == "Type: "@ + kind_label(app.editing_field_kind),
        lines@[2]@ == (if editing_id_field(*app) {
            "ID field: true"@
        } else {
            "ID field: false"@
        }),
{
    let mut name = crate::text::chars_of("Name: ");
    crate::text::push_str(&mut name, app.input.as_str());
    let mut kind = crate::text::chars_of("Type: ");
    crate::text::push_str(&mut kind, kind_name(app.editing_field_kind));
    let is_id = match app.editing_field_index {
        Some(i) => i < app.route_selection.fields.len() && app.route_selection.fields[i].name
            == app.route_selection.id_key,
        None => false,
    };
    let mut lines: Vec<String> = Vec::new();
    lines.push(crate::text::string_of(&name));
    lines.push(crate::text::string_of(&kind));
    lines.push(if is_id {
        "ID field: true".to_string()
    } else {
        "ID field: false".to_string()
    });
    lines
}

} // verus!
