//! The field list of the generated content: select, add, remove, retype, edit.

use vstd::prelude::*;

use crate::generator::domain::{FieldKind, FieldSpec, RouteSelection};
use crate::generator::tui::app::{
    cycle_field_kind, cycled_kind, field_edit_started, id_type_for_field_kind, id_type_of_kind,
    transitioned, went_back, wizard_wf, Key, Screen, WizardApp,
};
use crate::generator::tui::components::common::{
    go_back, is_back_key, is_move_key, move_index, moved_index, quit_on_escape,
};
use crate::text::{chars_of, decimal, decimal_chars, push_all, string_of};

verus! {

/// The field editor component.
pub struct FieldEditor;

/// Name of the field added as the `n`-th: `custom_field_<n>`.
pub open spec fn custom_field_name(n: nat) -> Seq<char> {
    "custom_field_"@ + decimal(n)
}

/// Index of the last field (0 for an empty list).
pub open spec fn last_field_index(a: WizardApp) -> usize {
    if a.route_selection.fields.len() == 0 {
        0
    } else {
        (a.route_selection.fields.len() - 1) as usize
    }
}

/// `b` is `a` with a `custom_field_<n>` string field appended and selected,
/// where `n` is the new number of fields.
pub open spec fn field_added(a: WizardApp, b: WizardApp) -> bool {
    let fields = a.route_selection.fields@;
    let new_fields = b.route_selection.fields@;
    &&& b == (WizardApp {
        route_selection: RouteSelection {
            fields: b.route_selection.fields,
            ..a.route_selection
        },
        field_index: fields.len() as usize,
        ..a
    })
    &&& new_fields.len() == fields.len() + 1
    &&& new_fields.take(fields.len() as int) == fields
    &&& new_fields.last().name@ == custom_field_name((fields.len() + 1) as nat)
    &&& new_fields.last().kind == FieldKind::String
}

/// `b` is `a` after removing the selected field, unless it is the only one. The
/// selection stays in range, and when the id field went, the newly selected
/// field becomes the id field.
pub open spec fn field_removed(a: WizardApp, b: WizardApp) -> bool {
    let fields = a.route_selection.fields@;
    let i = a.field_index;
    if fields.len() <= 1 {
        b == a
    } else {
        let new_fields = fields.remove(i as int);
        let new_index = if i < new_fields.len() {
            i
        } else {
            (new_fields.len() - 1) as usize
        };
        let sel = b.route_selection;
        &&& b == (WizardApp { route_selection: sel, field_index: new_index, ..a })
        &&& sel.fields@ == new_fields
        &&& if fields[i as int].name@ == a.route_selection.id_key@ {
            &&& sel == (RouteSelection {
                fields: sel.fields,
                id_key: sel.id_key,
                id_type: sel.id_type,
                ..a.route_selection
            })
            &&& sel.id_key@ == new_fields[new_index as int].name@
            &&& sel.id_type == id_type_of_kind(new_fields[new_index as int].kind)
        } else {
            sel == (RouteSelection { fields: sel.fields, ..a.route_selection })
        }
    }
}

/// `b` is `a` with the selected field's kind cycled; the id strategy follows
/// when it is the id field.
pub open spec fn field_kind_cycled(a: WizardApp, b: WizardApp) -> bool {
    let fields = a.route_selection.fields@;
    let i = a.field_index as int;
    let field = fields[i];
    let kind = cycled_kind(field.kind);
    let sel = b.route_selection;
    &&& b == (WizardApp { route_selection: sel, ..a })
    &&& sel.fields@ == fields.update(i, FieldSpec { kind, ..field })
    &&& sel == (RouteSelection {
        fields: sel.fields,
        id_type: if field.name@ == a.route_selection.id_key@ {
            id_type_of_kind(kind)
        } else {
            a.route_selection.id_type
        },
        ..a.route_selection
    })
}

/// `b` is `a` after entering the field editor.
pub open spec fn field_editor_entered(a: WizardApp, b: WizardApp) -> bool {
    &&& b == (WizardApp { status: b.status, ..a })
    &&& b.status@ == "Edit fields or press Enter to review"@
}

/// `b` is `a` after a key press on the field editor.
pub open spec fn field_editor_key(a: WizardApp, b: WizardApp, key: Key) -> bool {
    if key == Key::Esc {
        b == (WizardApp { done: true, ..a })
    } else if is_back_key(key) {
        went_back(a, b)
    } else if is_move_key(key) {
        b == (WizardApp { field_index: moved_index(a.field_index, key, last_field_index(a)), ..a })
    } else if key == Key::Char('a') {
        field_added(a, b)
    } else if key == Key::Char('r') {
        field_removed(a, b)
    } else if key == Key::Char('e') {
        field_edit_started(a, b)
    } else if key == Key::Char('i') {
        field_kind_cycled(a, b)
    } else if key == Key::Enter {
        transitioned(a, b, Screen::Review)
    } else {
        b == a
    }
}

/// The line of a field in the list: a marker for the selected one, the name and the kind.
pub open spec fn field_line(field: FieldSpec, selected: bool) -> Seq<char> {
    (if selected {
        "> "@
    } else {
        "  "@
    }) + field.name@ + ": "@ + crate::generator::tui::components::field_edit::kind_label(field.kind)
}

/// A key press on the field editor keeps the wizard state well formed.
pub proof fn lemma_field_editor_keeps_wf(a: WizardApp, b: WizardApp, key: Key)
    requires
        wizard_wf(a),
        a.screen == Screen::FieldEditor,
        field_editor_key(a, b, key),
    ensures
        wizard_wf(b),
{
    if key == Key::Char('r') && a.route_selection.fields.len() > 1 {
        assert(b.route_selection.fields@.len() == a.route_selection.fields.len() - 1);
    }
}

/// Name of the field added as the `n`-th.
pub fn new_field_name(n: usize) -> (s: String)
    ensures
        s@ == custom_field_name(n as nat),
{
    let mut out = chars_of("custom_field_");
    push_all(&mut out, &decimal_chars(n as u64));
    string_of(&out)
}

/// Appends a `custom_field_<n>` string field and selects it.
pub fn add_field(app: &mut WizardApp)
    requires
        old(app).route_selection.fields.len() < usize::MAX,
    ensures
        field_added(*old(app), *final(app)),
{
    let n = app.route_selection.fields.len() + 1;
    let field = FieldSpec { name: new_field_name(n), kind: FieldKind::String };
    app.route_selection.fields.push(field);
    app.field_index = app.route_selection.fields.len() - 1;
    assert(app.route_selection.fields@.take((n - 1) as int) =~= old(app).route_selection.fields@);
}

/// Removes the selected field unless it is the only one, and repairs the id field.
pub fn remove_field(app: &mut WizardApp)
    requires
        old(app).route_selection.fields.len() > 1 ==> old(app).field_index < old(
            app,
        ).route_selection.fields.len(),
    ensures
        field_removed(*old(app), *final(app)),
{
    if app.route_selection.fields.len() > 1 {
        let index = app.field_index;
        let removed = app.route_selection.fields.remove(index);
        let last = app.route_selection.fields.len() - 1;
        app.field_index = if index < last { index } else { last };
        if removed.name == app.route_selection.id_key {
            let name = app.route_selection.fields[app.field_index].name.clone();
            let kind = app.route_selection.fields[app.field_index].kind;
            app.route_selection.id_key = name;
            app.route_selection.id_type = id_type_for_field_kind(kind);
        }
    }
}

/// Cycles the kind of the selected field; the id strategy follows for the id field.
pub fn cycle_selected_field_type(app: &mut WizardApp)
    requires
        old(app).field_index < old(app).route_selection.fields.len(),
    ensures
        field_kind_cycled(*old(app), *final(app)),
{
    let ghost a = *app;
    let index = app.field_index;
    let field = app.route_selection.fields.remove(index);
    let kind = cycle_field_kind(field.kind);
    let is_id = field.name == app.route_selection.id_key;
    app.route_selection.fields.insert(index, FieldSpec { kind, ..field });
    if is_id {
        app.route_selection.id_type = id_type_for_field_kind(kind);
    }
    assert(app.route_selection.fields@ =~= a.route_selection.fields@.update(
        index as int,
        FieldSpec { kind, ..a.route_selection.fields@[index as int] },
    ));
}

/// The line of a field in the list.
pub fn field_item(field: &FieldSpec, selected: bool) -> (s: String)
    ensures
        s@ == field_line(*field, selected),
{
    let mut out = chars_of(if selected { "> " } else { "  " });
    push_all(&mut out, &chars_of(field.name.as_str()));
    push_all(&mut out, &chars_of(": "));
    push_all(
        &mut out,
        &chars_of(crate::generator::tui::components::field_edit::kind_name(field.kind)),
    );
    string_of(&out)
}

/// The lines of the field list, the selected field marked.
pub fn field_items(app: &WizardApp) -> (items: Vec<String>)
    ensures
        items.len() == app.route_selection.fields.len(),
        forall|i: int|
            0 <= i < items.len() ==> #[trigger] items@[i]@ == field_line(
                app.route_selection.fields@[i],
                i == app.field_index,
            ),
{
    let mut items: Vec<String> = Vec::new();
    let n = app.route_selection.fields.len();
    let mut i: usize = 0;
    while i < n
        invariant
            n == app.route_selection.fields.len(),
            i <= n,
            items.len() == i,
            forall|j: int|
                0 <= j < i ==> #[trigger] items@[j]@ == field_line(
                    app.route_selection.fields@[j],
                    j == app.field_index,
                ),
        decreases n - i,
    {
        items.push(field_item(&app.route_selection.fields[i], i == app.field_index));
        i += 1;
    }
    items
}

impl FieldEditor {
    /// Shows the field editor's prompt.
    pub fn enter(&self, app: &mut WizardApp)
        ensures
            field_editor_entered(*old(app), *final(app)),
    {
        app.status = "Edit fields or press Enter to review".to_string();
    }

    /// Escape quits, a back key returns, Up/Down select, `a` adds, `r` removes,
    /// `e` edits, `i` cycles the kind, Enter opens the review.
    pub fn handle_key(&self, app: &mut WizardApp, key: Key)
        requires
            wizard_wf(*old(app)),
            old(app).route_selection.fields.len() < usize::MAX,
        ensures
            field_editor_key(*old(app), *final(app), key),
    {
        if quit_on_escape(app, key) || go_back(app, key) {
            return;
        }
        let max = app.route_selection.fields.len() - 1;
        if move_index(&mut app.field_index, key, max) {
            return;
        }
        match key {
            Key::Char('a') => add_field(app),
            Key::Char('r') => remove_field(app),
            Key::Char('e') => app.start_field_edit(),
            Key::Char('i') => cycle_selected_field_type(app),
            Key::Enter => app.transition_to(Screen::Review),
            _ => {},
        }
    }
}

} // verus!
