//! The generated file format menu.

use vstd::prelude::*;

use crate::generator::domain::{GeneratedFileType, RouteKind, RouteSelection};
use crate::generator::tui::app::{
    file_type_from_index, file_type_of_index, next_file_type_screen, next_file_type_screen_of,
    transitioned, went_back, Key, WizardApp,
};
use crate::generator::tui::components::common::{
    go_back, is_back_key, is_move_key, move_menu, moved_index, quit_on_escape,
};

verus! {

/// The file format menu component.
pub struct FileTypeMenu;

/// Rows of the file format menu of a route kind.
pub open spec fn file_type_labels(kind: RouteKind) -> Seq<Seq<char>> {
    if kind == RouteKind::Basic {
        seq!["JSON"@, "JGD"@, "Text"@]
    } else {
        seq!["JSON"@, "JGD"@]
    }
}

/// Index of the last row of the file format menu.
pub open spec fn file_type_last_index(kind: RouteKind) -> usize {
    if kind == RouteKind::Basic {
        2
    } else {
        1
    }
}

/// Title of the file format menu.
pub open spec fn file_type_title(kind: RouteKind) -> Seq<char> {
    match kind {
        RouteKind::Rest => "REST data source"@,
        RouteKind::Graphql => "GraphQL seed source"@,
        _ => "Response type"@,
    }
}

/// The file format of row `index` for a route kind.
pub open spec fn file_type_of_row(kind: RouteKind, index: usize) -> GeneratedFileType {
    match kind {
        RouteKind::Basic => if index == 1 {
            GeneratedFileType::Jgd
        } else if index == 2 {
            GeneratedFileType::Text
        } else {
            GeneratedFileType::Json
        },
        RouteKind::Rest | RouteKind::Graphql => if index == 1 {
            GeneratedFileType::Jgd
        } else {
            GeneratedFileType::Json
        },
        _ => file_type_of_index(index),
    }
}

/// `b` is `a` after a key press on the file format menu.
pub open spec fn file_type_key(a: WizardApp, b: WizardApp, key: Key) -> bool {
    let kind = a.route_selection.kind;
    if key == Key::Esc {
        b == (WizardApp { done: true, ..a })
    } else if is_back_key(key) {
        went_back(a, b)
    } else if is_move_key(key) {
        b == (WizardApp {
            menu_index: moved_index(a.menu_index, key, file_type_last_index(kind)),
            ..a
        })
    } else if key == Key::Enter {
        let file_type = file_type_of_row(kind, a.menu_index);
        transitioned(
            WizardApp {
                route_selection: RouteSelection { file_type, ..a.route_selection },
                ..a
            },
            b,
            next_file_type_screen_of(file_type),
        )
    } else {
        b == a
    }
}

/// The file format of row `index` for a route kind.
pub fn file_type_for_row(kind: RouteKind, index: usize) -> (t: GeneratedFileType)
    ensures
        t == file_type_of_row(kind, index),
{
    match kind {
        RouteKind::Basic => if index == 1 {
            GeneratedFileType::Jgd
        } else if index == 2 {
            GeneratedFileType::Text
        } else {
            GeneratedFileType::Json
        },
        RouteKind::Rest | RouteKind::Graphql => if index == 1 {
            GeneratedFileType::Jgd
        } else {
            GeneratedFileType::Json
        },
        _ => file_type_from_index(index),
    }
}

/// Index of the last row of the file format menu.
pub fn last_index(kind: RouteKind) -> (i: usize)
    ensures
        i == file_type_last_index(kind),
{
    if kind == RouteKind::Basic {
        2
    } else {
        1
    }
}

/// Title of the file format menu.
pub fn title(kind: RouteKind) -> (s: &'static str)
    ensures
        s@ == file_type_title(kind),
{
    match kind {
        RouteKind::Rest => "REST data source",
        RouteKind::Graphql => "GraphQL seed source",
        _ => "Response type",
    }
}

impl FileTypeMenu {
    /// Selects the first row.
    pub fn enter(&self, app: &mut WizardApp)
        ensures
            *final(app) == (WizardApp { menu_index: 0, ..*old(app) }),
    {
        app.menu_index = 0;
    }

    /// Escape quits, a back key returns, Up/Down move, Enter picks the format and
    /// opens the field editor or the review.
    pub fn handle_key(&self, app: &mut WizardApp, key: Key)
        requires
            old(app).menu_index < usize::MAX,
        ensures
            file_type_key(*old(app), *final(app), key),
    {
        if quit_on_escape(app, key) || go_back(app, key) {
            return;
        }
        let max = last_index(app.route_selection.kind);
        if move_menu(app, key, max) {
            return;
        }
        if key == Key::Enter {
            let file_type = file_type_for_row(app.route_selection.kind, app.menu_index);
            app.route_selection.file_type = file_type;
            app.transition_to(next_file_type_screen(file_type));
        }
    }
}


/// Rows of the file format menu of a route kind.
pub fn labels(kind: RouteKind) -> (labels: Vec<&'static str>)
    ensures
        labels@.map_values(|s: &str| s@) == file_type_labels(kind),
{
    let mut labels: Vec<&'static str> = Vec::new();
    labels.push("JSON");
    labels.push("JGD");
    if kind == RouteKind::Basic {
        labels.push("Text");
    }
    assert(labels@.map_values(|s: &str| s@) =~= file_type_labels(kind));
    labels
}

} // verus!
