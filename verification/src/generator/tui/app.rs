//! Shared wizard state, its navigation rules and its updates.

use vstd::prelude::*;

use crate::generator::domain::{
    FieldKind, FieldSpec, GeneratedFileType, GeneratorFlow, MainConfigSelection, RouteKind,
    RouteSelection, WriteOpView, WritePlan,
};
use crate::generator::main_config::{build_main_config_plan, main_config_document, main_config_plan};
use crate::generator::paths::{build_route_plan, route_plan};
use crate::generator::toml_doc::toml_pretty;
use crate::generator::tui::components::{enter_screen, entered};
use crate::generator::writer::{apply_plan, collision_paths, step_for, Collision, FsStep};
use crate::id_manager::IdType;
use crate::text::{chars_of, string_of, trim, trimmed};

verus! {

/// Wizard screens.
#[derive(Debug, Clone, Copy, PartialEq, Eq, Structural)]
pub enum Screen {
    /// Choice between route, configuration and exit.
    TopMenu,
    /// Choice of route kind.
    RouteKind,
    /// Route path input.
    RoutePath,
    /// Kind-specific options.
    RouteOptions,
    /// SQL collection input.
    RouteCollection,
    /// Generated file format.
    RouteFileType,
    /// Field list.
    FieldEditor,
    /// Edit of one field.
    FieldEdit,
    /// Mock folder input of the main configuration.
    MainConfig,
    /// Review of the plan before writing it.
    Review,
}

impl Default for Screen {
    fn default() -> (s: Self)
        ensures
            s == Screen::TopMenu,
    {
        Screen::TopMenu
    }
}

/// A key press, as the wizard distinguishes them.
#[derive(Debug, Clone, Copy, PartialEq, Eq, Structural)]
pub enum Key {
    /// Arrow up.
    Up,
    /// Arrow down.
    Down,
    /// Arrow left.
    Left,
    /// Enter.
    Enter,
    /// Escape.
    Esc,
    /// Tab.
    Tab,
    /// Backspace.
    Backspace,
    /// A printable character.
    Char(char),
    /// Any other key.
    Other,
}

/// What the caller does after a key press.
#[derive(Debug, Clone, Copy, PartialEq, Eq, Structural)]
pub enum WizardAction {
    /// Nothing more: draw the next frame.
    Continue,
    /// Apply the reviewed plan, then report with [`WizardApp::complete_write`].
    Write,
}

/// State of the generator wizard.
#[derive(Debug)]
pub struct WizardApp {
    /// Current screen.
    pub screen: Screen,
    /// Selected row of the current menu.
    pub menu_index: usize,
    /// Flow chosen in the top menu.
    pub selected_flow: Option<GeneratorFlow>,
    /// Route being generated.
    pub route_selection: RouteSelection,
    /// Main configuration being generated.
    pub main_config_selection: MainConfigSelection,
    /// Text of the current input.
    pub input: String,
    /// Plan under review.
    pub plan: WritePlan,
    /// Whether existing targets are overwritten.
    pub force: bool,
    /// Selected field of the field editor.
    pub field_index: usize,
    /// Field being edited.
    pub editing_field_index: Option<usize>,
    /// Name typed for the edited field.
    pub editing_field_name: String,
    /// Kind chosen for the edited field.
    pub editing_field_kind: FieldKind,
    /// Scroll offset of the review.
    pub review_scroll: u16,
    /// Status line.
    pub status: String,
    /// Status to show once back in the top menu.
    pub last_status: Option<String>,
    /// Whether the wizard has finished.
    pub done: bool,
    /// Mock folder routes are generated under.
    pub folder: String,
}

// ----------------------------------------------------------------------------
// Navigation rules
// ----------------------------------------------------------------------------

/// Route kind of a route-kind menu row.
pub open spec fn route_kind_of_index(index: usize) -> RouteKind {
    if index == 1 {
        RouteKind::Rest
    } else if index == 2 {
        RouteKind::Auth
    } else if index == 3 {
        RouteKind::Upload
    } else if index == 4 {
        RouteKind::Public
    } else if index == 5 {
        RouteKind::Graphql
    } else if index == 6 {
        RouteKind::Sql
    } else {
        RouteKind::Basic
    }
}

/// File type of a generic file-type menu row.
pub open spec fn file_type_of_index(index: usize) -> GeneratedFileType {
    if index == 1 {
        GeneratedFileType::Jgd
    } else if index == 2 {
        GeneratedFileType::Text
    } else if index == 3 {
        GeneratedFileType::Sql
    } else {
        GeneratedFileType::Json
    }
}

/// A route path with a leading `/`, surrounding whitespace removed.
pub open spec fn normalized_route(input: Seq<char>) -> Seq<char> {
    let t = trim(input);
    if t.len() > 0 && t[0] == '/' {
        t
    } else {
        "/"@ + t
    }
}

/// Screen that follows the route path of a route kind.
pub open spec fn next_route_screen_of(kind: RouteKind) -> Screen {
    match kind {
        RouteKind::Auth => Screen::FieldEditor,
        RouteKind::Public => Screen::Review,
        RouteKind::Sql => Screen::RouteCollection,
        _ => Screen::RouteOptions,
    }
}

/// Whether a route kind asks for a file type.
pub open spec fn needs_file_type_of(kind: RouteKind) -> bool {
    kind == RouteKind::Basic || kind == RouteKind::Rest || kind == RouteKind::Graphql
}

/// Screen that follows the route options.
pub open spec fn next_options_screen_of(kind: RouteKind) -> Screen {
    if needs_file_type_of(kind) {
        Screen::RouteFileType
    } else {
        Screen::Review
    }
}

/// Screen that follows the file type.
pub open spec fn next_file_type_screen_of(file_type: GeneratedFileType) -> Screen {
    if file_type == GeneratedFileType::Text || file_type == GeneratedFileType::Sql {
        Screen::Review
    } else {
        Screen::FieldEditor
    }
}

/// The next field kind in the cycle String, Integer, Boolean, DateTime, Uuid.
pub open spec fn cycled_kind(kind: FieldKind) -> FieldKind {
    match kind {
        FieldKind::String => FieldKind::Integer,
        FieldKind::Integer => FieldKind::Boolean,
        FieldKind::Boolean => FieldKind::DateTime,
        FieldKind::DateTime => FieldKind::Uuid,
        FieldKind::Uuid => FieldKind::String,
    }
}

/// Identifier strategy implied by the kind of the id field.
pub open spec fn id_type_of_kind(kind: FieldKind) -> IdType {
    match kind {
        FieldKind::Integer => IdType::Int,
        FieldKind::Uuid => IdType::Uuid,
        _ => IdType::NoId,
    }
}

/// A field name: the trimmed input, or `field` when it is blank.
pub open spec fn sanitized_name(input: Seq<char>) -> Seq<char> {
    if trim(input).len() == 0 {
        "field"@
    } else {
        trim(input)
    }
}

/// Whether the review of a route came straight from the file type.
pub open spec fn review_came_from_file_type(a: WizardApp) -> bool {
    needs_file_type_of(a.route_selection.kind) && (a.route_selection.file_type
        == GeneratedFileType::Text || a.route_selection.file_type == GeneratedFileType::Sql)
}

/// The screen before the route review.
pub open spec fn previous_route_review_screen_of(a: WizardApp) -> Screen {
    if review_came_from_file_type(a) {
        Screen::RouteFileType
    } else if a.route_selection.kind == RouteKind::Public {
        Screen::RoutePath
    } else if a.route_selection.kind == RouteKind::Upload || a.route_selection.kind
        == RouteKind::Sql {
        Screen::RouteOptions
    } else {
        Screen::FieldEditor
    }
}

/// The screen before the current one, if any.
pub open spec fn previous_screen_of(a: WizardApp) -> Option<Screen> {
    match a.screen {
        Screen::TopMenu => None,
        Screen::RouteKind | Screen::MainConfig => Some(Screen::TopMenu),
        Screen::RoutePath => Some(Screen::RouteKind),
        Screen::RouteCollection => Some(Screen::RoutePath),
        Screen::RouteOptions => Some(
            if a.route_selection.kind == RouteKind::Sql {
                Screen::RouteCollection
            } else {
                Screen::RoutePath
            },
        ),
        Screen::RouteFileType => Some(Screen::RouteOptions),
        Screen::FieldEditor => Some(
            if needs_file_type_of(a.route_selection.kind) {
                Screen::RouteFileType
            } else if a.route_selection.kind == RouteKind::Auth {
                Screen::RoutePath
            } else {
                Screen::RouteOptions
            },
        ),
        Screen::FieldEdit => Some(Screen::FieldEditor),
        Screen::Review => Some(
            if a.selected_flow == Some(GeneratorFlow::MainConfig) {
                Screen::MainConfig
            } else {
                previous_route_review_screen_of(a)
            },
        ),
    }
}

/// `b` is `a` after moving to `screen` and entering it.
pub open spec fn transitioned(a: WizardApp, b: WizardApp, screen: Screen) -> bool {
    entered(WizardApp { screen, ..a }, b, screen)
}

/// `b` is `a` after going back one screen (nothing changes on the top menu).
pub open spec fn went_back(a: WizardApp, b: WizardApp) -> bool {
    match previous_screen_of(a) {
        Some(s) => transitioned(a, b, s),
        None => b == a,
    }
}

/// The state the wizard keeps between key presses: fields to edit, a selected
/// field among them, and a valid edited field while the field dialog is open.
pub open spec fn wizard_wf(a: WizardApp) -> bool {
    &&& a.route_selection.fields.len() > 0
    &&& a.field_index < a.route_selection.fields.len()
    &&& a.menu_index < usize::MAX
    &&& a.screen == Screen::FieldEdit ==> (a.editing_field_index matches Some(i) && i
        < a.route_selection.fields.len())
}

/// The plan of the main-configuration review: the configuration file, or no
/// operation where the TOML serializer reports an error.
pub open spec fn config_review_plan(sel: MainConfigSelection) -> Seq<WriteOpView> {
    match toml_pretty(main_config_document(sel)) {
        Some(text) => main_config_plan(text),
        None => Seq::empty(),
    }
}

/// `sel` with its route defaults included.
pub open spec fn with_route_defaults(sel: MainConfigSelection) -> MainConfigSelection {
    MainConfigSelection { include_route_defaults: true, ..sel }
}

/// `b` is `a` after the field dialog opened on the selected field (the last one
/// when the selection is past the end).
pub open spec fn field_edit_started(a: WizardApp, b: WizardApp) -> bool {
    let index = if a.field_index < a.route_selection.fields.len() {
        a.field_index
    } else {
        (a.route_selection.fields.len() - 1) as usize
    };
    &&& b.editing_field_index == Some(index)
    &&& b.editing_field_name@ == a.route_selection.fields@[index as int].name@
    &&& b.editing_field_kind == a.route_selection.fields@[index as int].kind
    &&& transitioned(
        WizardApp {
            editing_field_index: b.editing_field_index,
            editing_field_name: b.editing_field_name,
            editing_field_kind: b.editing_field_kind,
            ..a
        },
        b,
        Screen::FieldEdit,
    )
}

/// `b` is `a` after the field dialog is saved: the edited field takes the
/// sanitized name and the chosen kind, the id field follows a renamed id field,
/// and the field editor opens. Without an edited field nothing changes.
pub open spec fn field_saved(a: WizardApp, b: WizardApp) -> bool {
    match a.editing_field_index {
        None => b == a,
        Some(i) => {
            let old_name = a.route_selection.fields@[i as int].name@;
            let new_name = sanitized_name(a.editing_field_name@);
            let sel = b.route_selection;
            &&& sel.fields.len() == a.route_selection.fields.len()
            &&& sel.fields@[i as int].name@ == new_name
            &&& sel.fields@[i as int].kind == a.editing_field_kind
            &&& forall|k: int|
                0 <= k < sel.fields.len() && k != i ==> #[trigger] sel.fields@[k]
                    == a.route_selection.fields@[k]
            &&& if old_name == a.route_selection.id_key@ {
                sel.id_key@ == new_name && sel.id_type == id_type_of_kind(a.editing_field_kind)
            } else {
                sel.id_key == a.route_selection.id_key && sel.id_type == a.route_selection.id_type
            }
            &&& sel == (RouteSelection {
                fields: sel.fields,
                id_key: sel.id_key,
                id_type: sel.id_type,
                ..a.route_selection
            })
            &&& transitioned(WizardApp { route_selection: sel, ..a }, b, Screen::FieldEditor)
        },
    }
}

// ----------------------------------------------------------------------------
// Executable rules
// ----------------------------------------------------------------------------

/// Route kind of a route-kind menu row: Basic, REST, Auth, Upload, Public, GraphQL, SQL.
pub fn route_kind_from_index(index: usize) -> (k: RouteKind)
    ensures
        k == route_kind_of_index(index),
{
    match index {
        1 => RouteKind::Rest,
        2 => RouteKind::Auth,
        3 => RouteKind::Upload,
        4 => RouteKind::Public,
        5 => RouteKind::Graphql,
        6 => RouteKind::Sql,
        _ => RouteKind::Basic,
    }
}

/// File type of a generic file-type menu row: JSON, JGD, Text, SQL.
pub fn file_type_from_index(index: usize) -> (t: GeneratedFileType)
    ensures
        t == file_type_of_index(index),
{
    match index {
        1 => GeneratedFileType::Jgd,
        2 => GeneratedFileType::Text,
        3 => GeneratedFileType::Sql,
        _ => GeneratedFileType::Json,
    }
}

/// Trims a route and gives it a leading `/`.
pub fn normalize_route(input: &str) -> (s: String)
    ensures
        s@ == normalized_route(input@),
{
    let t = trimmed(input);
    if t.len() > 0 && t[0] == '/' {
        string_of(&t)
    } else {
        let mut out = chars_of("/");
        crate::text::push_all(&mut out, &t);
        string_of(&out)
    }
}

/// Screen that follows the route path.
pub fn next_route_screen(kind: RouteKind) -> (s: Screen)
    ensures
        s == next_route_screen_of(kind),
{
    match kind {
        RouteKind::Auth => Screen::FieldEditor,
        RouteKind::Public => Screen::Review,
        RouteKind::Sql => Screen::RouteCollection,
        _ => Screen::RouteOptions,
    }
}

/// Screen that follows the route options.
pub fn next_options_screen(kind: RouteKind) -> (s: Screen)
    ensures
        s == next_options_screen_of(kind),
{
    if needs_file_type(kind) {
        Screen::RouteFileType
    } else {
        Screen::Review
    }
}

/// The next field kind in the cycle.
pub fn cycle_field_kind(kind: FieldKind) -> (k: FieldKind)
    ensures
        k == cycled_kind(kind),
{
    match kind {
        FieldKind::String => FieldKind::Integer,
        FieldKind::Integer => FieldKind::Boolean,
        FieldKind::Boolean => FieldKind::DateTime,
        FieldKind::DateTime => FieldKind::Uuid,
        FieldKind::Uuid => FieldKind::String,
    }
}

/// Identifier strategy implied by the kind of the id field.
pub fn id_type_for_field_kind(kind: FieldKind) -> (t: IdType)
    ensures
        t == id_type_of_kind(kind),
{
    match kind {
        FieldKind::Integer => IdType::Int,
        FieldKind::Uuid => IdType::Uuid,
        _ => IdType::NoId,
    }
}

/// A field name: the trimmed input, or `field` when it is blank.
pub fn sanitized_field_name(input: &str) -> (s: String)
    ensures
        s@ == sanitized_name(input@),
{
    let t = trimmed(input);
    if t.len() == 0 {
        "field".to_string()
    } else {
        string_of(&t)
    }
}

/// Screen that follows the file type.
pub fn next_file_type_screen(file_type: GeneratedFileType) -> (s: Screen)
    ensures
        s == next_file_type_screen_of(file_type),
{
    match file_type {
        GeneratedFileType::Text | GeneratedFileType::Sql => Screen::Review,
        _ => Screen::FieldEditor,
    }
}

/// Whether a route kind asks for a file type.
pub fn needs_file_type(kind: RouteKind) -> (b: bool)
    ensures
        b == needs_file_type_of(kind),
{
    match kind {
        RouteKind::Basic | RouteKind::Rest | RouteKind::Graphql => true,
        _ => false,
    }
}

fn previous_route_review_screen(app: &WizardApp) -> (s: Screen)
    ensures
        s == previous_route_review_screen_of(*app),
{
    let kind = app.route_selection.kind;
    let file_type = app.route_selection.file_type;
    if needs_file_type(kind) && (file_type == GeneratedFileType::Text || file_type
        == GeneratedFileType::Sql) {
        Screen::RouteFileType
    } else if kind == RouteKind::Public {
        Screen::RoutePath
    } else if kind == RouteKind::Upload || kind == RouteKind::Sql {
        Screen::RouteOptions
    } else {
        Screen::FieldEditor
    }
}

/// The screen before the current one, if any.
pub fn previous_screen(app: &WizardApp) -> (s: Option<Screen>)
    ensures
        s == previous_screen_of(*app),
{
    match app.screen {
        Screen::TopMenu => None,
        Screen::RouteKind | Screen::MainConfig => Some(Screen::TopMenu),
        Screen::RoutePath => Some(Screen::RouteKind),
        Screen::RouteCollection => Some(Screen::RoutePath),
        Screen::RouteOptions => Some(
            if app.route_selection.kind == RouteKind::Sql {
                Screen::RouteCollection
            } else {
                Screen::RoutePath
            },
        ),
        Screen::RouteFileType => Some(Screen::RouteOptions),
        Screen::FieldEditor => Some(
            if needs_file_type(app.route_selection.kind) {
                Screen::RouteFileType
            } else if app.route_selection.kind == RouteKind::Auth {
                Screen::RoutePath
            } else {
                Screen::RouteOptions
            },
        ),
        Screen::FieldEdit => Some(Screen::FieldEditor),
        Screen::Review => Some(
            if app.selected_flow == Some(GeneratorFlow::MainConfig) {
                Screen::MainConfig
            } else {
                previous_route_review_screen(app)
            },
        ),
    }
}

impl WizardApp {
    /// A wizard for `folder` with every selection at its default, before any screen is entered.
    pub fn empty(folder: &str) -> (app: Self)
        ensures
            app.screen == Screen::TopMenu,
            app.menu_index == 0,
            app.selected_flow.is_none(),
            crate::generator::domain::is_default_selection(app.route_selection),
            app.main_config_selection.port == 4520,
            app.main_config_selection.folder@ == "mocks"@,
            app.main_config_selection.enable_cors,
            app.main_config_selection.allowed_origin.is_none(),
            !app.main_config_selection.include_route_defaults,
            app.main_config_selection.delay.is_none(),
            app.main_config_selection.remap.is_none(),
            app.main_config_selection.protect.is_none(),
            app.input@ == Seq::<char>::empty(),
            app.plan@ == Seq::<WriteOpView>::empty(),
            !app.force,
            app.field_index == 0,
            app.editing_field_index.is_none(),
            app.editing_field_name@ == Seq::<char>::empty(),
            app.editing_field_kind == FieldKind::String,
            app.review_scroll == 0,
            app.status@ == Seq::<char>::empty(),
            app.last_status.is_none(),
            !app.done,
            app.folder@ == folder@,
            wizard_wf(app),
    {
        WizardApp {
            screen: Screen::TopMenu,
            menu_index: 0,
            selected_flow: None,
            route_selection: RouteSelection::default(),
            main_config_selection: MainConfigSelection::default(),
            input: String::new(),
            plan: WritePlan::default(),
            force: false,
            field_index: 0,
            editing_field_index: None,
            editing_field_name: String::new(),
            editing_field_kind: FieldKind::String,
            review_scroll: 0,
            status: String::new(),
            last_status: None,
            done: false,
            folder: folder.to_string(),
        }
    }

    /// A wizard for `folder` on its top menu.
    pub fn new(folder: &str) -> (app: Self)
        ensures
            app.screen == Screen::TopMenu,
            app.menu_index == 0,
            app.status@ == "Select what to generate"@,
            app.last_status.is_none(),
            app.selected_flow.is_none(),
            crate::generator::domain::is_default_selection(app.route_selection),
            app.input@ == Seq::<char>::empty(),
            app.plan@ == Seq::<WriteOpView>::empty(),
            !app.force,
            app.field_index == 0,
            app.editing_field_index.is_none(),
            app.review_scroll == 0,
            !app.done,
            app.folder@ == folder@,
            app.main_config_selection.folder@ == "mocks"@,
            !app.main_config_selection.include_route_defaults,
            wizard_wf(app),
            crate::generator::tui::components::flow_consistent(app),
    {
        let mut app = Self::empty(folder);
        enter_screen(&mut app, Screen::TopMenu);
        app
    }

    /// Builds the plan of the selected route under the mock folder.
    pub fn build_route_review(&mut self)
        ensures
            *final(self) == (WizardApp { plan: final(self).plan, ..*old(self) }),
            final(self).plan@ == route_plan(old(self).folder@, old(self).route_selection),
    {
        self.plan = build_route_plan(self.folder.as_str(), &self.route_selection);
    }

    /// Includes route defaults and builds the plan of the main configuration; the
    /// plan is empty where the TOML serializer reports an error.
    pub fn build_config_review(&mut self)
        ensures
            *final(self) == (WizardApp {
                plan: final(self).plan,
                main_config_selection: final(self).main_config_selection,
                ..*old(self)
            }),
            final(self).main_config_selection == with_route_defaults(old(self).main_config_selection),
            final(self).plan@ == config_review_plan(final(self).main_config_selection),
    {
        self.main_config_selection.include_route_defaults = true;
        self.plan = match build_main_config_plan(&self.main_config_selection) {
            Some(plan) => plan,
            None => WritePlan::default(),
        };
    }

    /// Moves to `screen` and enters it.
    pub fn transition_to(&mut self, screen: Screen)
        ensures
            transitioned(*old(self), *final(self), screen),
    {
        self.screen = screen;
        enter_screen(self, screen);
    }

    /// Goes back to the previous screen, if any.
    pub fn go_back(&mut self)
        ensures
            went_back(*old(self), *final(self)),
    {
        if let Some(screen) = previous_screen(self) {
            self.transition_to(screen);
        }
    }

    /// Opens the field dialog on the selected field (the last one when the
    /// selection is past the end).
    pub fn start_field_edit(&mut self)
        requires
            old(self).route_selection.fields.len() > 0,
        ensures
            field_edit_started(*old(self), *final(self)),
    {
        let last = self.route_selection.fields.len() - 1;
        let index = if self.field_index < last { self.field_index } else { last };
        let field = self.route_selection.fields[index].duplicate();
        self.editing_field_index = Some(index);
        self.editing_field_name = field.name;
        self.editing_field_kind = field.kind;
        self.transition_to(Screen::FieldEdit);
    }

    /// Saves the field dialog: the edited field takes the sanitized name and the
    /// chosen kind, the id metadata follows a renamed id field, and the field
    /// editor opens. Without an edited field nothing changes.
    pub fn save_field_edit(&mut self)
        requires
            old(self).editing_field_index matches Some(i) ==> i < old(self).route_selection.fields.len(),
        ensures
            field_saved(*old(self), *final(self)),
    {
        let index = match self.editing_field_index {
            Some(i) => i,
            None => {
                return;
            },
        };
        let old_name = self.route_selection.fields[index].name.clone();
        let new_name = sanitized_field_name(self.editing_field_name.as_str());
        let kind = self.editing_field_kind;
        let ghost before = self.route_selection.fields@;
        self.route_selection.fields.set(index, FieldSpec { name: new_name.clone(), kind });
        self.update_id_field(&old_name, &new_name);
        self.transition_to(Screen::FieldEditor);
    }

    /// Closes the field dialog without saving.
    pub fn cancel_field_edit(&mut self)
        ensures
            transitioned(
                WizardApp { editing_field_index: None, ..*old(self) },
                *final(self),
                Screen::FieldEditor,
            ),
    {
        self.editing_field_index = None;
        self.transition_to(Screen::FieldEditor);
    }

    /// Toggles overwriting and reports it: `Force overwrite: true|false`.
    pub fn toggle_force(&mut self)
        ensures
            *final(self) == (WizardApp {
                force: !old(self).force,
                status: final(self).status,
                ..*old(self)
            }),
            final(self).status@ == (if final(self).force {
                "Force overwrite: true"@
            } else {
                "Force overwrite: false"@
            }),
    {
        self.force = !self.force;
        self.status = if self.force {
            "Force overwrite: true".to_string()
        } else {
            "Force overwrite: false".to_string()
        };
    }

    /// Scrolls the review down by one line, saturating.
    pub fn move_review_scroll_down(&mut self)
        ensures
            *final(self) == (WizardApp {
                review_scroll: if old(self).review_scroll == u16::MAX {
                    u16::MAX
                } else {
                    (old(self).review_scroll + 1) as u16
                },
                ..*old(self)
            }),
    {
        if self.review_scroll < u16::MAX {
            self.review_scroll = self.review_scroll + 1;
        }
    }

    /// Scrolls the review up by one line, saturating.
    pub fn move_review_scroll_up(&mut self)
        ensures
            *final(self) == (WizardApp {
                review_scroll: if old(self).review_scroll == 0 {
                    0
                } else {
                    (old(self).review_scroll - 1) as u16
                },
                ..*old(self)
            }),
    {
        if self.review_scroll > 0 {
            self.review_scroll = self.review_scroll - 1;
        }
    }

    /// The file-system steps that write the reviewed plan, or the first collision
    /// when overwriting is off; `existing[i]` tells whether target `i` exists.
    pub fn write_steps(&self, existing: &Vec<bool>) -> (r: Result<Vec<FsStep>, Collision>)
        requires
            existing.len() == self.plan.operations.len(),
        ensures
            (r is Ok) <==> (self.force || collision_paths(self.plan@, existing@).len() == 0),
            r matches Err(c) ==> c.path@ == collision_paths(self.plan@, existing@)[0],
            r matches Ok(steps) ==> steps.len() == self.plan@.len() && forall|i: int|
                0 <= i < steps.len() ==> step_for(self.plan@[i], #[trigger] steps@[i]),
    {
        apply_plan(&self.plan, self.force, existing)
    }

    /// Records a successful write and returns to the top menu, which reports it.
    pub fn complete_write(&mut self)
        ensures
            final(self).screen == Screen::TopMenu,
            final(self).menu_index == 0,
            final(self).status@ == "Files generated"@,
            final(self).last_status.is_none(),
            *final(self) == (WizardApp {
                screen: Screen::TopMenu,
                menu_index: 0,
                status: final(self).status,
                last_status: None,
                ..*old(self)
            }),
    {
        self.last_status = Some("Files generated".to_string());
        self.transition_to(Screen::TopMenu);
    }

    /// Sets the route from the input when it is not blank.
    pub fn update_route_from_input(&mut self)
        ensures
            trim(old(self).input@).len() == 0 ==> *final(self) == *old(self),
            trim(old(self).input@).len() > 0 ==> final(self).route_selection.route@
                == normalized_route(old(self).input@) && *final(self) == (WizardApp {
                route_selection: RouteSelection {
                    route: final(self).route_selection.route,
                    ..old(self).route_selection
                },
                ..*old(self)
            }),
    {
        let t = trimmed(self.input.as_str());
        if t.len() > 0 {
            self.route_selection.route = normalize_route(self.input.as_str());
        }
    }

    /// Sets the configuration folder from the trimmed input when it is not blank.
    pub fn update_config_folder(&mut self)
        ensures
            trim(old(self).input@).len() == 0 ==> *final(self) == *old(self),
            trim(old(self).input@).len() > 0 ==> final(self).main_config_selection.folder@
                == trim(old(self).input@) && *final(self) == (WizardApp {
                main_config_selection: MainConfigSelection {
                    folder: final(self).main_config_selection.folder,
                    ..old(self).main_config_selection
                },
                ..*old(self)
            }),
    {
        let t = trimmed(self.input.as_str());
        if t.len() > 0 {
            self.main_config_selection.folder = string_of(&t);
        }
    }

    /// Marks the wizard finished.
    pub fn finish(&mut self)
        ensures
            *final(self) == (WizardApp { done: true, ..*old(self) }),
    {
        self.done = true;
    }

    fn update_id_field(&mut self, old_name: &String, new_name: &String)
        ensures
            old_name@ == old(self).route_selection.id_key@ ==> final(self).route_selection.id_key@
                == new_name@ && final(self).route_selection.id_type == id_type_of_kind(
                old(self).editing_field_kind,
            ) && *final(self) == (WizardApp {
                route_selection: RouteSelection {
                    id_key: final(self).route_selection.id_key,
                    id_type: final(self).route_selection.id_type,
                    ..old(self).route_selection
                },
                ..*old(self)
            }),
            old_name@ != old(self).route_selection.id_key@ ==> *final(self) == *old(self),
    {
        if *old_name == self.route_selection.id_key {
            self.route_selection.id_key = new_name.clone();
            self.route_selection.id_type = id_type_for_field_kind(self.editing_field_kind);
        }
    }
}

} // verus!
