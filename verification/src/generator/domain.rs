//! Selections made in the generator wizard and the file-system plans built from them.

use vstd::prelude::*;

use crate::id_manager::IdType;

verus! {

/// Kind of mock route to generate.
#[derive(Debug, Clone, Copy, PartialEq, Eq, Structural)]
pub enum RouteKind {
    /// A method file such as `get{id}.json`.
    Basic,
    /// An in-memory REST collection (`rest.json`).
    Rest,
    /// Login/logout endpoints backed by `{auth}.json`.
    Auth,
    /// An `{upload}` folder.
    Upload,
    /// A `public` static folder.
    Public,
    /// A GraphQL service folder with a seeded collection.
    Graphql,
    /// A SQL query file.
    Sql,
}

impl Default for RouteKind {
    fn default() -> (r: Self)
        ensures
            r == RouteKind::Basic,
    {
        RouteKind::Basic
    }
}

/// Format of a generated mock file.
#[derive(Debug, Clone, Copy, PartialEq, Eq, Structural)]
pub enum GeneratedFileType {
    /// Plain JSON sample content.
    Json,
    /// A JGD generator document.
    Jgd,
    /// Plain text.
    Text,
    /// A SQL query.
    Sql,
    /// A directory, without content.
    Directory,
}

impl Default for GeneratedFileType {
    fn default() -> (r: Self)
        ensures
            r == GeneratedFileType::Json,
    {
        GeneratedFileType::Json
    }
}

/// Type of a generated sample field.
#[derive(Debug, Clone, Copy, PartialEq, Eq, Structural)]
pub enum FieldKind {
    /// Text.
    String,
    /// An integer.
    Integer,
    /// A boolean.
    Boolean,
    /// An RFC 3339 timestamp.
    DateTime,
    /// A UUID.
    Uuid,
}

impl Default for FieldKind {
    fn default() -> (r: Self)
        ensures
            r == FieldKind::String,
    {
        FieldKind::String
    }
}

/// A named field of generated sample content.
#[derive(Debug, Clone, PartialEq, Eq)]
pub struct FieldSpec {
    /// Field name.
    pub name: String,
    /// Field type.
    pub kind: FieldKind,
}

impl FieldSpec {
    /// A field with the given name and type.
    pub fn new(name: &str, kind: FieldKind) -> (f: Self)
        ensures
            f.name@ == name@,
            f.kind == kind,
    {
        FieldSpec { name: name.to_string(), kind }
    }

    /// A copy of this field.
    pub fn duplicate(&self) -> (f: Self)
        ensures
            f.name@ == self.name@,
            f.kind == self.kind,
    {
        FieldSpec { name: self.name.clone(), kind: self.kind }
    }
}

/// Names of the fields, in order.
pub open spec fn field_names(fields: Seq<FieldSpec>) -> Seq<Seq<char>> {
    fields.map_values(|f: FieldSpec| f.name@)
}

/// The default sample fields: `id`, `description`, `created_at`, `updated_at`, `updated_by`.
pub open spec fn default_fields_spec() -> Seq<(Seq<char>, FieldKind)> {
    seq![
        ("id"@, FieldKind::Uuid),
        ("description"@, FieldKind::String),
        ("created_at"@, FieldKind::DateTime),
        ("updated_at"@, FieldKind::DateTime),
        ("updated_by"@, FieldKind::String),
    ]
}

/// Whether `fields` holds exactly the given names and kinds, in order.
pub open spec fn fields_are(fields: Seq<FieldSpec>, expected: Seq<(Seq<char>, FieldKind)>) -> bool {
    &&& fields.len() == expected.len()
    &&& forall|i: int|
        0 <= i < fields.len() ==> #[trigger] fields[i].name@ == expected[i].0 && fields[i].kind
            == expected[i].1
}

/// The default sample fields of a new route.
pub fn default_fields() -> (fields: Vec<FieldSpec>)
    ensures
        fields_are(fields@, default_fields_spec()),
{
    let mut fields: Vec<FieldSpec> = Vec::new();
    fields.push(FieldSpec::new("id", FieldKind::Uuid));
    fields.push(FieldSpec::new("description", FieldKind::String));
    fields.push(FieldSpec::new("created_at", FieldKind::DateTime));
    fields.push(FieldSpec::new("updated_at", FieldKind::DateTime));
    fields.push(FieldSpec::new("updated_by", FieldKind::String));
    fields
}

/// Everything chosen for one generated route.
#[derive(Debug)]
pub struct RouteSelection {
    /// Route kind.
    pub kind: RouteKind,
    /// Route path such as `/api/users/{id}`.
    pub route: String,
    /// HTTP method of a basic route.
    pub method: String,
    /// Format of the generated file.
    pub file_type: GeneratedFileType,
    /// Whether the route requires authentication (`$` prefix).
    pub protected: bool,
    /// Whether uploads are temporary (`{temp}`).
    pub temporary_upload: bool,
    /// Name of the identifier field.
    pub id_key: String,
    /// Identifier strategy.
    pub id_type: IdType,
    /// Collection name override of a SQL route.
    pub collection_name: Option<String>,
    /// Sample fields.
    pub fields: Vec<FieldSpec>,
}

/// Whether `s` is the default route selection.
pub open spec fn is_default_selection(s: RouteSelection) -> bool {
    &&& s.kind == RouteKind::Basic
    &&& s.route@ == "/api/example"@
    &&& s.method@ == "get"@
    &&& s.file_type == GeneratedFileType::Json
    &&& !s.protected
    &&& !s.temporary_upload
    &&& s.id_key@ == "id"@
    &&& s.id_type == IdType::Uuid
    &&& s.collection_name.is_none()
    &&& fields_are(s.fields@, default_fields_spec())
}

impl Default for RouteSelection {
    fn default() -> (s: Self)
        ensures
            is_default_selection(s),
    {
        RouteSelection {
            kind: RouteKind::Basic,
            route: "/api/example".to_string(),
            method: "get".to_string(),
            file_type: GeneratedFileType::Json,
            protected: false,
            temporary_upload: false,
            id_key: "id".to_string(),
            id_type: IdType::Uuid,
            collection_name: None,
            fields: default_fields(),
        }
    }
}

/// Everything chosen for a generated `rs-mock-server.toml`.
#[derive(Debug)]
pub struct MainConfigSelection {
    /// Server port.
    pub port: u16,
    /// Mock folder.
    pub folder: String,
    /// Whether CORS is enabled.
    pub enable_cors: bool,
    /// Allowed CORS origin.
    pub allowed_origin: Option<String>,
    /// Whether the `[route]` table is written.
    pub include_route_defaults: bool,
    /// Route delay in milliseconds.
    pub delay: Option<u16>,
    /// Route prefix remapping.
    pub remap: Option<String>,
    /// Whether routes are protected by default.
    pub protect: Option<bool>,
}

impl Default for MainConfigSelection {
    fn default() -> (s: Self)
        ensures
            s.port == 4520,
            s.folder@ == "mocks"@,
            s.enable_cors,
            s.allowed_origin.is_none(),
            !s.include_route_defaults,
            s.delay.is_none(),
            s.remap.is_none(),
            s.protect.is_none(),
    {
        MainConfigSelection {
            port: 4520,
            folder: "mocks".to_string(),
            enable_cors: true,
            allowed_origin: None,
            include_route_defaults: false,
            delay: None,
            remap: None,
            protect: None,
        }
    }
}

/// Which generator flow the wizard runs.
#[derive(Debug, Clone, Copy, PartialEq, Eq, Structural)]
pub enum GeneratorFlow {
    /// Generating a route file or folder.
    Route,
    /// Generating the main configuration file.
    MainConfig,
}

/// One file or directory to create.
#[derive(Debug, Clone, PartialEq, Eq)]
pub struct WriteOperation {
    /// Target path.
    pub path: String,
    /// File content, or `None` for a directory.
    pub content: Option<String>,
}

/// The view of a write operation: its path and optional content.
pub struct WriteOpView {
    pub path: Seq<char>,
    pub content: Option<Seq<char>>,
}

impl View for WriteOperation {
    type V = WriteOpView;

    open spec fn view(&self) -> WriteOpView {
        WriteOpView {
            path: self.path@,
            content: match self.content {
                Some(c) => Some(c@),
                None => None,
            },
        }
    }
}

/// A file operation's view.
pub open spec fn file_op(path: Seq<char>, content: Seq<char>) -> WriteOpView {
    WriteOpView { path, content: Some(content) }
}

/// A directory operation's view.
pub open spec fn dir_op(path: Seq<char>) -> WriteOpView {
    WriteOpView { path, content: None }
}

impl WriteOperation {
    /// Writes `content` to the file at `path`.
    pub fn file(path: String, content: String) -> (op: Self)
        ensures
            op@ == file_op(path@, content@),
    {
        WriteOperation { path, content: Some(content) }
    }

    /// Creates the directory at `path`.
    pub fn directory(path: String) -> (op: Self)
        ensures
            op@ == dir_op(path@),
    {
        WriteOperation { path, content: None }
    }

    /// Whether this operation writes a file.
    pub fn is_file(&self) -> (b: bool)
        ensures
            b == self.content.is_some(),
    {
        self.content.is_some()
    }
}

/// Ordered file-system operations of one generation.
#[derive(Debug, Clone, PartialEq, Eq)]
pub struct WritePlan {
    /// Operations, in the order they are applied.
    pub operations: Vec<WriteOperation>,
}

/// The views of a plan's operations.
pub open spec fn ops_view(ops: Seq<WriteOperation>) -> Seq<WriteOpView> {
    ops.map_values(|op: WriteOperation| op@)
}

impl View for WritePlan {
    type V = Seq<WriteOpView>;

    open spec fn view(&self) -> Seq<WriteOpView> {
        ops_view(self.operations@)
    }
}

impl Default for WritePlan {
    fn default() -> (p: Self)
        ensures
            p@ == Seq::<WriteOpView>::empty(),
    {
        let p = WritePlan { operations: Vec::new() };
        assert(p@ =~= Seq::<WriteOpView>::empty());
        p
    }
}

impl WritePlan {
    /// Appends an operation.
    pub fn push(&mut self, op: WriteOperation)
        ensures
            final(self)@ == old(self)@.push(op@),
    {
        self.operations.push(op);
        assert(self@ =~= old(self)@.push(op@));
    }
}

} // verus!
