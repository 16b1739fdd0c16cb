//! Where collection seed files are looked for.

use vstd::prelude::*;

use crate::config::{Config, DEFAULT_COLLECTIONS_FOLDER, DEFAULT_FOLDER};
use crate::generator::paths::{join_segment, join_segment_into};
use crate::file_types::{file_stem, path_file_stem};
use crate::text::{chars_of, push_str, string_of, trim, trimmed};

verus! {

/// Collection loading settings with the defaults applied.
#[derive(Debug, Clone)]
pub struct ResolvedCollectionsConfig {
    /// Folder of collection seed files.
    pub folder: String,
}

/// `Path::join`: an absolute path replaces the base, a relative one is appended.
pub open spec fn path_join(base: Seq<char>, rel: Seq<char>) -> Seq<char> {
    if rel.len() > 0 && rel[0] == '/' {
        rel
    } else {
        join_segment(base, rel)
    }
}

/// The collection folder of a configuration: the configured folder (default
/// `{collections}`) under the mock root (default `mocks`), unless it is absolute.
pub open spec fn collections_folder(config: Config) -> Seq<char> {
    let root = match config.server {
        Some(server) => match server.folder {
            Some(folder) => folder@,
            None => DEFAULT_FOLDER@,
        },
        None => DEFAULT_FOLDER@,
    };
    let folder = match config.collections {
        Some(collections) => match collections.folder {
            Some(folder) => folder@,
            None => DEFAULT_COLLECTIONS_FOLDER@,
        },
        None => DEFAULT_COLLECTIONS_FOLDER@,
    };
    path_join(root, folder)
}

/// `Path::join` over strings.
pub fn join_path(base: &str, rel: &str) -> (s: String)
    ensures
        s@ == path_join(base@, rel@),
{
    let r = chars_of(rel);
    if r.len() > 0 && r[0] == '/' {
        return string_of(&r);
    }
    let mut b = chars_of(base);
    join_segment_into(&mut b, &r);
    string_of(&b)
}

/// Resolves the collection folder against the configured mock root.
pub fn resolve_collections_config(config: &Config) -> (r: ResolvedCollectionsConfig)
    ensures
        r.folder@ == collections_folder(*config),
{
    let root = config.get_folder();
    let folder = match &config.collections {
        Some(collections) => match &collections.folder {
            Some(folder) => folder.clone(),
            None => DEFAULT_COLLECTIONS_FOLDER.to_string(),
        },
        None => DEFAULT_COLLECTIONS_FOLDER.to_string(),
    };
    ResolvedCollectionsConfig { folder: join_path(root.as_str(), folder.as_str()) }
}


/// The collection a seed file fills: the file's stem, which must not be blank.
pub open spec fn collection_name_of(path: Seq<char>) -> Option<Seq<char>> {
    match path_file_stem(path) {
        Some(stem) => if trim(stem).len() > 0 {
            Some(stem)
        } else {
            None
        },
        None => None,
    }
}

/// The collection a seed file fills, or an error that names the file.
pub fn collection_name_from_path(path: &str) -> (r: Result<String, String>)
    ensures
        match collection_name_of(path@) {
            Some(name) => r matches Ok(n) && n@ == name,
            None => r matches Err(msg) && msg@ == "Invalid collection file name: "@ + path@,
        },
{
    match file_stem(path) {
        Some(stem) => {
            if trimmed(stem.as_str()).len() > 0 {
                return Ok(stem);
            }
        },
        None => {},
    }
    let mut msg = chars_of("Invalid collection file name: ");
    push_str(&mut msg, path);
    Err(string_of(&msg))
}

} // verus!
