//! What a server session does with file-system events and with its CORS
//! settings.

use vstd::prelude::*;

use crate::build_dyn_routes::{in_upload_folder, is_upload_folder};
use crate::config::ServerConfig;

verus! {

/// Kind of a file-system event.
#[derive(Debug, Clone, Copy, PartialEq, Eq, Structural)]
pub enum FsEventKind {
    /// A file or folder was created.
    Create,
    /// A file or folder was modified.
    Modify,
    /// A file or folder was removed.
    Remove,
    /// Any other event (access, metadata only).
    Other,
}

/// A path an event touches, and whether it is a folder.
#[derive(Debug, Clone)]
pub struct ChangedPath {
    /// The path.
    pub path: String,
    /// Whether it is a folder.
    pub is_dir: bool,
}

/// Least time between two restarts, in milliseconds.
pub const DEBOUNCE_MILLIS: u128 = 300;

/// Whether some path is a file inside an upload folder: uploads change
/// files there without any route changing.
pub open spec fn touches_upload_file(paths: Seq<ChangedPath>) -> bool {
    exists|i: int| 0 <= i < paths.len() && in_upload_folder(paths[i].path@) && !paths[i].is_dir
}

/// An event restarts the server when it creates, modifies or removes
/// something, touches no file inside an upload folder, and comes at least
/// [`DEBOUNCE_MILLIS`] after the previous restart.
pub open spec fn restarts(kind: FsEventKind, paths: Seq<ChangedPath>, since_last_millis: u128) -> bool {
    kind != FsEventKind::Other && !touches_upload_file(paths) && since_last_millis >= DEBOUNCE_MILLIS
}

/// Whether an event restarts the server; `since_last_millis` is the time
/// since the previous restart (whole milliseconds).
pub fn should_restart(kind: FsEventKind, paths: &Vec<ChangedPath>, since_last_millis: u128) -> (r: bool)
    ensures
        r == restarts(kind, paths@, since_last_millis),
{
    if kind == FsEventKind::Other {
        return false;
    }
    let mut i: usize = 0;
    while i < paths.len()
        invariant
            i <= paths.len(),
            forall|k: int| 0 <= k < i ==> !(in_upload_folder(paths@[k].path@) && !paths@[k].is_dir),
        decreases paths.len() - i,
    {
        if is_upload_folder(paths[i].path.as_str()) && !paths[i].is_dir {
            return false;
        }
        i += 1;
    }
    since_last_millis >= DEBOUNCE_MILLIS
}

/// The CORS layer of the server.
#[derive(Debug, Clone, PartialEq, Eq)]
pub enum CorsPolicy {
    /// No CORS layer.
    Disabled,
    /// A permissive layer that allows any origin.
    AnyOrigin,
    /// A permissive layer that allows one origin.
    Origin(String),
}

/// The CORS layer a server configuration asks for: enabled unless
/// `enable_cors` is `false`, restricted to `allowed_origin` when it is set.
pub fn cors_policy(server: &Option<ServerConfig>) -> (p: CorsPolicy)
    ensures
        match server {
            Some(s) => match s.enable_cors {
                Some(false) => p == CorsPolicy::Disabled,
                _ => match s.allowed_origin {
                    Some(o) => p matches CorsPolicy::Origin(x) && x@ == o@,
                    None => p == CorsPolicy::AnyOrigin,
                },
            },
            None => p == CorsPolicy::AnyOrigin,
        },
{
    match server {
        Some(s) => {
            if s.enable_cors == Some(false) {
                CorsPolicy::Disabled
            } else {
                match &s.allowed_origin {
                    Some(o) => CorsPolicy::Origin(o.clone()),
                    None => CorsPolicy::AnyOrigin,
                }
            }
        },
        None => CorsPolicy::AnyOrigin,
    }
}

} // verus!
