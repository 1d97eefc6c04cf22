//! Resolution of the target mount point of each shared-directory kind.
//!
//! The target is a pure function of the directory kind, the application
//! name (for per-application directories) and the active home directory;
//! nothing else enters into it.

use vstd::prelude::*;
use crate::message::{DirKind, DirSpec};

verus! {

/// The fallback home directory used when the environment names none.
pub fn default_home() -> (r: String)
    ensures
        r@ == "/home/flatkvm"@,
{
    String::from_str("/home/flatkvm")
}

/// The target mount point of a shared directory of kind `kind`, for the
/// application `app_name` (read only for `AppDir`) and home directory
/// `home`.
pub open spec fn target_path_spec(kind: DirKind, app_name: Seq<char>, home: Seq<char>) -> Seq<char> {
    match kind {
        DirKind::SystemDir => "/var/lib/flatpak"@,
        DirKind::UserDir => home + "/.local/share/flatpak"@,
        DirKind::AppDir => home + "/.var/app/"@ + app_name,
        DirKind::PublicDir => home + "/Public"@,
        DirKind::DownloadDir => home + "/Downloads"@,
    }
}

/// Whether mounting a directory of kind `kind` first creates the target
/// directory: every target below the home directory is created if
/// absent; the system-wide path is expected to exist.
pub open spec fn creates_target_spec(kind: DirKind) -> bool {
    !(kind is SystemDir)
}

/// Resolve the target mount point of `dir` under `home`.
pub fn resolve_target(dir: &DirSpec, home: &str) -> (r: String)
    ensures
        r@ == target_path_spec(dir.kind, dir.app_name@, home@),
{
    match dir.kind {
        DirKind::SystemDir => String::from_str("/var/lib/flatpak"),
        DirKind::UserDir => {
            let mut s = String::from_str(home);
            s.append("/.local/share/flatpak");
            s
        }
        DirKind::AppDir => {
            let mut s = String::from_str(home);
            s.append("/.var/app/");
            s.append(dir.app_name.as_str());
            s
        }
        DirKind::PublicDir => {
            let mut s = String::from_str(home);
            s.append("/Public");
            s
        }
        DirKind::DownloadDir => {
            let mut s = String::from_str(home);
            s.append("/Downloads");
            s
        }
    }
}

/// Whether mounting a directory of kind `kind` first creates the target.
pub fn creates_target(kind: DirKind) -> (r: bool)
    ensures
        r == creates_target_spec(kind),
{
    match kind {
        DirKind::SystemDir => false,
        _ => true,
    }
}

/// Resolving a target twice with identical inputs yields the identical
/// path: the result depends on the kind, the application name and the
/// home directory alone.
pub proof fn lemma_target_path_deterministic(
    kind1: DirKind,
    app1: Seq<char>,
    home1: Seq<char>,
    kind2: DirKind,
    app2: Seq<char>,
    home2: Seq<char>,
)
    requires
        kind1 == kind2,
        app1 == app2,
        home1 == home2,
    ensures
        target_path_spec(kind1, app1, home1) == target_path_spec(kind2, app2, home2),
{
}

} // verus!
