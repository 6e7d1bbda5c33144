use vstd::prelude::*;

use path_absolutize::Absolutize;

use crate::http::opt_view;
use crate::permissions::{
    starts_with, ConsentProvider, Permission, PermissionError, Permissions,
};

verus! {

/// Why a file system operation may not go ahead.
#[derive(Debug, Clone, PartialEq, Eq)]
pub enum FsAccessError {
    /// The path could not be made absolute; no permission was asked for.
    InvalidPath,
    /// The path's permission was refused.
    Denied(PermissionError),
}

/// `path` made absolute against the directory `cwd`, as the path crate
/// computes it on Unix (the parts of `cwd` are taken as they stand; the `.`
/// and `..` parts of `path` are applied to them); `None` where it fails.
pub uninterp spec fn absolute_of(path: Seq<char>, cwd: Seq<char>) -> Option<Seq<char>>;

/// Relies on `path_absolutize::Absolutize::absolutize_from`: `path` made
/// absolute against `cwd`, which depends on these two alone. With a relative
/// `cwd` the crate can run out of path components and panic, hence the
/// `requires`; on Unix it never returns an error.
#[verifier::external_body]
fn absolute_path(path: &str, cwd: &str) -> (r: Option<String>)
    requires
        "/"@.is_prefix_of(cwd@),
    ensures
        opt_view(r) == absolute_of(path@, cwd@),
        r is Some,
{
    std::path::Path::new(path).absolutize_from(cwd).ok().map(|a| a.display().to_string())
}

/// The absolute path an operation on `path` acts on, seen from the working
/// directory `cwd`; `None` when `cwd` is not absolute.
pub open spec fn fs_target(path: Seq<char>, cwd: Seq<char>) -> Option<Seq<char>> {
    if "/"@.is_prefix_of(cwd) {
        absolute_of(path, cwd)
    } else {
        None
    }
}

/// The permission an operation on `path` needs, seen from the working
/// directory `cwd`: that of the absolute path.
pub fn fs_permission(path: &str, cwd: &str) -> (r: Result<Permission, FsAccessError>)
    ensures
        match r {
            Ok(Permission::Fs(a)) => fs_target(path@, cwd@) == Some(a@),
            Ok(_) => false,
            Err(e) => e == FsAccessError::InvalidPath && fs_target(path@, cwd@) is None,
        },
        r is Ok <==> "/"@.is_prefix_of(cwd@),
{
    if !starts_with(cwd, "/") {
        return Err(FsAccessError::InvalidPath);
    }
    match absolute_path(path, cwd) {
        None => Err(FsAccessError::InvalidPath),
        Some(a) => Ok(Permission::Fs(a)),
    }
}

/// The check that a file system operation on `path` makes before it
/// touches anything: the path is made absolute against `cwd`, and access to
/// the absolute path is checked against `store`. On success the absolute
/// path is returned, and it is the path the operation must use.
pub fn authorize_path<C: ConsentProvider>(
    store: &mut Permissions,
    consent: &mut C,
    path: &str,
    cwd: &str,
) -> (r: Result<String, FsAccessError>)
    requires
        old(store).consistent(),
    ensures
        final(store).consistent(),
        r == Err::<String, FsAccessError>(FsAccessError::InvalidPath) <==> !"/"@.is_prefix_of(
            cwd@,
        ),
        match fs_target(path@, cwd@) {
            None => r == Err::<String, FsAccessError>(FsAccessError::InvalidPath) && *final(store)
                == *old(store) && *final(consent) == *old(consent),
            Some(t) => exists|p: Permission, a: Result<(), PermissionError>|
                p is Fs && p->Fs_0@ == t && Permissions::access_post(
                    *old(store),
                    p,
                    a,
                    *final(store),
                ) && (old(store).decision(p) is Some ==> *final(consent) == *old(consent))
                && match a {
                    Ok(()) => r is Ok && r->Ok_0@ == t,
                    Err(e) => r == Err::<String, FsAccessError>(FsAccessError::Denied(e)),
                },
        },
{
    match fs_permission(path, cwd) {
        Err(e) => Err(e),
        Ok(p) => {
            let a = store.ask_for_access(&p, consent);
            match a {
                Ok(()) => match p {
                    Permission::Fs(s) => Ok(s),
                    _ => Err(FsAccessError::InvalidPath),
                },
                Err(e) => Err(FsAccessError::Denied(e)),
            }
        },
    }
}

} // verus!
