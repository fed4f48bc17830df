use vstd::prelude::*;
use std::path::PathBuf;

verus! {

#[verifier::external_type_specification]
#[verifier::external_body]
pub struct ExPathBuf(PathBuf);

/// Relies on std::path::Path::is_dir: queries the filesystem, so nothing
/// is promised of the result.
#[verifier::external_body]
fn filesystem_is_dir(path: &PathBuf) -> bool {
    path.is_dir()
}

/// Relies on std::path::Path::is_file: queries the filesystem, so nothing
/// is promised of the result.
#[verifier::external_body]
fn filesystem_is_file(path: &PathBuf) -> bool {
    path.is_file()
}

/// Relies on std::path::Path::join: appends one component to a path. The
/// resulting path is carried opaquely, so nothing is stated of it.
#[verifier::external_body]
fn path_child(path: &PathBuf, name: &str) -> PathBuf {
    path.join(name)
}

/// The environment-acceptance rule on the two marker probes: a directory
/// is a valid run target exactly when the marker subdirectory is present
/// or the marker file inside it is.
pub fn environment_accepted(marker_dir_present: bool, marker_file_present: bool) -> (r: bool)
    ensures
        r == (marker_dir_present || marker_file_present),
{
    marker_dir_present || marker_file_present
}

/// Whether the path names an existing directory or file. The answer comes
/// from the filesystem and is not pinned by a contract.
pub fn path_exists(path: &PathBuf) -> bool {
    filesystem_is_dir(path) || filesystem_is_file(path)
}

/// The environment validity heuristic: the target directory is accepted
/// when it holds a `world` subdirectory, or a `world/level.dat` marker
/// file. Probing stops at the first marker found, so an accepted directory
/// is probed no further.
pub fn is_likely_minecraft_directory(path: &PathBuf) -> bool {
    let world_dir = path_child(path, "world");
    if path_exists(&world_dir) {
        environment_accepted(true, false)
    } else {
        let marker_file = path_child(&world_dir, "level.dat");
        environment_accepted(false, path_exists(&marker_file))
    }
}

} // verus!
