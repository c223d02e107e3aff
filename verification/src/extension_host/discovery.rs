//! Extensions found on disk and the directories searched for them.

use vstd::prelude::*;
use crate::extension_host::manifest::SuperExtensionManifest;
use crate::text::{join_path, join_path_spec};

verus! {

/// An extension found in one of the search directories.
#[derive(Debug)]
pub struct DiscoveredExtension {
    pub manifest: SuperExtensionManifest,
    pub root: String,
    pub manifest_path: String,
}

/// The directories, relative to the home directory, that hold installed
/// extensions.
pub open spec fn home_extension_dirs_spec() -> Seq<Seq<char>> {
    seq![
        ".super-ide/extensions"@,
        ".config/super-ide/extensions"@,
        ".local/share/super-ide/extensions"@,
    ]
}

/// The directories to search for a workspace, in order: the workspace's own
/// `.super-ide/extensions`, then each directory of `home_extension_dirs_spec`
/// under the home directory when there is one. Which of them exist is for the
/// caller to check.
pub open spec fn workspace_extension_dirs_spec(root: Seq<char>, home: Option<Seq<char>>) -> Seq<
    Seq<char>,
> {
    let local = join_path_spec(join_path_spec(root, ".super-ide"@), "extensions"@);
    match home {
        Some(h) => seq![local].add(
            home_extension_dirs_spec().map_values(|d: Seq<char>| join_path_spec(h, d)),
        ),
        None => seq![local],
    }
}

/// The candidate extension directories of a workspace (see
/// `workspace_extension_dirs_spec`).
pub fn workspace_extension_dirs(workspace_root: &str, home: Option<&str>) -> (r: Vec<String>)
    ensures
        r@.map_values(|s: String| s@) == workspace_extension_dirs_spec(
            workspace_root@,
            match home {
                Some(h) => Some(h@),
                None => None,
            },
        ),
{
    let mut dirs: Vec<String> = Vec::new();
    let base = join_path(workspace_root, ".super-ide");
    let local = join_path(base.as_str(), "extensions");
    dirs.push(local);
    match home {
        Some(h) => {
            let d0 = join_path(h, ".super-ide/extensions");
            let d1 = join_path(h, ".config/super-ide/extensions");
            let d2 = join_path(h, ".local/share/super-ide/extensions");
            dirs.push(d0);
            dirs.push(d1);
            dirs.push(d2);
            proof {
                let hs = home_extension_dirs_spec().map_values(
                    |d: Seq<char>| join_path_spec(h@, d),
                );
                assert(hs[0] == join_path_spec(h@, ".super-ide/extensions"@));
                assert(hs[1] == join_path_spec(h@, ".config/super-ide/extensions"@));
                assert(hs[2] == join_path_spec(h@, ".local/share/super-ide/extensions"@));
                assert(dirs@.map_values(|s: String| s@) =~= workspace_extension_dirs_spec(
                    workspace_root@,
                    Some(h@),
                ));
            }
        },
        None => {
            assert(dirs@.map_values(|s: String| s@) =~= workspace_extension_dirs_spec(
                workspace_root@,
                None,
            ));
        },
    }
    dirs
}

} // verus!
