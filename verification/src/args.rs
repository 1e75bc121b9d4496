//! CLI arguments only available to dev builds of this game.

use vstd::prelude::*;

verus! {

/// Developer flags, parsed from the command line by the binary.
#[derive(Clone, Copy, Debug, PartialEq, Eq, Hash, Structural)]
pub struct DevArgs {
    /// Enable wireframes on meshes.
    pub wireframe: bool,
}

impl Default for DevArgs {
    /// Every developer flag starts switched off.
    fn default() -> (r: DevArgs)
        ensures
            r.wireframe == false,
    {
        DevArgs { wireframe: false }
    }
}

} // verus!
