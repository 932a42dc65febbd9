//! The plugin value that the plugin host drives.

use vstd::prelude::*;

verus! {

#[derive(Clone, Copy, Debug, Default)]
pub struct Plugin;

impl Plugin {
    pub fn new() -> (r: Self) {
        Plugin
    }
}

} // verus!
