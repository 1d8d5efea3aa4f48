//! Options for initialising the connection to the external interface.

use vstd::prelude::*;

verus! {

/// Options for customizing the way the client binding is initialised.
#[derive(Clone, Debug)]
pub struct InitOptions {
    rlbot_dll_directory: Option<String>,
}

impl InitOptions {
    /// The directory this options value selects, if any.
    pub closed spec fn directory_spec(&self) -> Option<String> {
        self.rlbot_dll_directory
    }

    /// Constructs options that select no directory: the system's standard
    /// library search order will be used.
    pub fn new() -> (r: Self)
        ensures
            r.directory_spec() is None,
    {
        InitOptions { rlbot_dll_directory: None }
    }

    /// Sets the directory in which to search for the core interface library
    /// and the injector.
    pub fn rlbot_dll_directory(self, rlbot_dll_directory: String) -> (r: Self)
        ensures
            r.directory_spec() == Some(rlbot_dll_directory),
    {
        InitOptions { rlbot_dll_directory: Some(rlbot_dll_directory) }
    }

    /// Reads back the selected directory.
    pub fn directory(&self) -> (r: &Option<String>)
        ensures
            *r == self.directory_spec(),
    {
        &self.rlbot_dll_directory
    }
}

impl Default for InitOptions {
    /// The same as [`InitOptions::new`]: no directory selected.
    fn default() -> (r: Self)
        ensures
            r.directory_spec() is None,
    {
        InitOptions::new()
    }
}

} // verus!
