//! Generation of C++ project skeletons from a declarative description of
//! folders and files, with the user's names substituted into paths and
//! file contents.

pub mod cpp_new;
pub mod cpp_proj_gen;
pub mod decimal;
pub mod error;
pub mod json;
pub mod materialize;
pub mod naming;
pub mod paths;
pub mod project_gen;
pub mod render;
pub mod templates;
pub mod text;
pub mod vars;

use vstd::prelude::*;

verus! {

/// The directories that every generated project has below its root.
pub enum RootDir {
    External,
    Include,
    Source,
    Test,
}

impl RootDir {
    /// The directory's name as a sequence of characters.
    pub open spec fn name(self) -> Seq<char> {
        match self {
            RootDir::External => "external"@,
            RootDir::Include => "include"@,
            RootDir::Source => "source"@,
            RootDir::Test => "test"@,
        }
    }

    /// The directory's name.
    pub fn to_string(&self) -> (text: &'static str)
        ensures
            text@ == self.name(),
    {
        match self {
            RootDir::External => "external",
            RootDir::Include => "include",
            RootDir::Source => "source",
            RootDir::Test => "test",
        }
    }
}

} // verus!
