//! The directories of a generated project, tagged by their role.

use super::cmake_file_gen;
use super::cpp_file_gen;
use super::directory_gen::{DirName, DirNameView, DirectoryGen, DirectoryGenView};
use vstd::prelude::*;

verus! {

/// A directory of the project by role, with its path.
#[derive(Debug)]
pub enum DirPath {
    Root { path: String },
    HeaderInclude { path: String },
    Source { path: String },
    Test { path: String },
    External { path: String },
}

/// What a [`DirPath`] holds.
pub enum DirPathView {
    Root { path: Seq<char> },
    HeaderInclude { path: Seq<char> },
    Source { path: Seq<char> },
    Test { path: Seq<char> },
    External { path: Seq<char> },
}

impl View for DirPath {
    type V = DirPathView;

    open spec fn view(&self) -> DirPathView {
        match *self {
            DirPath::Root { path } => DirPathView::Root { path: path@ },
            DirPath::HeaderInclude { path } => DirPathView::HeaderInclude { path: path@ },
            DirPath::Source { path } => DirPathView::Source { path: path@ },
            DirPath::Test { path } => DirPathView::Test { path: path@ },
            DirPath::External { path } => DirPathView::External { path: path@ },
        }
    }
}

impl Clone for DirPath {
    fn clone(&self) -> (copy: Self)
        ensures
            copy@ == self@,
    {
        match self {
            DirPath::Root { path } => DirPath::Root { path: path.clone() },
            DirPath::HeaderInclude { path } => DirPath::HeaderInclude { path: path.clone() },
            DirPath::Source { path } => DirPath::Source { path: path.clone() },
            DirPath::Test { path } => DirPath::Test { path: path.clone() },
            DirPath::External { path } => DirPath::External { path: path.clone() },
        }
    }
}

impl DirPath {
    /// The directory's path, whatever its role.
    pub fn path(&self) -> (path: &String)
        ensures
            path@ == self@.path(),
    {
        match self {
            DirPath::Root { path } => path,
            DirPath::HeaderInclude { path } => path,
            DirPath::Source { path } => path,
            DirPath::Test { path } => path,
            DirPath::External { path } => path,
        }
    }
}

impl DirPathView {
    /// The directory's path, whatever its role.
    pub open spec fn path(self) -> Seq<char> {
        match self {
            DirPathView::Root { path } => path,
            DirPathView::HeaderInclude { path } => path,
            DirPathView::Source { path } => path,
            DirPathView::Test { path } => path,
            DirPathView::External { path } => path,
        }
    }
}

/// The views of `dirs`, in order.
pub open spec fn dir_paths_view(dirs: Seq<DirPath>) -> Seq<DirPathView> {
    dirs.map_values(|dir: DirPath| dir@)
}

/// The top-level directories of every project, by role.
pub open spec fn standard_dirs() -> Seq<DirNameView> {
    seq![
        DirNameView::Include { name: "include"@ },
        DirNameView::Source { name: "source"@ },
        DirNameView::Test { name: "test"@ },
        DirNameView::External { name: "external"@ },
    ]
}

/// All that a project consists of.
#[derive(Debug)]
pub struct ProjectPlan {
    /// The directories, the root first.
    pub dirs: Vec<DirPath>,
    /// The header and the source file.
    pub files: Vec<cpp_file_gen::File>,
    /// The build file.
    pub cmake_file: cmake_file_gen::File,
}

/// The texts from which the files of a project are made.
pub struct ProjectTemplates<'a> {
    pub header: &'a str,
    pub source: &'a str,
    pub cmake_lists: &'a str,
}

/// Plans the project of `target_name` in `domain_name` below `out_dir`,
/// with the standard top-level directories: its directories, its first
/// header and source file, and its build file. Nothing is created.
pub fn gen_project_dry(
    domain_name: String,
    target_name: String,
    out_dir: String,
    templates: ProjectTemplates,
) -> (plan: ProjectPlan)
    ensures
        dir_paths_view(plan.dirs@) == (DirectoryGenView {
            out_dir: out_dir@,
            target_name: target_name@,
            domain_name: domain_name@,
            toplevel_dir_names: standard_dirs(),
        }).dirs(),
        cpp_file_gen::files_view(plan.files@) == (cpp_file_gen::FileGenView {
            domain_name: domain_name@,
            target_name: target_name@,
            dirs: dir_paths_view(plan.dirs@),
            header_template: templates.header@,
            source_template: templates.source@,
        }).files(),
        plan.cmake_file@ == (cmake_file_gen::FileGenView {
            out_dir: out_dir@,
            target_name: target_name@,
            domain_name: domain_name@,
            top_level_dir_names: standard_dirs(),
            template: templates.cmake_lists@,
        }).file(),
{
    let dir_gen = DirectoryGen::new().add_toplevel_dir(
        &DirName::Include { name: "include".to_owned() },
    ).add_toplevel_dir(&DirName::Source { name: "source".to_owned() }).add_toplevel_dir(
        &DirName::Test { name: "test".to_owned() },
    ).add_toplevel_dir(&DirName::External { name: "external".to_owned() }).set_domain_name(
        &domain_name,
    ).set_target_name(&target_name).set_out_dir(out_dir.as_str());
    assert(dir_gen@.toplevel_dir_names =~= standard_dirs());
    let dirs = dir_gen.create_dirs_dry();
    let files = cpp_file_gen::FileGen::new().set_dirs(&dirs).set_domain_name(
        &domain_name,
    ).set_target_name(&target_name).set_templates(
        templates.header,
        templates.source,
    ).create_files_dry();
    let mut cmake_gen = cmake_file_gen::FileGen::new().set_out_dir(out_dir.as_str()).set_domain_name(
        &domain_name,
    ).set_target_name(&target_name).set_dir_names(&dir_gen.toplevel_dir_names()).set_template(
        templates.cmake_lists,
    );
    let cmake_file = cmake_gen.create_file_dry();
    ProjectPlan { dirs, files, cmake_file }
}

} // verus!
