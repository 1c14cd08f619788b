//! The single-library generator: a handful of directories and one
//! `CMakeLists.txt`, written from a fixed text.

use crate::paths::{
    collect_two,
    ends_with,
    join,
    path_ends_with,
    path_join,
    path_of_two,
    texts,
};
use crate::vars::{VarSeq, Variables, inserted, substituted};
use vstd::prelude::*;

verus! {

/// The text of the generated `CMakeLists.txt`, before substitution.
pub const CMAKELISTS_FILE_STR: &'static str = "
    cmake_minimum_required(VERSION @CMAKE_MINIMUM_VERSION@)

    project(@CMAKE_PROJECT_NAME@)

    add_library(@CMAKE_TARGET_NAME@ STATIC
        # @INCLUDE_DIR@/@INCLUDE_DOMAIN_DIR@/@CMAKE_TARGET_NAME@.h
        # @SOURCE_DIR@/@CMAKE_TARGET_NAME@.cpp
    )

    target_include_directories(@CMAKE_TARGET_NAME@
        PUBLIC
            ${CMAKE_CURRENT_LIST_DIR}/@INCLUDE_DIR@
        PRIVATE
            ${CMAKE_CURRENT_LIST_DIR}/@SOURCE_DIR@
    )
";

/// The name of the generated build file.
pub const CMAKELISTS_FILENAME: &'static str = "CMakeLists.txt";

/// What the user asks for.
#[derive(Debug)]
pub struct Opt {
    /// The name space of the project, such as a company's name.
    pub name_space: Option<String>,
    /// The name of the target.
    pub target_name: String,
    /// The least version of CMake that the project asks for.
    pub cmake_version: String,
    /// The directory below which the project is generated; the current
    /// directory if there is none.
    pub output_dir: Option<String>,
}

/// What an [`Opt`] holds.
pub struct OptView {
    pub name_space: Option<Seq<char>>,
    pub target_name: Seq<char>,
    pub cmake_version: Seq<char>,
    pub output_dir: Option<Seq<char>>,
}

impl View for Opt {
    type V = OptView;

    open spec fn view(&self) -> OptView {
        OptView {
            name_space: match self.name_space {
                Some(name) => Some(name@),
                None => None,
            },
            target_name: self.target_name@,
            cmake_version: self.cmake_version@,
            output_dir: match self.output_dir {
                Some(dir) => Some(dir@),
                None => None,
            },
        }
    }
}

impl OptView {
    /// The project's name: the target's name, behind the name space and
    /// `delimiter` where there is a name space.
    pub open spec fn project_name(self, delimiter: Seq<char>) -> Seq<char> {
        match self.name_space {
            Some(name_space) => name_space + delimiter + self.target_name,
            None => self.target_name,
        }
    }

    /// The directory of the target's headers below the include directory
    /// `dir`.
    pub open spec fn local_include_dir(self, dir: Seq<char>) -> Seq<char> {
        match self.name_space {
            Some(name_space) => path_join(path_of_two(dir, name_space), self.target_name),
            None => path_of_two(dir, self.target_name),
        }
    }

    /// The project's root: the target's own directory below the output
    /// directory, or below `current_dir` where no output directory is given.
    pub open spec fn out_dir(self, current_dir: Seq<char>) -> Seq<char> {
        match self.output_dir {
            Some(dir) => path_of_two(dir, self.target_name),
            None => path_of_two(current_dir, self.target_name),
        }
    }

    /// The variables that are known from the options alone.
    pub open spec fn vars(self) -> VarSeq {
        inserted(
            inserted(
                inserted(
                    inserted(VarSeq::empty(), "@CMAKE_MINIMUM_VERSION@"@, self.cmake_version),
                    "@CMAKE_TARGET_NAME@"@,
                    self.target_name,
                ),
                "@CMAKE_PROJECT_NAME@"@,
                self.project_name("-"@),
            ),
            "@INCLUDE_DOMAIN_DIR@"@,
            self.project_name("/"@),
        )
    }
}

/// Something to create on disk.
#[derive(Debug)]
pub enum Creation {
    /// A directory, with every missing directory above it.
    Directory { path: String },
    /// A file with the given contents.
    File { path: String, contents: String },
}

/// What a [`Creation`] holds.
pub enum CreationView {
    Directory { path: Seq<char> },
    File { path: Seq<char>, contents: Seq<char> },
}

impl View for Creation {
    type V = CreationView;

    open spec fn view(&self) -> CreationView {
        match *self {
            Creation::Directory { path } => CreationView::Directory { path: path@ },
            Creation::File { path, contents } => CreationView::File {
                path: path@,
                contents: contents@,
            },
        }
    }
}

/// The views of `creations`, in order.
pub open spec fn creations_view(creations: Seq<Creation>) -> Seq<CreationView> {
    creations.map_values(|creation: Creation| creation@)
}

/// What is created at `path`: the build file, with `contents`, where the
/// path is that of the build file; a directory otherwise.
pub open spec fn creation_of(path: Seq<char>, contents: Seq<char>, is_build_file: bool) -> CreationView {
    if is_build_file {
        CreationView::File { path, contents }
    } else {
        CreationView::Directory { path }
    }
}

/// What is created at `path`: the build file, with `contents`, where the
/// path ends in its name; a directory otherwise.
pub open spec fn creation_at(path: Seq<char>, contents: Seq<char>) -> CreationView {
    creation_of(path, contents, path_ends_with(path, CMAKELISTS_FILENAME@))
}

impl Creation {
    /// What is created at `path`, given whether the path is that of the
    /// build file.
    pub fn of(path: String, contents: &String, is_build_file: bool) -> (creation: Creation)
        ensures
            creation@ == creation_of(path@, contents@, is_build_file),
    {
        if is_build_file {
            Creation::File { path, contents: contents.clone() }
        } else {
            Creation::Directory { path }
        }
    }
}

/// Plans a project of one library.
#[derive(Debug)]
pub struct CppProjGen {
    directories: Vec<String>,
    cmake_lists_file: String,
    cmake_vars: Variables,
    opt: Opt,
    out_dir: String,
}

/// What a [`CppProjGen`] holds.
pub struct CppProjGenView {
    pub directories: Seq<Seq<char>>,
    pub cmake_lists_file: Seq<char>,
    pub cmake_vars: VarSeq,
    pub opt: OptView,
    pub out_dir: Seq<char>,
}

impl View for CppProjGen {
    type V = CppProjGenView;

    closed spec fn view(&self) -> CppProjGenView {
        CppProjGenView {
            directories: texts(self.directories@),
            cmake_lists_file: self.cmake_lists_file@,
            cmake_vars: self.cmake_vars@,
            opt: self.opt@,
            out_dir: self.out_dir@,
        }
    }
}

impl CppProjGenView {
    /// The paths of the project: each directory below the root, in the order
    /// in which the directories were added, then the build file.
    pub open spec fn paths(self) -> Seq<Seq<char>> {
        self.directories.map_values(|dir: Seq<char>| path_of_two(self.out_dir, dir)).push(
            path_of_two(self.out_dir, self.cmake_lists_file),
        )
    }

    /// The contents of the build file.
    pub open spec fn contents(self) -> Seq<char> {
        substituted(CMAKELISTS_FILE_STR@, self.cmake_vars)
    }

    /// What to create, in the order of the paths.
    pub open spec fn creations(self) -> Seq<CreationView> {
        self.paths().map_values(|path: Seq<char>| creation_at(path, self.contents()))
    }
}

impl CppProjGen {
    /// What holds of every generator: its variables have distinct names,
    /// none of them empty, and its build file is called `CMakeLists.txt`.
    pub closed spec fn wf(&self) -> bool {
        self.cmake_vars.wf() && self.cmake_lists_file@ == CMAKELISTS_FILENAME@
    }

    /// A generator for the project that `opt` describes, with no directory
    /// yet. `current_dir` is the directory below which the project goes where
    /// `opt` names none.
    pub fn new(opt: Opt, current_dir: &str) -> (gen: CppProjGen)
        ensures
            gen.wf(),
            gen@ == (CppProjGenView {
                directories: Seq::empty(),
                cmake_lists_file: CMAKELISTS_FILENAME@,
                cmake_vars: opt@.vars(),
                opt: opt@,
                out_dir: opt@.out_dir(current_dir@),
            }),
    {
        proof {
            reveal_strlit("@CMAKE_MINIMUM_VERSION@");
            reveal_strlit("@CMAKE_TARGET_NAME@");
            reveal_strlit("@CMAKE_PROJECT_NAME@");
            reveal_strlit("@INCLUDE_DOMAIN_DIR@");
        }
        let mut vars = Variables::new();
        vars.insert("@CMAKE_MINIMUM_VERSION@", opt.cmake_version.clone());
        vars.insert("@CMAKE_TARGET_NAME@", opt.target_name.clone());
        vars.insert("@CMAKE_PROJECT_NAME@", build_cmake_project_name(&opt, "-"));
        vars.insert("@INCLUDE_DOMAIN_DIR@", build_cmake_project_name(&opt, "/"));
        let out_dir = build_out_dir(&opt, current_dir);
        let gen = CppProjGen {
            directories: Vec::new(),
            cmake_lists_file: CMAKELISTS_FILENAME.to_owned(),
            cmake_vars: vars,
            out_dir,
            opt,
        };
        assert(texts(gen.directories@) =~= Seq::empty());
        gen
    }

    /// The variables that are substituted into the build file.
    pub fn cmake_vars(&self) -> (vars: &Variables)
        ensures
            vars@ == self@.cmake_vars,
            self.wf() ==> vars.wf(),
    {
        &self.cmake_vars
    }

    /// Makes `dir` the include directory: the build file names it, and the
    /// directory of the target's headers below it is added to the project.
    pub fn add_include_dir(self, dir: String) -> (gen: CppProjGen)
        requires
            self.wf(),
        ensures
            gen.wf(),
            gen@ == (CppProjGenView {
                cmake_vars: inserted(self@.cmake_vars, "@INCLUDE_DIR@"@, dir@),
                directories: self@.directories.push(self@.opt.local_include_dir(dir@)),
                ..self@
            }),
    {
        proof {
            reveal_strlit("@INCLUDE_DIR@");
        }
        let mut gen = self;
        gen.cmake_vars.insert("@INCLUDE_DIR@", dir.clone());
        let local_include_dir = build_cmake_local_include_dir(&gen.opt, dir);
        gen.add_toplevel_dir(local_include_dir)
    }

    /// Makes `dir` the source directory: the build file names it, and it is
    /// added to the project.
    pub fn add_source_dir(self, dir: String) -> (gen: CppProjGen)
        requires
            self.wf(),
        ensures
            gen.wf(),
            gen@ == (CppProjGenView {
                cmake_vars: inserted(self@.cmake_vars, "@SOURCE_DIR@"@, dir@),
                directories: self@.directories.push(dir@),
                ..self@
            }),
    {
        proof {
            reveal_strlit("@SOURCE_DIR@");
        }
        let mut gen = self;
        gen.cmake_vars.insert("@SOURCE_DIR@", dir.clone());
        gen.add_toplevel_dir(dir)
    }

    /// Adds the directory `dir` to the project, behind those already added.
    pub fn add_toplevel_dir(self, dir: String) -> (gen: CppProjGen)
        requires
            self.wf(),
        ensures
            gen.wf(),
            gen@ == (CppProjGenView { directories: self@.directories.push(dir@), ..self@ }),
    {
        let mut gen = self;
        gen.directories.push(dir);
        assert(texts(gen.directories@) =~= self@.directories.push(dir@));
        gen
    }

    /// The project as a list of things to create, in the order of its paths.
    /// Creating them is the caller's part.
    pub fn create(&self) -> (creations: Vec<Creation>)
        ensures
            creations_view(creations@) == self@.creations(),
    {
        let contents = replace_cmake_vars(&self.cmake_vars);
        let paths = self.build_paths();
        create_all_paths(paths, contents)
    }

    /// The paths of the project: its directories, then the build file,
    /// which is `CMakeLists.txt` below the project's root.
    pub fn build_paths(&self) -> (paths: Vec<String>)
        ensures
            texts(paths@) == self@.paths(),
            self.wf() ==> texts(paths@).last() == path_of_two(
                self@.out_dir,
                CMAKELISTS_FILENAME@,
            ),
    {
        let mut paths: Vec<String> = Vec::new();
        let mut i: usize = 0;
        while i < self.directories.len()
            invariant
                i <= self.directories.len(),
                paths@.len() == i,
                forall|j: int|
                    0 <= j < i ==> (#[trigger] paths@[j])@ == path_of_two(
                        self.out_dir@,
                        self.directories@[j]@,
                    ),
            decreases self.directories.len() - i,
        {
            paths.push(make_absolute_path(&self.out_dir, &self.directories[i]));
            i += 1;
        }
        paths.push(make_absolute_path(&self.out_dir, &self.cmake_lists_file));
        assert(texts(paths@) =~= self@.paths());
        paths
    }
}

/// The directory of the target's headers below the include directory `dir`:
/// `dir/target_name`, or `dir/name_space/target_name` where the options give
/// a name space.
pub fn build_cmake_local_include_dir(opt: &Opt, dir: String) -> (result_dir: String)
    ensures
        result_dir@ == opt@.local_include_dir(dir@),
{
    match &opt.name_space {
        None => collect_two(dir.as_str(), opt.target_name.as_str()),
        Some(name_space) => {
            let below = collect_two(dir.as_str(), name_space.as_str());
            join(below.as_str(), opt.target_name.as_str())
        },
    }
}

/// The project's root.
pub fn build_out_dir(opt: &Opt, current_dir: &str) -> (out_dir: String)
    ensures
        out_dir@ == opt@.out_dir(current_dir@),
{
    match &opt.output_dir {
        Some(parent) => collect_two(parent.as_str(), opt.target_name.as_str()),
        None => collect_two(current_dir, opt.target_name.as_str()),
    }
}

/// The path of `dir` below `out_dir`.
pub fn make_absolute_path(out_dir: &String, dir: &String) -> (path: String)
    ensures
        path@ == path_of_two(out_dir@, dir@),
{
    collect_two(out_dir.as_str(), dir.as_str())
}

/// The contents of the build file: its fixed text with `cmake_vars`
/// substituted.
pub fn replace_cmake_vars(cmake_vars: &Variables) -> (content: String)
    ensures
        content@ == substituted(CMAKELISTS_FILE_STR@, cmake_vars@),
{
    cmake_vars.substitute(CMAKELISTS_FILE_STR)
}

/// The project's name: the target's name, behind the name space and
/// `delimiter` where the options give a name space.
pub fn build_cmake_project_name(opt: &Opt, delimiter: &str) -> (project_name: String)
    ensures
        project_name@ == opt@.project_name(delimiter@),
{
    match &opt.name_space {
        None => opt.target_name.clone(),
        Some(name_space) => {
            let mut name = name_space.clone();
            name.append(delimiter);
            name.append(opt.target_name.as_str());
            name
        },
    }
}

/// What to create at each of `paths`: the build file, with `contents`, at a
/// path that ends in its name, a directory at every other.
pub fn create_all_paths(paths: Vec<String>, contents: String) -> (creations: Vec<Creation>)
    ensures
        creations_view(creations@) == texts(paths@).map_values(
            |path: Seq<char>| creation_at(path, contents@),
        ),
{
    let mut creations: Vec<Creation> = Vec::new();
    let mut i: usize = 0;
    while i < paths.len()
        invariant
            i <= paths.len(),
            creations@.len() == i,
            forall|j: int|
                0 <= j < i ==> (#[trigger] creations@[j])@ == creation_at(paths@[j]@, contents@),
        decreases paths.len() - i,
    {
        let path = paths[i].clone();
        let is_build_file = ends_with(path.as_str(), CMAKELISTS_FILENAME);
        creations.push(Creation::of(path, &contents, is_build_file));
        i += 1;
    }
    assert(creations_view(creations@) =~= texts(paths@).map_values(
        |path: Seq<char>| creation_at(path, contents@),
    ));
    creations
}

} // verus!
