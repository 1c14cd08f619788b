//! The project's `CMakeLists.txt`: where it goes and what it holds.

use super::directory_gen::{DirName, DirNameView, clone_dir_names, dir_names_view};
use crate::paths::{join, path_join, path_with_extension, with_extension};
use crate::vars::{VarSeq, Variables, inserted, substituted};
use vstd::prelude::*;

verus! {

/// A file to write, with its path and its content.
#[derive(Debug)]
pub enum File {
    Root { path: String, content: String },
}

/// What a [`File`] holds.
pub enum FileView {
    Root { path: Seq<char>, content: Seq<char> },
}

impl View for File {
    type V = FileView;

    open spec fn view(&self) -> FileView {
        match *self {
            File::Root { path, content } => FileView::Root { path: path@, content: content@ },
        }
    }
}

/// The variables that every `CMakeLists.txt` gets, whatever the project's
/// directories are.
pub open spec fn base_vars(domain_name: Seq<char>, target_name: Seq<char>) -> VarSeq {
    inserted(
        inserted(
            inserted(VarSeq::empty(), "@CMAKE_MINIMUM_VERSION@"@, "3.19.0"@),
            "@PROJECT_NAME@"@,
            domain_name + "-"@ + target_name,
        ),
        "@TARGET_NAME@"@,
        target_name,
    )
}

/// `vars` with the variables that the directory `dir` brings: its name, and
/// for the include directory also the header directory below it.
pub open spec fn with_dir(
    vars: VarSeq,
    dir: DirNameView,
    domain_name: Seq<char>,
    target_name: Seq<char>,
) -> VarSeq {
    match dir {
        DirNameView::Include { name } => inserted(
            inserted(vars, "@INCLUDE_DIR@"@, name),
            "@HEADER_INCLUDE_DIR@"@,
            path_join(path_join(name, domain_name), target_name),
        ),
        DirNameView::Source { name } => inserted(vars, "@SOURCE_DIR@"@, name),
        DirNameView::Test { name } => inserted(vars, "@TEST_DIR@"@, name),
        DirNameView::External { name } => inserted(vars, "@EXTERNAL_DIR@"@, name),
    }
}

/// `vars` with the variables of each directory of `dirs`, the first one
/// first: a later directory of the same role replaces an earlier one.
pub open spec fn with_dirs(
    vars: VarSeq,
    dirs: Seq<DirNameView>,
    domain_name: Seq<char>,
    target_name: Seq<char>,
) -> VarSeq
    decreases dirs.len(),
{
    if dirs.len() == 0 {
        vars
    } else {
        with_dir(
            with_dirs(vars, dirs.drop_last(), domain_name, target_name),
            dirs.last(),
            domain_name,
            target_name,
        )
    }
}

/// Plans the project's `CMakeLists.txt`.
#[derive(Debug)]
pub struct FileGen {
    out_dir: String,
    target_name: String,
    domain_name: String,
    top_level_dir_names: Vec<DirName>,
    template: String,
}

/// What a [`FileGen`] holds.
pub struct FileGenView {
    pub out_dir: Seq<char>,
    pub target_name: Seq<char>,
    pub domain_name: Seq<char>,
    pub top_level_dir_names: Seq<DirNameView>,
    pub template: Seq<char>,
}

impl View for FileGen {
    type V = FileGenView;

    closed spec fn view(&self) -> FileGenView {
        FileGenView {
            out_dir: self.out_dir@,
            target_name: self.target_name@,
            domain_name: self.domain_name@,
            top_level_dir_names: dir_names_view(self.top_level_dir_names@),
            template: self.template@,
        }
    }
}

impl FileGenView {
    /// The variables to substitute.
    pub open spec fn vars(self) -> VarSeq {
        with_dirs(
            base_vars(self.domain_name, self.target_name),
            self.top_level_dir_names,
            self.domain_name,
            self.target_name,
        )
    }

    /// Where the file goes: `CMakeLists.txt` in the target's own directory
    /// below the output directory.
    pub open spec fn path(self) -> Seq<char> {
        path_with_extension(
            path_join(path_join(self.out_dir, self.target_name), "CMakeLists"@),
            "txt"@,
        )
    }

    /// The file to write.
    pub open spec fn file(self) -> FileView {
        FileView::Root { path: self.path(), content: substituted(self.template, self.vars()) }
    }
}

impl FileGen {
    /// A plan with empty names, no directory and an empty template.
    pub fn new() -> (gen: Self)
        ensures
            gen@ == (FileGenView {
                out_dir: Seq::empty(),
                target_name: Seq::empty(),
                domain_name: Seq::empty(),
                top_level_dir_names: Seq::empty(),
                template: Seq::empty(),
            }),
    {
        let gen = Self {
            out_dir: String::new(),
            domain_name: String::new(),
            target_name: String::new(),
            top_level_dir_names: Vec::new(),
            template: String::new(),
        };
        assert(dir_names_view(gen.top_level_dir_names@) =~= Seq::empty());
        gen
    }

    /// Sets the directory below which the project is generated.
    pub fn set_out_dir(self, out_dir: &str) -> (gen: Self)
        ensures
            gen@ == (FileGenView { out_dir: out_dir@, ..self@ }),
    {
        let mut gen = self;
        gen.out_dir = out_dir.to_owned();
        gen
    }

    /// Sets the project's top-level directories.
    pub fn set_dir_names(self, dirs: &Vec<DirName>) -> (gen: Self)
        ensures
            gen@ == (FileGenView { top_level_dir_names: dir_names_view(dirs@), ..self@ }),
    {
        let mut gen = self;
        gen.top_level_dir_names = clone_dir_names(dirs);
        gen
    }

    /// Sets the domain's name.
    pub fn set_domain_name(self, domain_name: &String) -> (gen: Self)
        ensures
            gen@ == (FileGenView { domain_name: domain_name@, ..self@ }),
    {
        let mut gen = self;
        gen.domain_name = domain_name.clone();
        gen
    }

    /// Sets the target's name.
    pub fn set_target_name(self, target_name: &String) -> (gen: Self)
        ensures
            gen@ == (FileGenView { target_name: target_name@, ..self@ }),
    {
        let mut gen = self;
        gen.target_name = target_name.clone();
        gen
    }

    /// Sets the text into which the variables are substituted.
    pub fn set_template(self, template: &str) -> (gen: Self)
        ensures
            gen@ == (FileGenView { template: template@, ..self@ }),
    {
        let mut gen = self;
        gen.template = template.to_owned();
        gen
    }

    /// Computes the file without writing it.
    pub fn create_file_dry(&mut self) -> (file: File)
        ensures
            *final(self) == *old(self),
            file@ == old(self)@.file(),
    {
        let root = join(self.out_dir.as_str(), self.target_name.as_str());
        let stem = join(root.as_str(), "CMakeLists");
        proof {
            reveal_strlit("txt");
        }
        let path = with_extension(stem.as_str(), "txt");
        let content = self.replace_all_vars(self.template.clone());
        File::Root { path, content }
    }

    /// The variables to substitute.
    pub fn create_var_replacements(&self) -> (vars: Variables)
        ensures
            vars.wf(),
            vars@ == self@.vars(),
    {
        proof {
            reveal_strlit("@CMAKE_MINIMUM_VERSION@");
            reveal_strlit("@PROJECT_NAME@");
            reveal_strlit("@TARGET_NAME@");
            reveal_strlit("@INCLUDE_DIR@");
            reveal_strlit("@HEADER_INCLUDE_DIR@");
            reveal_strlit("@SOURCE_DIR@");
            reveal_strlit("@TEST_DIR@");
            reveal_strlit("@EXTERNAL_DIR@");
        }
        let mut vars = Variables::new();
        vars.insert("@CMAKE_MINIMUM_VERSION@", "3.19.0".to_owned());
        let mut project_name = self.domain_name.clone();
        project_name.append("-");
        project_name.append(self.target_name.as_str());
        vars.insert("@PROJECT_NAME@", project_name);
        vars.insert("@TARGET_NAME@", self.target_name.clone());
        let mut i: usize = 0;
        while i < self.top_level_dir_names.len()
            invariant
                i <= self.top_level_dir_names.len(),
                vars.wf(),
                "@INCLUDE_DIR@"@.len() > 0,
                "@HEADER_INCLUDE_DIR@"@.len() > 0,
                "@SOURCE_DIR@"@.len() > 0,
                "@TEST_DIR@"@.len() > 0,
                "@EXTERNAL_DIR@"@.len() > 0,
                vars@ == with_dirs(
                    base_vars(self@.domain_name, self@.target_name),
                    self@.top_level_dir_names.take(i as int),
                    self@.domain_name,
                    self@.target_name,
                ),
            decreases self.top_level_dir_names.len() - i,
        {
            assert(self@.top_level_dir_names.take(i + 1).drop_last()
                =~= self@.top_level_dir_names.take(i as int));
            assert(self@.top_level_dir_names.take(i + 1).last()
                == self.top_level_dir_names@[i as int]@);
            match &self.top_level_dir_names[i] {
                DirName::Include { name } => {
                    vars.insert("@INCLUDE_DIR@", name.clone());
                    let below = join(name.as_str(), self.domain_name.as_str());
                    let header_dir = join(below.as_str(), self.target_name.as_str());
                    vars.insert("@HEADER_INCLUDE_DIR@", header_dir);
                },
                DirName::Source { name } => {
                    vars.insert("@SOURCE_DIR@", name.clone());
                },
                DirName::Test { name } => {
                    vars.insert("@TEST_DIR@", name.clone());
                },
                DirName::External { name } => {
                    vars.insert("@EXTERNAL_DIR@", name.clone());
                },
            }
            i += 1;
        }
        assert(self@.top_level_dir_names.take(i as int) =~= self@.top_level_dir_names);
        vars
    }

    /// Substitutes the variables into `content`.
    pub fn replace_all_vars(&self, content: String) -> (out: String)
        ensures
            out@ == substituted(content@, self@.vars()),
    {
        let vars = self.create_var_replacements();
        vars.substitute(content.as_str())
    }
}

} // verus!
