//! Where the directories of a project go.

use super::generate::{DirPath, DirPathView, dir_paths_view};
use crate::paths::{join, path_join};
use vstd::prelude::*;

verus! {

/// The name of a top-level directory, tagged by its role.
#[derive(Debug)]
pub enum DirName {
    Include { name: String },
    Source { name: String },
    Test { name: String },
    External { name: String },
}

/// What a [`DirName`] holds.
pub enum DirNameView {
    Include { name: Seq<char> },
    Source { name: Seq<char> },
    Test { name: Seq<char> },
    External { name: Seq<char> },
}

impl View for DirName {
    type V = DirNameView;

    open spec fn view(&self) -> DirNameView {
        match *self {
            DirName::Include { name } => DirNameView::Include { name: name@ },
            DirName::Source { name } => DirNameView::Source { name: name@ },
            DirName::Test { name } => DirNameView::Test { name: name@ },
            DirName::External { name } => DirNameView::External { name: name@ },
        }
    }
}

impl Clone for DirName {
    fn clone(&self) -> (copy: Self)
        ensures
            copy@ == self@,
    {
        match self {
            DirName::Include { name } => DirName::Include { name: name.clone() },
            DirName::Source { name } => DirName::Source { name: name.clone() },
            DirName::Test { name } => DirName::Test { name: name.clone() },
            DirName::External { name } => DirName::External { name: name.clone() },
        }
    }
}

/// The views of `names`, in order.
pub open spec fn dir_names_view(names: Seq<DirName>) -> Seq<DirNameView> {
    names.map_values(|name: DirName| name@)
}

/// A copy of `names`.
pub fn clone_dir_names(names: &Vec<DirName>) -> (copy: Vec<DirName>)
    ensures
        dir_names_view(copy@) == dir_names_view(names@),
{
    let mut copy: Vec<DirName> = Vec::new();
    let mut i: usize = 0;
    while i < names.len()
        invariant
            i <= names.len(),
            copy@.len() == i,
            forall|j: int| 0 <= j < i ==> (#[trigger] copy@[j])@ == names@[j]@,
        decreases names.len() - i,
    {
        copy.push(names[i].clone());
        i += 1;
    }
    assert(dir_names_view(copy@) =~= dir_names_view(names@));
    copy
}

/// The directory that `name` stands for in a project rooted at `root`: the
/// header directory lies below the include directory, in
/// `domain_name/target_name`; every other directory lies directly below the
/// root.
pub open spec fn dir_path_of(
    root: Seq<char>,
    domain_name: Seq<char>,
    target_name: Seq<char>,
    name: DirNameView,
) -> DirPathView {
    match name {
        DirNameView::Include { name } => DirPathView::HeaderInclude {
            path: path_join(path_join(path_join(root, name), domain_name), target_name),
        },
        DirNameView::Source { name } => DirPathView::Source { path: path_join(root, name) },
        DirNameView::Test { name } => DirPathView::Test { path: path_join(root, name) },
        DirNameView::External { name } => DirPathView::External { path: path_join(root, name) },
    }
}

/// Plans the directories of a project.
#[derive(Debug, Clone)]
pub struct DirectoryGen {
    out_dir: String,
    target_name: String,
    domain_name: String,
    toplevel_dir_names: Vec<DirName>,
}

/// What a [`DirectoryGen`] holds.
pub struct DirectoryGenView {
    pub out_dir: Seq<char>,
    pub target_name: Seq<char>,
    pub domain_name: Seq<char>,
    pub toplevel_dir_names: Seq<DirNameView>,
}

impl View for DirectoryGen {
    type V = DirectoryGenView;

    closed spec fn view(&self) -> DirectoryGenView {
        DirectoryGenView {
            out_dir: self.out_dir@,
            target_name: self.target_name@,
            domain_name: self.domain_name@,
            toplevel_dir_names: dir_names_view(self.toplevel_dir_names@),
        }
    }
}

impl DirectoryGenView {
    /// The project's root: the target's own directory below the output
    /// directory.
    pub open spec fn root(self) -> Seq<char> {
        path_join(self.out_dir, self.target_name)
    }

    /// The planned directories: the root first, then one directory for each
    /// top-level name, in the order in which the names were added.
    pub open spec fn dirs(self) -> Seq<DirPathView> {
        seq![DirPathView::Root { path: self.root() }] + self.toplevel_dir_names.map_values(
            |name: DirNameView| dir_path_of(self.root(), self.domain_name, self.target_name, name),
        )
    }
}

impl DirectoryGen {
    /// A plan with empty names and no top-level directory.
    pub fn new() -> (gen: Self)
        ensures
            gen@ == (DirectoryGenView {
                out_dir: Seq::empty(),
                target_name: Seq::empty(),
                domain_name: Seq::empty(),
                toplevel_dir_names: Seq::empty(),
            }),
    {
        let gen = Self {
            out_dir: String::new(),
            target_name: String::new(),
            domain_name: String::new(),
            toplevel_dir_names: Vec::new(),
        };
        assert(dir_names_view(gen.toplevel_dir_names@) =~= Seq::empty());
        gen
    }

    /// Sets the directory below which the project is generated.
    pub fn set_out_dir(self, out_dir: &str) -> (gen: Self)
        ensures
            gen@ == (DirectoryGenView { out_dir: out_dir@, ..self@ }),
    {
        let mut gen = self;
        gen.out_dir = out_dir.to_owned();
        gen
    }

    /// Adds a top-level directory behind those already added.
    pub fn add_toplevel_dir(self, dir: &DirName) -> (gen: Self)
        ensures
            gen@ == (DirectoryGenView {
                toplevel_dir_names: self@.toplevel_dir_names.push(dir@),
                ..self@
            }),
    {
        let mut gen = self;
        gen.toplevel_dir_names.push(dir.clone());
        assert(dir_names_view(gen.toplevel_dir_names@) =~= self@.toplevel_dir_names.push(dir@));
        gen
    }

    /// The top-level directory names, in the order in which they were added.
    pub fn toplevel_dir_names(&self) -> (names: Vec<DirName>)
        ensures
            dir_names_view(names@) == self@.toplevel_dir_names,
    {
        clone_dir_names(&self.toplevel_dir_names)
    }

    /// Sets the target's name.
    pub fn set_target_name(self, name: &String) -> (gen: Self)
        ensures
            gen@ == (DirectoryGenView { target_name: name@, ..self@ }),
    {
        let mut gen = self;
        gen.target_name = name.clone();
        gen
    }

    /// Sets the domain's name.
    pub fn set_domain_name(self, name: &String) -> (gen: Self)
        ensures
            gen@ == (DirectoryGenView { domain_name: name@, ..self@ }),
    {
        let mut gen = self;
        gen.domain_name = name.clone();
        gen
    }

    /// Computes the directories of the project without creating any.
    pub fn create_dirs_dry(&self) -> (out_paths: Vec<DirPath>)
        ensures
            dir_paths_view(out_paths@) == self@.dirs(),
    {
        let out_dir = join(self.out_dir.as_str(), self.target_name.as_str());
        let mut out_paths: Vec<DirPath> = Vec::new();
        out_paths.push(DirPath::Root { path: out_dir.clone() });
        let mut i: usize = 0;
        while i < self.toplevel_dir_names.len()
            invariant
                i <= self.toplevel_dir_names.len(),
                out_dir@ == self@.root(),
                out_paths@.len() == i + 1,
                out_paths@[0]@ == (DirPathView::Root { path: self@.root() }),
                forall|j: int|
                    0 <= j < i ==> (#[trigger] out_paths@[j + 1])@ == dir_path_of(
                        self@.root(),
                        self@.domain_name,
                        self@.target_name,
                        self.toplevel_dir_names@[j]@,
                    ),
            decreases self.toplevel_dir_names.len() - i,
        {
            let dir = match &self.toplevel_dir_names[i] {
                DirName::Include { name } => {
                    let below = join(out_dir.as_str(), name.as_str());
                    let domain = join(below.as_str(), self.domain_name.as_str());
                    DirPath::HeaderInclude {
                        path: join(domain.as_str(), self.target_name.as_str()),
                    }
                },
                DirName::Source { name } => DirPath::Source {
                    path: join(out_dir.as_str(), name.as_str()),
                },
                DirName::Test { name } => DirPath::Test {
                    path: join(out_dir.as_str(), name.as_str()),
                },
                DirName::External { name } => DirPath::External {
                    path: join(out_dir.as_str(), name.as_str()),
                },
            };
            out_paths.push(dir);
            i += 1;
        }
        assert forall|k: int| 0 <= k < out_paths@.len() implies dir_paths_view(out_paths@)[k]
            == self@.dirs()[k] by {
            if k > 0 {
                assert(out_paths@[(k - 1) + 1]@ == dir_path_of(
                    self@.root(),
                    self@.domain_name,
                    self@.target_name,
                    self.toplevel_dir_names@[k - 1]@,
                ));
            }
        }
        assert(dir_paths_view(out_paths@) =~= self@.dirs());
        out_paths
    }
}

} // verus!
