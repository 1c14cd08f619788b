//! The project's first header and source file: where they go and what they
//! hold.

use super::generate::{DirPath, DirPathView, dir_paths_view};
use crate::paths::{join, path_join, path_with_extension, with_extension};
use crate::vars::{replace_all, replaced};
use vstd::prelude::*;

verus! {

/// A file to write, with its path and its content.
#[derive(Debug)]
pub enum File {
    Header { path: String, content: String },
    Source { path: String, content: String },
}

/// What a [`File`] holds.
pub enum FileView {
    Header { path: Seq<char>, content: Seq<char> },
    Source { path: Seq<char>, content: Seq<char> },
}

impl View for File {
    type V = FileView;

    open spec fn view(&self) -> FileView {
        match *self {
            File::Header { path, content } => FileView::Header { path: path@, content: content@ },
            File::Source { path, content } => FileView::Source { path: path@, content: content@ },
        }
    }
}

/// The views of `files`, in order.
pub open spec fn files_view(files: Seq<File>) -> Seq<FileView> {
    files.map_values(|file: File| file@)
}

/// A copy of `dirs`.
pub fn clone_dir_paths(dirs: &Vec<DirPath>) -> (copy: Vec<DirPath>)
    ensures
        dir_paths_view(copy@) == dir_paths_view(dirs@),
{
    let mut copy: Vec<DirPath> = Vec::new();
    let mut i: usize = 0;
    while i < dirs.len()
        invariant
            i <= dirs.len(),
            copy@.len() == i,
            forall|j: int| 0 <= j < i ==> (#[trigger] copy@[j])@ == dirs@[j]@,
        decreases dirs.len() - i,
    {
        copy.push(dirs[i].clone());
        i += 1;
    }
    assert(dir_paths_view(copy@) =~= dir_paths_view(dirs@));
    copy
}

/// Plans the project's first header and source file.
#[derive(Debug)]
pub struct FileGen {
    domain_name: String,
    target_name: String,
    dirs: Vec<DirPath>,
    header_template: String,
    source_template: String,
}

/// What a [`FileGen`] holds.
pub struct FileGenView {
    pub domain_name: Seq<char>,
    pub target_name: Seq<char>,
    pub dirs: Seq<DirPathView>,
    pub header_template: Seq<char>,
    pub source_template: Seq<char>,
}

impl View for FileGen {
    type V = FileGenView;

    closed spec fn view(&self) -> FileGenView {
        FileGenView {
            domain_name: self.domain_name@,
            target_name: self.target_name@,
            dirs: dir_paths_view(self.dirs@),
            header_template: self.header_template@,
            source_template: self.source_template@,
        }
    }
}

/// The path by which a source file names the target's header:
/// `domain_name/target_name/target_name.h`.
pub open spec fn header_include(domain_name: Seq<char>, target_name: Seq<char>) -> Seq<char> {
    path_with_extension(
        path_join(path_join(path_join(Seq::empty(), domain_name), target_name), target_name),
        "h"@,
    )
}

impl FileGenView {
    /// The file, if any, that goes into `dir`: the header into the header
    /// directory, unchanged; the source file into the source directory, with
    /// the header's path substituted; nothing into any other directory.
    pub open spec fn file_in(self, dir: DirPathView) -> Option<FileView> {
        match dir {
            DirPathView::HeaderInclude { path } => Some(
                FileView::Header {
                    path: path_with_extension(path_join(path, self.target_name), "h"@),
                    content: self.header_template,
                },
            ),
            DirPathView::Source { path } => Some(
                FileView::Source {
                    path: path_with_extension(path_join(path, self.target_name), "cpp"@),
                    content: replaced(
                        self.source_template,
                        "@HEADER_INCLUDE@"@,
                        header_include(self.domain_name, self.target_name),
                    ),
                },
            ),
            _ => None,
        }
    }

    /// The files that go into the directories `dirs`, in the order of the
    /// directories.
    pub open spec fn files_in(self, dirs: Seq<DirPathView>) -> Seq<FileView>
        decreases dirs.len(),
    {
        if dirs.len() == 0 {
            Seq::empty()
        } else {
            match self.file_in(dirs.last()) {
                Some(file) => self.files_in(dirs.drop_last()).push(file),
                None => self.files_in(dirs.drop_last()),
            }
        }
    }

    /// The files to write.
    pub open spec fn files(self) -> Seq<FileView> {
        self.files_in(self.dirs)
    }
}

impl FileGen {
    /// A plan with empty names, no directory and empty templates.
    pub fn new() -> (gen: Self)
        ensures
            gen@ == (FileGenView {
                domain_name: Seq::empty(),
                target_name: Seq::empty(),
                dirs: Seq::empty(),
                header_template: Seq::empty(),
                source_template: Seq::empty(),
            }),
    {
        let gen = FileGen {
            dirs: Vec::new(),
            target_name: String::new(),
            domain_name: String::new(),
            header_template: String::new(),
            source_template: String::new(),
        };
        assert(dir_paths_view(gen.dirs@) =~= Seq::empty());
        gen
    }

    /// Sets the project's directories.
    pub fn set_dirs(self, dirs: &Vec<DirPath>) -> (gen: Self)
        ensures
            gen@ == (FileGenView { dirs: dir_paths_view(dirs@), ..self@ }),
    {
        let mut gen = self;
        gen.dirs = clone_dir_paths(dirs);
        gen
    }

    /// Sets the target's name.
    pub fn set_target_name(self, name: &String) -> (gen: Self)
        ensures
            gen@ == (FileGenView { target_name: name@, ..self@ }),
    {
        let mut gen = self;
        gen.target_name = name.clone();
        gen
    }

    /// Sets the domain's name.
    pub fn set_domain_name(self, name: &String) -> (gen: Self)
        ensures
            gen@ == (FileGenView { domain_name: name@, ..self@ }),
    {
        let mut gen = self;
        gen.domain_name = name.clone();
        gen
    }

    /// Sets the texts of the header and of the source file.
    pub fn set_templates(self, header: &str, source: &str) -> (gen: Self)
        ensures
            gen@ == (FileGenView { header_template: header@, source_template: source@, ..self@ }),
    {
        let mut gen = self;
        gen.header_template = header.to_owned();
        gen.source_template = source.to_owned();
        gen
    }

    /// Computes the files without writing any.
    pub fn create_files_dry(self) -> (files: Vec<File>)
        ensures
            files_view(files@) == self@.files(),
    {
        proof {
            reveal_strlit("h");
            reveal_strlit("cpp");
            reveal_strlit("@HEADER_INCLUDE@");
        }
        let mut files: Vec<File> = Vec::new();
        let include_header = self.build_header_include(&self.domain_name, &self.target_name);
        let mut i: usize = 0;
        assert(files_view(files@) =~= self@.files_in(self@.dirs.take(0)));
        while i < self.dirs.len()
            invariant
                i <= self.dirs.len(),
                "h"@.len() == 1 && "h"@[0] == 'h',
                "cpp"@.len() == 3 && "cpp"@[0] == 'c' && "cpp"@[1] == 'p' && "cpp"@[2] == 'p',
                "@HEADER_INCLUDE@"@.len() > 0,
                include_header@ == header_include(self@.domain_name, self@.target_name),
                files_view(files@) == self@.files_in(self@.dirs.take(i as int)),
            decreases self.dirs.len() - i,
        {
            assert(self@.dirs.take(i + 1).drop_last() =~= self@.dirs.take(i as int));
            assert(self@.dirs.take(i + 1).last() == self.dirs@[i as int]@);
            let ghost before = files_view(files@);
            match &self.dirs[i] {
                DirPath::HeaderInclude { path } => {
                    let stem = join(path.as_str(), self.target_name.as_str());
                    let file = File::Header {
                        path: with_extension(stem.as_str(), "h"),
                        content: self.header_template.clone(),
                    };
                    files.push(file);
                    assert(files_view(files@) =~= before.push(file@));
                },
                DirPath::Source { path } => {
                    let content = replace_all(
                        self.source_template.as_str(),
                        "@HEADER_INCLUDE@",
                        include_header.as_str(),
                    );
                    let stem = join(path.as_str(), self.target_name.as_str());
                    let file = File::Source { path: with_extension(stem.as_str(), "cpp"), content };
                    files.push(file);
                    assert(files_view(files@) =~= before.push(file@));
                },
                _ => {},
            }
            i += 1;
        }
        assert(self@.dirs.take(i as int) =~= self@.dirs);
        files
    }

    /// The path by which a source file names the target's header.
    pub fn build_header_include(&self, domain_name: &String, target_name: &String) -> (path: String)
        ensures
            path@ == header_include(domain_name@, target_name@),
    {
        proof {
            reveal_strlit("h");
        }
        let empty = String::new();
        let domain = join(empty.as_str(), domain_name.as_str());
        let target = join(domain.as_str(), target_name.as_str());
        let stem = join(target.as_str(), target_name.as_str());
        with_extension(stem.as_str(), "h")
    }
}

} // verus!
