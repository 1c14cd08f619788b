//! A folder of the project tree.

use super::file::{
    File,
    FileView,
    files_of_json,
    files_of_member,
    files_view,
    files_well_formed,
    lemma_files_well_formed,
};
use super::{
    PathKind,
    PathKindView,
    SchemaParseError,
    accepted,
    path_kinds_view,
    refused,
    report_all,
    reported,
};
use crate::json::{Json, JsonView, find_field, json_parsed, lemma_array_view, member};
use crate::paths::{check_segment, is_segment, join, path_join};
use crate::text::clone_option_text;
use vstd::prelude::*;

verus! {

/// A folder of the project tree: its name, the folders below it and its
/// files.
#[derive(Debug)]
pub struct Folder {
    pub name: String,
    pub folders: Vec<Folder>,
    pub files: Vec<File>,
}

/// What a [`Folder`] holds.
pub struct FolderView {
    pub name: Seq<char>,
    pub folders: Seq<FolderView>,
    pub files: Seq<FileView>,
}

impl View for Folder {
    type V = FolderView;

    open spec fn view(&self) -> FolderView
        decreases self,
    {
        FolderView {
            name: self.name@,
            folders: Seq::new(
                self.folders@.len(),
                |i: int|
                    if 0 <= i < self.folders@.len() {
                        self.folders@[i]@
                    } else {
                        FolderView { name: Seq::empty(), folders: Seq::empty(), files: Seq::empty() }
                    },
            ),
            files: files_view(self.files@),
        }
    }
}

/// What the view of a folder holds, part by part.
pub proof fn lemma_folder_view(folder: Folder)
    ensures
        folder@.name == folder.name@,
        folder@.folders.len() == folder.folders@.len(),
        forall|i: int|
            0 <= i < folder.folders@.len() ==> (#[trigger] folder@.folders[i])
                == folder.folders@[i]@,
        folder@.files == files_view(folder.files@),
{
}

/// The view of the JSON value `value`, if there is one.
pub open spec fn option_json(value: Option<&Json>) -> Option<JsonView> {
    match value {
        Some(json) => Some(json@),
        None => None,
    }
}

/// An error among the first `n` files is the error of any longer list.
pub proof fn lemma_files_error(items: Seq<JsonView>, n: int, m: int)
    requires
        0 <= n <= m <= items.len(),
        files_of_json(items, n) is Err,
    ensures
        files_of_json(items, m) == files_of_json(items, n),
    decreases m - n,
{
    if n < m {
        lemma_files_error(items, n, m - 1);
    }
}

/// An error among the first `n` folders is the error of any longer list.
pub proof fn lemma_folders_error(items: Seq<JsonView>, n: int, m: int)
    requires
        0 <= n <= m <= items.len(),
        folders_of_json(items, n) is Err,
    ensures
        folders_of_json(items, m) == folders_of_json(items, n),
    decreases m - n,
{
    if n < m {
        lemma_folders_error(items, n, m - 1);
    }
}

impl FolderView {
    /// Whether the name of every folder and file of the tree is a single
    /// segment of a path.
    pub open spec fn well_formed(self) -> bool
        decreases self,
    {
        &&& is_segment(self.name)
        &&& files_well_formed(self.files)
        &&& forall|i: int| 0 <= i < self.folders.len() ==> (#[trigger] self.folders[i]).well_formed()
    }

    /// What the folder is at its place below `out_dir`.
    pub open spec fn event(self, out_dir: Seq<char>) -> PathKindView {
        PathKindView::Folder { path: path_join(out_dir, self.name) }
    }

    /// The nodes of the tree below `out_dir`, each at its place: the folder
    /// itself, then what is below each of its folders, in their order, then
    /// its files, in their order.
    pub open spec fn walk(self, out_dir: Seq<char>) -> Seq<PathKindView>
        decreases self, 0nat,
    {
        let path = path_join(out_dir, self.name);
        seq![self.event(out_dir)] + walk_folders(self.folders, path, self.folders.len() as int)
            + file_events(self.files, path)
    }
}

/// The files `files` at their places in the folder `out_dir`.
pub open spec fn file_events(files: Seq<FileView>, out_dir: Seq<char>) -> Seq<PathKindView> {
    files.map_values(|file: FileView| file.event(out_dir))
}

/// The nodes of the first `n` trees of `folders` below `out_dir`, one tree
/// after the other.
pub open spec fn walk_folders(folders: Seq<FolderView>, out_dir: Seq<char>, n: int) -> Seq<
    PathKindView,
>
    decreases folders, n,
{
    if n <= 0 || n > folders.len() {
        Seq::empty()
    } else {
        walk_folders(folders, out_dir, n - 1) + folders[n - 1].walk(out_dir)
    }
}

/// The folder that the JSON value `json` describes: an object with a text
/// `name`, which is a single segment of a path, with `folders` that are
/// folders in turn and with `files`; the two lists may be absent or `null`.
/// Other fields are passed over.
pub open spec fn folder_of_json(json: JsonView) -> Result<FolderView, SchemaParseError>
    decreases json, 0nat,
{
    match json {
        JsonView::Object(fields) => match member(fields, "name"@) {
            None => Err(SchemaParseError::MissingName),
            Some(JsonView::Text(name)) => if !is_segment(name) {
                Err(SchemaParseError::NameNotSegment)
            } else {
                let folders = match find_field(fields, "folders"@, fields.len() as int) {
                    Some(at) => if 0 <= at < fields.len() {
                        match fields[at].value {
                            JsonView::Null => Ok(Seq::empty()),
                            JsonView::Array(items) => folders_of_json(items, items.len() as int),
                            _ => Err(SchemaParseError::FoldersNotArray),
                        }
                    } else {
                        Ok(Seq::empty())
                    },
                    None => Ok(Seq::empty()),
                };
                match folders {
                    Err(error) => Err(error),
                    Ok(folders) => match files_of_member(member(fields, "files"@)) {
                        Err(error) => Err(error),
                        Ok(files) => Ok(FolderView { name, folders, files }),
                    },
                }
            },
            Some(_) => Err(SchemaParseError::NameNotText),
        },
        _ => Err(SchemaParseError::NotAnObject),
    }
}

/// The folders that the first `n` of the JSON values `items` describe, or
/// the first error among them.
pub open spec fn folders_of_json(items: Seq<JsonView>, n: int) -> Result<
    Seq<FolderView>,
    SchemaParseError,
>
    decreases items, n,
{
    if n <= 0 || n > items.len() {
        Ok(Seq::empty())
    } else {
        match folders_of_json(items, n - 1) {
            Err(error) => Err(error),
            Ok(folders) => match folder_of_json(items[n - 1]) {
                Err(error) => Err(error),
                Ok(folder) => Ok(folders.push(folder)),
            },
        }
    }
}

/// The folder that the JSON text `text` describes.
pub open spec fn folder_of_text(text: Seq<char>) -> Result<FolderView, SchemaParseError> {
    match json_parsed(text) {
        Some(json) => folder_of_json(json),
        None => Err(SchemaParseError::Syntax),
    }
}

/// A tree that is read from JSON is well formed.
pub proof fn lemma_parsed_well_formed(json: JsonView)
    ensures
        folder_of_json(json) matches Ok(folder) ==> folder.well_formed(),
    decreases json, 0nat,
{
    if let JsonView::Object(fields) = json {
        if let Ok(folder) = folder_of_json(json) {
            match find_field(fields, "folders"@, fields.len() as int) {
                Some(at) => {
                    if 0 <= at < fields.len() {
                        if let JsonView::Array(items) = fields[at].value {
                            lemma_parsed_all_well_formed(items, items.len() as int);
                        }
                    }
                },
                None => {},
            }
            match member(fields, "files"@) {
                Some(JsonView::Array(items)) => {
                    lemma_files_well_formed(items, items.len() as int);
                },
                _ => {},
            }
        }
    }
}

/// The trees that are read from a JSON array are well formed.
pub proof fn lemma_parsed_all_well_formed(items: Seq<JsonView>, n: int)
    ensures
        folders_of_json(items, n) matches Ok(folders) ==> forall|i: int|
            0 <= i < folders.len() ==> (#[trigger] folders[i]).well_formed(),
    decreases items, n,
{
    if 0 < n <= items.len() {
        lemma_parsed_all_well_formed(items, n - 1);
        lemma_parsed_well_formed(items[n - 1]);
    }
}

/// A tree that is read from JSON text is well formed.
pub proof fn lemma_parsed_text_well_formed(text: Seq<char>)
    ensures
        folder_of_text(text) matches Ok(folder) ==> folder.well_formed(),
{
    if let Some(json) = json_parsed(text) {
        lemma_parsed_well_formed(json);
    }
}

/// The views of `folders`, in order.
pub open spec fn folders_view(folders: Seq<Folder>) -> Seq<FolderView> {
    folders.map_values(|folder: Folder| folder@)
}

impl Folder {
    /// Reads the files of a folder from the JSON value of its `files`.
    #[verifier::loop_isolation(false)]
    fn files_from_json(value: Option<&Json>) -> (result: Result<Vec<File>, SchemaParseError>)
        ensures
            match result {
                Ok(files) => files_of_member(option_json(value)) == Ok::<
                    Seq<FileView>,
                    SchemaParseError,
                >(files_view(files@)),
                Err(error) => files_of_member(option_json(value)) == Err::<
                    Seq<FileView>,
                    SchemaParseError,
                >(error),
            },
    {
        match value {
            None => {
                let files: Vec<File> = Vec::new();
                assert(files_view(files@) =~= Seq::empty());
                Ok(files)
            },
            Some(Json::Null) => {
                let files: Vec<File> = Vec::new();
                assert(files_view(files@) =~= Seq::empty());
                Ok(files)
            },
            Some(Json::Array(items)) => {
                let ghost views = value->0@->Array_0;
                proof {
                    lemma_array_view(*value->0);
                }
                let mut files: Vec<File> = Vec::new();
                let mut i: usize = 0;
                assert(files_view(files@) =~= Seq::empty());
                while i < items.len()
                    invariant
                        i <= items.len(),
                        views.len() == items@.len(),
                        forall|j: int| 0 <= j < items@.len() ==> (#[trigger] views[j]) == items@[j]@,
                        files_of_json(views, i as int) == Ok::<Seq<FileView>, SchemaParseError>(
                            files_view(files@),
                        ),
                    decreases items.len() - i,
                {
                    let ghost before = files_view(files@);
                    match File::from_json(&items[i]) {
                        Err(error) => {
                            proof {
                                lemma_files_error(views, i + 1, items@.len() as int);
                            }
                            return Err(error);
                        },
                        Ok(file) => {
                            files.push(file);
                            assert(files_view(files@) =~= before.push(file@));
                        },
                    }
                    i += 1;
                }
                Ok(files)
            },
            Some(_) => Err(SchemaParseError::FilesNotArray),
        }
    }

    /// Reads a folder, with all that is below it, from the JSON value that
    /// describes it.
    #[verifier::loop_isolation(false)]
    pub fn from_json(json: &Json) -> (result: Result<Folder, SchemaParseError>)
        ensures
            match result {
                Ok(folder) => folder_of_json(json@) == Ok::<FolderView, SchemaParseError>(folder@),
                Err(error) => folder_of_json(json@) == Err::<FolderView, SchemaParseError>(error),
            },
        decreases json,
    {
        match json {
            Json::Object(fields) => {
                let name = match json.field_index("name") {
                    None => {
                        return Err(SchemaParseError::MissingName);
                    },
                    Some(at) => match &fields[at].value {
                        Json::Text(name) => name.clone(),
                        _ => {
                            return Err(SchemaParseError::NameNotText);
                        },
                    },
                };
                if !check_segment(name.as_str()) {
                    return Err(SchemaParseError::NameNotSegment);
                }
                let mut folders: Vec<Folder> = Vec::new();
                assert(folders_view(folders@) =~= Seq::empty());
                match json.field_index("folders") {
                    None => {},
                    Some(at) => match &fields[at].value {
                        Json::Null => {},
                        Json::Array(items) => {
                            let ghost views = fields@[at as int].value@->Array_0;
                            proof {
                                lemma_array_view(fields@[at as int].value);
                            }
                            let mut i: usize = 0;
                            while i < items.len()
                                invariant
                                    i <= items.len(),
                                    *json == Json::Object(*fields),
                                    at < fields@.len(),
                                    fields@[at as int].value == Json::Array(*items),
                                    views.len() == items@.len(),
                                    forall|j: int|
                                        0 <= j < items@.len() ==> (#[trigger] views[j])
                                            == items@[j]@,
                                    folders_of_json(views, i as int) == Ok::<
                                        Seq<FolderView>,
                                        SchemaParseError,
                                    >(folders_view(folders@)),
                                decreases items.len() - i,
                            {
                                let ghost before = folders_view(folders@);
                                proof {
                                    assert(decreases_to!(*json => *fields));
                                    assert(decreases_to!(*fields => fields@[at as int]));
                                    assert(decreases_to!(fields@[at as int] => fields@[at as int].value));
                                    assert(decreases_to!(fields@[at as int].value => *items));
                                    assert(decreases_to!(*items => items@[i as int]));
                                }
                                match Folder::from_json(&items[i]) {
                                    Err(error) => {
                                        proof {
                                            lemma_folders_error(
                                                views,
                                                i + 1,
                                                items@.len() as int,
                                            );
                                        }
                                        return Err(error);
                                    },
                                    Ok(folder) => {
                                        folders.push(folder);
                                        assert(folders_view(folders@) =~= before.push(folder@));
                                    },
                                }
                                i += 1;
                            }
                        },
                        _ => {
                            return Err(SchemaParseError::FoldersNotArray);
                        },
                    },
                }
                let files_at = json.field_index("files");
                let files_value = match files_at {
                    Some(at) => Some(&fields[at].value),
                    None => None,
                };
                let files = match Self::files_from_json(files_value) {
                    Ok(files) => files,
                    Err(error) => {
                        return Err(error);
                    },
                };
                let folder = Folder { name, folders, files };
                proof {
                    lemma_folder_view(folder);
                    assert(folder@.folders =~= folders_view(folders@));
                }
                Ok(folder)
            },
            _ => Err(SchemaParseError::NotAnObject),
        }
    }

    /// Reads a project tree from the JSON text that describes it.
    pub fn parse(text: &str) -> (result: Result<Folder, SchemaParseError>)
        ensures
            match result {
                Ok(folder) => folder_of_text(text@) == Ok::<FolderView, SchemaParseError>(folder@),
                Err(error) => folder_of_text(text@) == Err::<FolderView, SchemaParseError>(error),
            },
    {
        match Json::from_text(text) {
            Some(json) => Folder::from_json(&json),
            None => Err(SchemaParseError::Syntax),
        }
    }

    /// The nodes of the tree below `out_dir`, each at its place.
    pub fn walk(&self, out_dir: &str) -> (events: Vec<PathKind>)
        ensures
            path_kinds_view(events@) == self@.walk(out_dir@),
        decreases self,
    {
        proof {
            lemma_folder_view(*self);
        }
        let path = join(out_dir, self.name.as_str());
        let mut events: Vec<PathKind> = Vec::new();
        events.push(PathKind::Folder { path: path.clone() });
        let ghost head = seq![self@.event(out_dir@)];
        let ghost folders = self@.folders;
        let ghost files = self@.files;
        assert(path_kinds_view(events@) =~= head + walk_folders(folders, path@, 0));
        let mut i: usize = 0;
        while i < self.folders.len()
            invariant
                i <= self.folders.len(),
                folders.len() == self.folders@.len(),
                forall|j: int|
                    0 <= j < self.folders@.len() ==> (#[trigger] folders[j]) == self.folders@[j]@,
                path_kinds_view(events@) == head + walk_folders(folders, path@, i as int),
            decreases self.folders.len() - i,
        {
            let ghost before = events@;
            let mut below = self.folders[i].walk(path.as_str());
            let ghost added = below@;
            events.append(&mut below);
            assert(path_kinds_view(events@) =~= path_kinds_view(before) + path_kinds_view(added));
            assert(head + walk_folders(folders, path@, i as int) + folders[i as int].walk(path@)
                =~= head + walk_folders(folders, path@, i + 1));
            i += 1;
        }
        let ghost middle = path_kinds_view(events@);
        let mut i: usize = 0;
        assert(path_kinds_view(events@) =~= middle + file_events(files, path@).take(0));
        while i < self.files.len()
            invariant
                i <= self.files.len(),
                files == files_view(self.files@),
                path_kinds_view(events@) == middle + file_events(files, path@).take(i as int),
            decreases self.files.len() - i,
        {
            let ghost before = path_kinds_view(events@);
            let event = PathKind::File {
                path: join(path.as_str(), self.files[i].name.as_str()),
                template_file: clone_option_text(&self.files[i].template),
            };
            events.push(event);
            assert(path_kinds_view(events@) =~= before.push(event@));
            assert(event@ == file_events(files, path@)[i as int]);
            assert(file_events(files, path@).take(i + 1) =~= file_events(files, path@).take(
                i as int,
            ).push(event@));
            assert(middle + file_events(files, path@).take(i + 1) =~= (middle + file_events(
                files,
                path@,
            ).take(i as int)).push(event@));
            i += 1;
        }
        assert(file_events(files, path@).take(i as int) =~= file_events(files, path@));
        events
    }

    /// Reports the folder at its place below `out_dir` to `fn_create` and
    /// returns its path, or the error with which `fn_create` refused it.
    pub fn create_at<E, F: Fn(&PathKind) -> Result<(), E>>(
        &self,
        out_dir: &str,
        fn_create: &F,
    ) -> (result: Result<String, E>)
        requires
            forall|kind: PathKind| call_requires(fn_create, (&kind,)),
        ensures
            match result {
                Ok(path) => path@ == path_join(out_dir@, self@.name) && accepted(
                    fn_create,
                    self@.event(out_dir@),
                ),
                Err(error) => refused(fn_create, self@.event(out_dir@), error),
            },
    {
        proof {
            lemma_folder_view(*self);
        }
        let path = join(out_dir, self.name.as_str());
        let kind = PathKind::Folder { path: path.clone() };
        let outcome = fn_create(&kind);
        assert(kind@ == self@.event(out_dir@) && call_ensures(fn_create, (&kind,), outcome));
        match outcome {
            Ok(_) => Ok(path),
            Err(error) => Err(error),
        }
    }

    /// Reports every node of the tree at its place below `out_dir` to `f`:
    /// the folder itself, then what is below each of its folders, then its
    /// files. Stops at the first node that `f` refuses, with its error;
    /// returns the folder's own path otherwise.
    pub fn create_recursively_at<E, F: Fn(&PathKind) -> Result<(), E>>(
        &self,
        out_dir: &str,
        f: &F,
    ) -> (result: Result<String, E>)
        requires
            forall|kind: PathKind| call_requires(f, (&kind,)),
        ensures
            match result {
                Ok(path) => path@ == path_join(out_dir@, self@.name) && reported(
                    f,
                    self@.walk(out_dir@),
                    Ok::<(), E>(()),
                ),
                Err(error) => reported(f, self@.walk(out_dir@), Err::<(), E>(error)),
            },
    {
        proof {
            lemma_folder_view(*self);
        }
        let events = self.walk(out_dir);
        match report_all(&events, f) {
            Ok(_) => Ok(join(out_dir, self.name.as_str())),
            Err(error) => Err(error),
        }
    }
}

} // verus!
