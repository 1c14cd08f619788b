//! A file of the project tree.

use super::{PathKind, PathKindView, SchemaParseError, accepted, refused};
use crate::json::{Json, JsonView, member};
use crate::paths::{check_segment, is_segment, join, path_join};
use crate::text::{clone_option_text, option_text};
use vstd::prelude::*;

verus! {

/// A file of the project tree: its name, and the key of the template that
/// gives its content. A file without a template is declared only.
#[derive(Debug)]
pub struct File {
    pub name: String,
    pub template: Option<String>,
}

/// What a [`File`] holds.
pub struct FileView {
    pub name: Seq<char>,
    pub template: Option<Seq<char>>,
}

impl View for File {
    type V = FileView;

    open spec fn view(&self) -> FileView {
        FileView { name: self.name@, template: option_text(self.template) }
    }
}

impl Clone for File {
    fn clone(&self) -> (copy: Self)
        ensures
            copy@ == self@,
    {
        File { name: self.name.clone(), template: clone_option_text(&self.template) }
    }
}

impl FileView {
    /// What the file is at its place below `out_dir`.
    pub open spec fn event(self, out_dir: Seq<char>) -> PathKindView {
        PathKindView::File { path: path_join(out_dir, self.name), template_file: self.template }
    }
}

/// The views of `files`, in order.
pub open spec fn files_view(files: Seq<File>) -> Seq<FileView> {
    files.map_values(|file: File| file@)
}

/// The file that the JSON value `json` describes: an object with a text
/// `name`, which is a single segment of a path, and, unless it is absent or
/// `null`, a text `template`. Other fields are passed over.
pub open spec fn file_of_json(json: JsonView) -> Result<FileView, SchemaParseError> {
    match json {
        JsonView::Object(fields) => match member(fields, "name"@) {
            None => Err(SchemaParseError::MissingName),
            Some(JsonView::Text(name)) => if !is_segment(name) {
                Err(SchemaParseError::NameNotSegment)
            } else {
                match member(fields, "template"@) {
                    None => Ok(FileView { name, template: None }),
                    Some(JsonView::Null) => Ok(FileView { name, template: None }),
                    Some(JsonView::Text(key)) => Ok(FileView { name, template: Some(key) }),
                    Some(_) => Err(SchemaParseError::TemplateNotText),
                }
            },
            Some(_) => Err(SchemaParseError::NameNotText),
        },
        _ => Err(SchemaParseError::NotAnObject),
    }
}

/// Whether the name of each of `files` is a single segment of a path.
pub open spec fn files_well_formed(files: Seq<FileView>) -> bool {
    forall|i: int| 0 <= i < files.len() ==> is_segment((#[trigger] files[i]).name)
}

/// The files that are read from JSON have names that are single segments.
pub proof fn lemma_files_well_formed(items: Seq<JsonView>, n: int)
    ensures
        files_of_json(items, n) matches Ok(files) ==> files_well_formed(files),
    decreases n,
{
    if 0 < n <= items.len() {
        lemma_files_well_formed(items, n - 1);
    }
}

/// The files that the first `n` of the JSON values `items` describe, or the
/// first error among them.
pub open spec fn files_of_json(items: Seq<JsonView>, n: int) -> Result<
    Seq<FileView>,
    SchemaParseError,
>
    decreases n,
{
    if n <= 0 || n > items.len() {
        Ok(Seq::empty())
    } else {
        match files_of_json(items, n - 1) {
            Err(error) => Err(error),
            Ok(files) => match file_of_json(items[n - 1]) {
                Err(error) => Err(error),
                Ok(file) => Ok(files.push(file)),
            },
        }
    }
}

/// The files that the JSON value of a folder's `files` describes: none where
/// it is absent or `null`, one for each item where it is an array.
pub open spec fn files_of_member(value: Option<JsonView>) -> Result<Seq<FileView>, SchemaParseError> {
    match value {
        None => Ok(Seq::empty()),
        Some(JsonView::Null) => Ok(Seq::empty()),
        Some(JsonView::Array(items)) => files_of_json(items, items.len() as int),
        Some(_) => Err(SchemaParseError::FilesNotArray),
    }
}

impl File {
    /// Reads a file from the JSON value that describes it.
    pub fn from_json(json: &Json) -> (result: Result<File, SchemaParseError>)
        ensures
            match result {
                Ok(file) => file_of_json(json@) == Ok::<FileView, SchemaParseError>(file@),
                Err(e) => file_of_json(json@) == Err::<FileView, SchemaParseError>(e),
            },
    {
        match json {
            Json::Object(fields) => {
                let name = match json.field_index("name") {
                    None => {
                        return Err(SchemaParseError::MissingName);
                    },
                    Some(at) => match &fields[at].value {
                        Json::Text(name) => name.clone(),
                        _ => {
                            return Err(SchemaParseError::NameNotText);
                        },
                    },
                };
                if !check_segment(name.as_str()) {
                    return Err(SchemaParseError::NameNotSegment);
                }
                let template = match json.field_index("template") {
                    None => None,
                    Some(at) => match &fields[at].value {
                        Json::Null => None,
                        Json::Text(key) => Some(key.clone()),
                        _ => {
                            return Err(SchemaParseError::TemplateNotText);
                        },
                    },
                };
                Ok(File { name, template })
            },
            _ => Err(SchemaParseError::NotAnObject),
        }
    }

    /// Reports the file at its place below `out_dir` to `fn_create` and
    /// returns its path, or the error with which `fn_create` refused it.
    pub fn create_at<E, F: Fn(&PathKind) -> Result<(), E>>(
        &self,
        out_dir: &str,
        fn_create: &F,
    ) -> (result: Result<String, E>)
        requires
            forall|kind: PathKind| call_requires(fn_create, (&kind,)),
        ensures
            match result {
                Ok(path) => path@ == path_join(out_dir@, self@.name) && accepted(
                    fn_create,
                    self@.event(out_dir@),
                ),
                Err(error) => refused(fn_create, self@.event(out_dir@), error),
            },
    {
        let path = join(out_dir, self.name.as_str());
        let path_type = PathKind::File {
            path: path.clone(),
            template_file: clone_option_text(&self.template),
        };
        let outcome = fn_create(&path_type);
        assert(path_type@ == self@.event(out_dir@) && call_ensures(
            fn_create,
            (&path_type,),
            outcome,
        ));
        match outcome {
            Ok(_) => Ok(path),
            Err(error) => Err(error),
        }
    }
}

} // verus!
