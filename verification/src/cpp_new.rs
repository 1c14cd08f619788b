//! The tree generator: a project is described as a tree of folders and
//! files, and generated by walking that tree.

pub mod file;
pub mod folder;

use crate::decimal::{decimal, int_text};
use crate::error::{GenError, PlanError, PlanErrorView, outcome_of};
use crate::materialize::{
    DeclaredFiles,
    Decision,
    Disk,
    GeneratedPath,
    GeneratedPathView,
    MemoryDisk,
    Step,
    after_all,
    carried_out,
    creatable_paths,
    decisions,
    lemma_no_clobber,
    lemma_second_run,
    materialize,
    plan_view,
};
use crate::naming::{conform, conformed};
use crate::render::{EngineContext, EngineContextView, renders};
use crate::templates::{Templates, resolved};
use crate::text::option_text;
use crate::vars::{VarSeq, Variables, distinct_names, has_name, inserted, lemma_inserted, value_of};
use crate::RootDir;
use folder::{Folder, FolderView, folder_of_text};
use vstd::prelude::*;

verus! {

/// A node of the project tree at its place in the output.
#[derive(Debug)]
pub enum PathKind {
    File { path: String, template_file: Option<String> },
    Folder { path: String },
}

/// What a [`PathKind`] holds.
pub enum PathKindView {
    File { path: Seq<char>, template_file: Option<Seq<char>> },
    Folder { path: Seq<char> },
}

impl View for PathKind {
    type V = PathKindView;

    open spec fn view(&self) -> PathKindView {
        match *self {
            PathKind::File { path, template_file } => PathKindView::File {
                path: path@,
                template_file: option_text(template_file),
            },
            PathKind::Folder { path } => PathKindView::Folder { path: path@ },
        }
    }
}

impl PathKindView {
    /// The path of the node.
    pub open spec fn path(self) -> Seq<char> {
        match self {
            PathKindView::File { path, .. } => path,
            PathKindView::Folder { path } => path,
        }
    }
}

/// The views of `kinds`, in order.
pub open spec fn path_kinds_view(kinds: Seq<PathKind>) -> Seq<PathKindView> {
    kinds.map_values(|kind: PathKind| kind@)
}

/// Whether `f` may accept a node that holds `event`.
pub open spec fn accepted<E, F: Fn(&PathKind) -> Result<(), E>>(f: &F, event: PathKindView) -> bool {
    exists|kind: PathKind, outcome: Result<(), E>|
        kind@ == event && outcome is Ok && call_ensures(f, (&kind,), outcome)
}

/// Whether `f` may refuse a node that holds `event` with `error`.
pub open spec fn refused<E, F: Fn(&PathKind) -> Result<(), E>>(
    f: &F,
    event: PathKindView,
    error: E,
) -> bool {
    exists|kind: PathKind, outcome: Result<(), E>|
        kind@ == event && outcome == Err::<(), E>(error) && call_ensures(f, (&kind,), outcome)
}

/// What it means to report `events` to `f` one after the other and to stop
/// at the first that `f` refuses: on success `f` has accepted them all; on
/// failure it has accepted those before one that it refused with the error
/// that is returned.
pub open spec fn reported<E, F: Fn(&PathKind) -> Result<(), E>>(
    f: &F,
    events: Seq<PathKindView>,
    result: Result<(), E>,
) -> bool {
    match result {
        Ok(_) => forall|i: int| 0 <= i < events.len() ==> accepted(f, #[trigger] events[i]),
        Err(error) => exists|k: int|
            0 <= k < events.len() && refused(f, #[trigger] events[k], error) && forall|i: int|
                0 <= i < k ==> accepted(f, #[trigger] events[i]),
    }
}

/// Reports `events` to `f` one after the other and stops at the first that
/// `f` refuses.
pub fn report_all<E, F: Fn(&PathKind) -> Result<(), E>>(events: &Vec<PathKind>, f: &F) -> (result:
    Result<(), E>)
    requires
        forall|kind: PathKind| call_requires(f, (&kind,)),
    ensures
        reported(f, path_kinds_view(events@), result),
{
    let mut i: usize = 0;
    while i < events.len()
        invariant
            i <= events.len(),
            forall|kind: PathKind| call_requires(f, (&kind,)),
            forall|j: int| 0 <= j < i ==> accepted(f, #[trigger] path_kinds_view(events@)[j]),
        decreases events.len() - i,
    {
        let outcome = f(&events[i]);
        assert(call_ensures(f, (&events@[i as int],), outcome));
        match outcome {
            Ok(_) => {
                assert(accepted(f, path_kinds_view(events@)[i as int]));
            },
            Err(error) => {
                assert(refused(f, path_kinds_view(events@)[i as int], error));
                return Err(error);
            },
        }
        i += 1;
    }
    Ok(())
}

/// Why a JSON document does not describe a project tree.
#[derive(Debug, Clone, Copy, PartialEq, Eq, Structural)]
pub enum SchemaParseError {
    /// The text is not JSON.
    Syntax,
    /// A folder or a file is not a JSON object.
    NotAnObject,
    /// A folder or a file has no `name`.
    MissingName,
    /// A `name` is not text.
    NameNotText,
    /// A `name` is empty or holds a path separator.
    NameNotSegment,
    /// A file's `template` is neither text nor `null`.
    TemplateNotText,
    /// A folder's `folders` is neither an array nor `null`.
    FoldersNotArray,
    /// A folder's `files` is neither an array nor `null`.
    FilesNotArray,
}

/// The key of the template that describes the project tree.
pub const PROJECT_STRUCTURE_TEMPLATE: &'static str = "project_structure.json";

/// What a project is generated from: the conforming names of its domain and
/// of its target, and the directory below which it goes.
#[derive(Debug, Clone)]
pub struct NewOptions {
    out_dir: Option<String>,
    domain_name: String,
    target_name: String,
    declared_files: DeclaredFiles,
}

/// What a [`NewOptions`] holds.
pub struct NewOptionsView {
    pub out_dir: Option<Seq<char>>,
    pub domain_name: Seq<char>,
    pub target_name: Seq<char>,
    pub declared_files: DeclaredFiles,
}

impl View for NewOptions {
    type V = NewOptionsView;

    closed spec fn view(&self) -> NewOptionsView {
        NewOptionsView {
            out_dir: option_text(self.out_dir),
            domain_name: self.domain_name@,
            target_name: self.target_name@,
            declared_files: self.declared_files,
        }
    }
}

impl NewOptionsView {
    /// The directory below which the project goes: the output directory, or
    /// `current_dir` where there is none.
    pub open spec fn out_dir_or(self, current_dir: Seq<char>) -> Seq<char> {
        match self.out_dir {
            Some(out_dir) => out_dir,
            None => current_dir,
        }
    }

    /// The name of the project: `domain_name-target_name`.
    pub open spec fn project_name(self) -> Seq<char> {
        self.domain_name + "-"@ + self.target_name
    }

    /// The variables that the templates of the project see, in the year
    /// `year`.
    pub open spec fn context(self, year: int) -> VarSeq {
        inserted(
            inserted(
                inserted(
                    inserted(
                        inserted(
                            inserted(
                                inserted(
                                    inserted(
                                        inserted(
                                            VarSeq::empty(),
                                            "target_name"@,
                                            self.target_name,
                                        ),
                                        "domain_name"@,
                                        self.domain_name,
                                    ),
                                    "project_name"@,
                                    self.project_name(),
                                ),
                                "cmake_minimum_version"@,
                                "3.19.0"@,
                            ),
                            "year"@,
                            decimal(year),
                        ),
                        "external_dir_name"@,
                        RootDir::External.name(),
                    ),
                    "include_dir_name"@,
                    RootDir::Include.name(),
                ),
                "source_dir_name"@,
                RootDir::Source.name(),
            ),
            "test_dir_name"@,
            RootDir::Test.name(),
        )
    }
}

/// The variable `project_name` is the domain's name, a hyphen and the
/// target's name, whatever the year.
pub proof fn lemma_context_project_name(options: NewOptionsView, year: int)
    ensures
        distinct_names(options.context(year)),
        value_of(options.context(year), "project_name"@) == Some(
            options.domain_name + "-"@ + options.target_name,
        ),
{
    reveal_strlit("target_name");
    reveal_strlit("domain_name");
    reveal_strlit("project_name");
    reveal_strlit("cmake_minimum_version");
    reveal_strlit("year");
    reveal_strlit("external_dir_name");
    reveal_strlit("include_dir_name");
    reveal_strlit("source_dir_name");
    reveal_strlit("test_dir_name");
    let wanted = "project_name"@;
    assert(wanted.len() == 12);
    assert("target_name"@.len() == 11);
    assert("domain_name"@.len() == 11);
    assert("cmake_minimum_version"@.len() == 21);
    assert("year"@.len() == 4);
    assert("external_dir_name"@.len() == 17);
    assert("include_dir_name"@.len() == 16);
    assert("source_dir_name"@.len() == 15);
    assert("test_dir_name"@.len() == 13);
    let v0 = VarSeq::empty();
    let v1 = inserted(v0, "target_name"@, options.target_name);
    let v2 = inserted(v1, "domain_name"@, options.domain_name);
    let v3 = inserted(v2, wanted, options.project_name());
    let v4 = inserted(v3, "cmake_minimum_version"@, "3.19.0"@);
    let v5 = inserted(v4, "year"@, decimal(year));
    let v6 = inserted(v5, "external_dir_name"@, RootDir::External.name());
    let v7 = inserted(v6, "include_dir_name"@, RootDir::Include.name());
    let v8 = inserted(v7, "source_dir_name"@, RootDir::Source.name());
    lemma_inserted(v0, "target_name"@, options.target_name, wanted);
    lemma_inserted(v1, "domain_name"@, options.domain_name, wanted);
    lemma_inserted(v2, wanted, options.project_name(), wanted);
    lemma_inserted(v3, "cmake_minimum_version"@, "3.19.0"@, wanted);
    lemma_inserted(v4, "year"@, decimal(year), wanted);
    lemma_inserted(v5, "external_dir_name"@, RootDir::External.name(), wanted);
    lemma_inserted(v6, "include_dir_name"@, RootDir::Include.name(), wanted);
    lemma_inserted(v7, "source_dir_name"@, RootDir::Source.name(), wanted);
    lemma_inserted(v8, "test_dir_name"@, RootDir::Test.name(), wanted);
}

/// The name under which the engine sees the variables, as one object.
pub const CONFIG_OBJECT: &'static str = "config";

/// The name under which the engine sees the flag that asks for a test
/// application.
pub const TEST_APP_FLAG: &'static str = "with_test_app";

impl NewOptionsView {
    /// What the engine is given besides a template, in the year `year`: the
    /// variables as the object `config`, and the flag `with_test_app`, which
    /// is set.
    pub open spec fn tera_context(self, year: int) -> EngineContextView {
        EngineContextView {
            object: CONFIG_OBJECT@,
            variables: self.context(year),
            flag: TEST_APP_FLAG@,
            enabled: true,
        }
    }
}

/// The view of the result of reading a project tree.
pub open spec fn tree_result_view(result: Result<Folder, PlanError>) -> Result<
    FolderView,
    PlanErrorView,
> {
    match result {
        Ok(folder) => Ok(folder@),
        Err(error) => Err(error@),
    }
}

/// The view of the result of generating for one node.
pub open spec fn generated_result_view(result: Result<GeneratedPath, PlanError>) -> Result<
    GeneratedPathView,
    PlanErrorView,
> {
    match result {
        Ok(generated) => Ok(generated@),
        Err(error) => Err(error@),
    }
}

/// The view of the result of planning.
pub open spec fn plan_result_view(result: Result<Vec<GeneratedPath>, PlanError>) -> Result<
    Seq<GeneratedPathView>,
    PlanErrorView,
> {
    match result {
        Ok(plan) => Ok(plan_view(plan@)),
        Err(error) => Err(error@),
    }
}

/// The project tree that the engine's answer for the template under `key`
/// describes: the tree that the rendered text holds as JSON, or the engine's
/// failure where it gave no text.
pub open spec fn tree_of_rendered(key: Seq<char>, rendered: Option<Seq<char>>) -> Result<
    FolderView,
    PlanErrorView,
> {
    match rendered {
        None => Err(PlanErrorView::TemplateRender { key }),
        Some(text) => match folder_of_text(text) {
            Ok(folder) => Ok(folder),
            Err(fault) => Err(PlanErrorView::SchemaParseError { fault }),
        },
    }
}

/// What is generated for the file at `path` from the engine's answer for the
/// template under `key`: the file with the rendered text as its content, or
/// the engine's failure where it gave no text.
pub open spec fn file_of_rendered(path: Seq<char>, key: Seq<char>, rendered: Option<Seq<char>>) -> Result<
    GeneratedPathView,
    PlanErrorView,
> {
    match rendered {
        Some(text) => Ok(GeneratedPathView::File { path, content: Some(text) }),
        None => Err(PlanErrorView::TemplateRender { key }),
    }
}

/// Whether `result` is what generating for the node `event` may give: the
/// folder; the file with the content of a declared file where it refers to
/// no template; the error that the template is missing where it refers to
/// one that is not among `templates`; and otherwise what follows from an
/// answer that `render` may give for the template with `context`.
pub open spec fn node_generated<R: Fn(&String, &EngineContext) -> Option<String>>(
    render: &R,
    event: PathKindView,
    templates: VarSeq,
    context: EngineContextView,
    declared_files: DeclaredFiles,
    result: Result<GeneratedPathView, PlanErrorView>,
) -> bool {
    match event {
        PathKindView::Folder { path } => result == Ok::<GeneratedPathView, PlanErrorView>(
            GeneratedPathView::Folder { path },
        ),
        PathKindView::File { path, template_file: None } => result == Ok::<
            GeneratedPathView,
            PlanErrorView,
        >(GeneratedPathView::File { path, content: declared_files.content() }),
        PathKindView::File { path, template_file: Some(key) } => match resolved(templates, key) {
            Err(missing) => result == Err::<GeneratedPathView, PlanErrorView>(missing),
            Ok(template) => exists|rendered: Option<Seq<char>>|
                #[trigger] renders(render, template, context, rendered) && result
                    == file_of_rendered(path, key, rendered),
        },
    }
}

/// The key of the first among the first `n` nodes of `events` that refers
/// to a template that is not among `templates`.
pub open spec fn first_missing(events: Seq<PathKindView>, templates: VarSeq, n: int) -> Option<
    Seq<char>,
>
    decreases n,
{
    if n <= 0 || n > events.len() {
        None
    } else {
        match first_missing(events, templates, n - 1) {
            Some(key) => Some(key),
            None => match events[n - 1] {
                PathKindView::File { template_file: Some(key), .. } => if has_name(
                    templates,
                    key,
                ) {
                    None
                } else {
                    Some(key)
                },
                _ => None,
            },
        }
    }
}

/// A template that is missing among the first `n` nodes is the first that
/// is missing in any longer list.
pub proof fn lemma_first_missing(events: Seq<PathKindView>, templates: VarSeq, n: int, m: int)
    requires
        0 <= n <= m <= events.len(),
        first_missing(events, templates, n) is Some,
    ensures
        first_missing(events, templates, m) == first_missing(events, templates, n),
    decreases m - n,
{
    if n < m {
        lemma_first_missing(events, templates, n, m - 1);
    }
}

/// Where no template is missing among the first `n` nodes, each of them
/// that refers to a template refers to one that is among `templates`.
pub proof fn lemma_none_missing(events: Seq<PathKindView>, templates: VarSeq, n: int, i: int)
    requires
        0 <= i < n <= events.len(),
        first_missing(events, templates, n) is None,
    ensures
        events[i] matches PathKindView::File { template_file: Some(key), .. } ==> has_name(
            templates,
            key,
        ),
    decreases n,
{
    if i < n - 1 {
        lemma_none_missing(events, templates, n - 1, i);
    }
}

/// Whether no node of `events` refers to a template.
pub open spec fn no_templates(events: Seq<PathKindView>) -> bool {
    forall|i: int|
        0 <= i < events.len() ==> !((#[trigger] events[i]) matches PathKindView::File {
            template_file: Some(_),
            ..
        })
}

/// Whether `result` is what planning for the nodes `events` may give. Where
/// a node refers to a template that is not among `templates`, it is the
/// error that the first such template is missing, whatever the engine does.
/// Otherwise it is a plan that holds for each node what generating for it
/// may give, or the error that generating for one of them may give.
pub open spec fn planned<R: Fn(&String, &EngineContext) -> Option<String>>(
    render: &R,
    events: Seq<PathKindView>,
    templates: VarSeq,
    context: EngineContextView,
    declared_files: DeclaredFiles,
    result: Result<Seq<GeneratedPathView>, PlanErrorView>,
) -> bool {
    match first_missing(events, templates, events.len() as int) {
        Some(key) => result == Err::<Seq<GeneratedPathView>, PlanErrorView>(
            PlanErrorView::TemplateNotFound { key },
        ),
        None => match result {
            Ok(plan) => {
                &&& plan.len() == events.len()
                &&& forall|i: int|
                    0 <= i < plan.len() ==> node_generated(
                        render,
                        events[i],
                        templates,
                        context,
                        declared_files,
                        Ok::<GeneratedPathView, PlanErrorView>(#[trigger] plan[i]),
                    )
            },
            Err(error) => exists|i: int|
                0 <= i < events.len() && node_generated(
                    render,
                    #[trigger] events[i],
                    templates,
                    context,
                    declared_files,
                    Err::<GeneratedPathView, PlanErrorView>(error),
                ),
        },
    }
}

/// What a plan holds for a node is fixed but for the content that the
/// engine rendered: the path is that of the node, and there is something to
/// create unless the node is a file that is declared only and skipped.
pub proof fn lemma_planned_node<R: Fn(&String, &EngineContext) -> Option<String>>(
    render: &R,
    events: Seq<PathKindView>,
    templates: VarSeq,
    context: EngineContextView,
    declared_files: DeclaredFiles,
    plan: Seq<GeneratedPathView>,
    i: int,
)
    requires
        planned(
            render,
            events,
            templates,
            context,
            declared_files,
            Ok::<Seq<GeneratedPathView>, PlanErrorView>(plan),
        ),
        0 <= i < events.len(),
    ensures
        plan.len() == events.len(),
        plan[i].path() == events[i].path(),
        plan[i].creatable() <==> !(events[i] matches PathKindView::File {
            template_file: None,
            ..
        } && declared_files == DeclaredFiles::Skip),
{
    assert(node_generated(
        render,
        events[i],
        templates,
        context,
        declared_files,
        Ok::<GeneratedPathView, PlanErrorView>(plan[i]),
    ));
    lemma_none_missing(events, templates, events.len() as int, i);
}

/// Two plans for the same nodes name the same paths to create, whatever the
/// engine answered for each.
pub proof fn lemma_planned_paths<
    R1: Fn(&String, &EngineContext) -> Option<String>,
    R2: Fn(&String, &EngineContext) -> Option<String>,
>(
    first_render: &R1,
    second_render: &R2,
    events: Seq<PathKindView>,
    templates: VarSeq,
    first_context: EngineContextView,
    second_context: EngineContextView,
    declared_files: DeclaredFiles,
    first: Seq<GeneratedPathView>,
    second: Seq<GeneratedPathView>,
)
    requires
        planned(
            first_render,
            events,
            templates,
            first_context,
            declared_files,
            Ok::<Seq<GeneratedPathView>, PlanErrorView>(first),
        ),
        planned(
            second_render,
            events,
            templates,
            second_context,
            declared_files,
            Ok::<Seq<GeneratedPathView>, PlanErrorView>(second),
        ),
    ensures
        creatable_paths(second) == creatable_paths(first),
{
    assert forall|path: Seq<char>| creatable_paths(second).contains(path)
        <==> creatable_paths(first).contains(path) by {
        if creatable_paths(second).contains(path) {
            let i = choose|i: int|
                0 <= i < second.len() && (#[trigger] second[i]).creatable() && second[i].path()
                    == path;
            lemma_planned_node(
                second_render,
                events,
                templates,
                second_context,
                declared_files,
                second,
                i,
            );
            lemma_planned_node(first_render, events, templates, first_context, declared_files, first, i);
            assert(first[i].creatable() && first[i].path() == path);
        }
        if creatable_paths(first).contains(path) {
            let i = choose|i: int|
                0 <= i < first.len() && (#[trigger] first[i]).creatable() && first[i].path()
                    == path;
            lemma_planned_node(first_render, events, templates, first_context, declared_files, first, i);
            lemma_planned_node(
                second_render,
                events,
                templates,
                second_context,
                declared_files,
                second,
                i,
            );
            assert(second[i].creatable() && second[i].path() == path);
        }
    }
    assert(creatable_paths(second) =~= creatable_paths(first));
}

/// Generating a tree twice is generating it once. Where a plan for the
/// nodes `events` has been carried out on `disk`, carrying out any plan for
/// the same nodes, from the same templates, leaves the disk as the first run
/// left it, decides to create nothing, and finds every path for which there
/// is something to create to exist, whatever the engine answered in either
/// run.
pub proof fn lemma_generated_twice<
    R1: Fn(&String, &EngineContext) -> Option<String>,
    R2: Fn(&String, &EngineContext) -> Option<String>,
>(
    first_render: &R1,
    second_render: &R2,
    events: Seq<PathKindView>,
    templates: VarSeq,
    first_context: EngineContextView,
    second_context: EngineContextView,
    declared_files: DeclaredFiles,
    first: Seq<GeneratedPathView>,
    second: Seq<GeneratedPathView>,
    disk: Disk,
)
    requires
        planned(
            first_render,
            events,
            templates,
            first_context,
            declared_files,
            Ok::<Seq<GeneratedPathView>, PlanErrorView>(first),
        ),
        planned(
            second_render,
            events,
            templates,
            second_context,
            declared_files,
            Ok::<Seq<GeneratedPathView>, PlanErrorView>(second),
        ),
    ensures
        after_all(after_all(disk, first), second) == after_all(disk, first),
        forall|i: int|
            0 <= i < second.len() ==> (#[trigger] decisions(after_all(disk, first), second)[i])
                != Decision::Create,
        forall|i: int|
            0 <= i < second.len() && second[i].creatable() ==> (#[trigger] decisions(
                after_all(disk, first),
                second,
            )[i]) == Decision::Exists,
{
    lemma_planned_paths(
        first_render,
        second_render,
        events,
        templates,
        first_context,
        second_context,
        declared_files,
        first,
        second,
    );
    lemma_second_run(disk, first, second);
}

/// Whether `result` is what generating for the nodes `events` may give:
/// the error of planning where planning may fail with it, and otherwise the
/// result of carrying out a plan that planning may give.
pub open spec fn materialized<
    E,
    R: Fn(&String, &EngineContext) -> Option<String>,
    P: Fn(&String) -> bool,
    F: Fn(&Step) -> Result<(), E>,
>(
    render: &R,
    probe: &P,
    on_path: &F,
    events: Seq<PathKindView>,
    templates: VarSeq,
    context: EngineContextView,
    declared_files: DeclaredFiles,
    result: Result<(), GenError<E>>,
) -> bool {
    match outcome_of(result) {
        Some(outcome) => exists|plan: Seq<GeneratedPath>|
            #[trigger] carried_out(probe, on_path, plan, outcome) && planned(
                render,
                events,
                templates,
                context,
                declared_files,
                Ok::<Seq<GeneratedPathView>, PlanErrorView>(plan_view(plan)),
            ),
        None => result matches Err(failure) && failure.plan_error() matches Some(error) && planned(
            render,
            events,
            templates,
            context,
            declared_files,
            Err::<Seq<GeneratedPathView>, PlanErrorView>(error),
        ),
    }
}

/// Whether `result` is what generating the project may give where the
/// engine answers `rendered` for the template of the project tree: the
/// error that the answer stands for where it describes no tree, and
/// otherwise what generating for the nodes of the tree that it describes
/// may give.
pub open spec fn generated_from<
    E,
    R: Fn(&String, &EngineContext) -> Option<String>,
    P: Fn(&String) -> bool,
    F: Fn(&Step) -> Result<(), E>,
>(
    render: &R,
    probe: &P,
    on_path: &F,
    rendered: Option<Seq<char>>,
    out_dir: Seq<char>,
    templates: VarSeq,
    context: EngineContextView,
    declared_files: DeclaredFiles,
    result: Result<(), GenError<E>>,
) -> bool {
    match tree_of_rendered(PROJECT_STRUCTURE_TEMPLATE@, rendered) {
        Err(error) => result matches Err(failure) && failure.plan_error() == Some(error),
        Ok(folder) => materialized(
            render,
            probe,
            on_path,
            folder.walk(out_dir),
            templates,
            context,
            declared_files,
            result,
        ),
    }
}

impl NewOptions {
    /// Options for the project of `target_name` in `domain_name`. Both names
    /// are made conforming. A file that is declared only is skipped.
    pub fn new(domain_name: String, target_name: String, out_dir: Option<String>) -> (options: Self)
        ensures
            options@ == (NewOptionsView {
                out_dir: option_text(out_dir),
                domain_name: conformed(domain_name@),
                target_name: conformed(target_name@),
                declared_files: DeclaredFiles::Skip,
            }),
    {
        Self {
            out_dir,
            domain_name: conform(domain_name.as_str()),
            target_name: conform(target_name.as_str()),
            declared_files: DeclaredFiles::Skip,
        }
    }

    /// Sets what becomes of a file that is declared only.
    pub fn set_declared_files(self, declared_files: DeclaredFiles) -> (options: Self)
        ensures
            options@ == (NewOptionsView { declared_files, ..self@ }),
    {
        let mut options = self;
        options.declared_files = declared_files;
        options
    }

    /// The variables that the templates of the project see, in the year
    /// `year`.
    pub fn context_in(&self, year: i32) -> (context: Variables)
        ensures
            context.wf(),
            context@ == self@.context(year as int),
    {
        proof {
            reveal_strlit("target_name");
            reveal_strlit("domain_name");
            reveal_strlit("project_name");
            reveal_strlit("cmake_minimum_version");
            reveal_strlit("year");
            reveal_strlit("external_dir_name");
            reveal_strlit("include_dir_name");
            reveal_strlit("source_dir_name");
            reveal_strlit("test_dir_name");
        }
        let mut project_name = self.domain_name.clone();
        project_name.append("-");
        project_name.append(self.target_name.as_str());
        let mut config = Variables::new();
        config.insert("target_name", self.target_name.clone());
        config.insert("domain_name", self.domain_name.clone());
        config.insert("project_name", project_name);
        config.insert("cmake_minimum_version", "3.19.0".to_owned());
        config.insert("year", int_text(year));
        config.insert("external_dir_name", RootDir::External.to_string().to_owned());
        config.insert("include_dir_name", RootDir::Include.to_string().to_owned());
        config.insert("source_dir_name", RootDir::Source.to_string().to_owned());
        config.insert("test_dir_name", RootDir::Test.to_string().to_owned());
        config
    }

    /// What the engine is given besides a template, in the year `year`: the
    /// variables of that year as the object `config`, and the flag
    /// `with_test_app`, which is set.
    pub fn new_tera_context(&self, year: i32) -> (context: EngineContext)
        ensures
            context.variables.wf(),
            context@ == self@.tera_context(year as int),
    {
        EngineContext {
            object: CONFIG_OBJECT.to_owned(),
            variables: self.context_in(year),
            flag: TEST_APP_FLAG.to_owned(),
            enabled: true,
        }
    }

    /// The text of the template under the key `template_file`; fails where
    /// there is none.
    pub fn template_file_content<'a>(templates: &'a Templates, template_file: &String) -> (result:
        Result<&'a String, PlanError>)
        requires
            templates.wf(),
        ensures
            match result {
                Ok(text) => resolved(templates@, template_file@) == Ok::<Seq<char>, PlanErrorView>(
                    text@,
                ),
                Err(error) => resolved(templates@, template_file@) == Err::<
                    Seq<char>,
                    PlanErrorView,
                >(error@),
            },
    {
        templates.resolve(template_file.as_str())
    }

    /// The project tree that the engine's answer for the template under
    /// `key` describes.
    pub fn folder_of_rendered(key: &str, rendered: Option<String>) -> (result: Result<
        Folder,
        PlanError,
    >)
        ensures
            tree_result_view(result) == tree_of_rendered(key@, option_text(rendered)),
    {
        match rendered {
            None => Err(PlanError::TemplateRender { key: key.to_owned() }),
            Some(text) => match Folder::parse(text.as_str()) {
                Ok(folder) => Ok(folder),
                Err(fault) => Err(PlanError::SchemaParseError { fault }),
            },
        }
    }

    /// Reads the project tree: has `render` render the template that
    /// describes it with `context` and reads the answer as JSON. Fails where
    /// the template is missing, where `render` gives no text, and where the
    /// text describes no tree.
    pub fn parse_json_proj_struct<R: Fn(&String, &EngineContext) -> Option<String>>(
        &self,
        templates: &Templates,
        context: &EngineContext,
        render: &R,
    ) -> (result: Result<Folder, PlanError>)
        requires
            templates.wf(),
            forall|template: &String, given: &EngineContext|
                call_requires(render, (template, given)),
        ensures
            match resolved(templates@, PROJECT_STRUCTURE_TEMPLATE@) {
                Err(missing) => tree_result_view(result) == Err::<FolderView, PlanErrorView>(
                    missing,
                ),
                Ok(template) => exists|rendered: Option<Seq<char>>|
                    #[trigger] renders(render, template, context@, rendered) && tree_result_view(
                        result,
                    ) == tree_of_rendered(PROJECT_STRUCTURE_TEMPLATE@, rendered),
            },
    {
        let template_content = match templates.resolve(PROJECT_STRUCTURE_TEMPLATE) {
            Ok(text) => text,
            Err(error) => {
                return Err(error);
            },
        };
        let rendered = render(template_content, context);
        let ghost answer = option_text(rendered);
        let result = Self::folder_of_rendered(PROJECT_STRUCTURE_TEMPLATE, rendered);
        let ghost found = resolved(templates@, PROJECT_STRUCTURE_TEMPLATE@);
        assert(renders(render, found->Ok_0, context@, answer));
        assert(exists|r: Option<Seq<char>>|
            #[trigger] renders(render, found->Ok_0, context@, r) && tree_result_view(result)
                == tree_of_rendered(PROJECT_STRUCTURE_TEMPLATE@, r));
        result
    }

    /// What is generated for the file at `path` from the engine's answer for
    /// the template under `key`.
    pub fn file_of_rendered(path: &String, key: &str, rendered: Option<String>) -> (result: Result<
        GeneratedPath,
        PlanError,
    >)
        ensures
            generated_result_view(result) == file_of_rendered(path@, key@, option_text(rendered)),
    {
        match rendered {
            Some(text) => Ok(GeneratedPath::File { path: path.clone(), content: Some(text) }),
            None => Err(PlanError::TemplateRender { key: key.to_owned() }),
        }
    }

    /// What is generated for the node `event`: the folder; or the file, with
    /// what `render` makes of the template that it refers to, with the
    /// content of a declared file where it refers to none.
    pub fn generate<R: Fn(&String, &EngineContext) -> Option<String>>(
        &self,
        event: &PathKind,
        templates: &Templates,
        context: &EngineContext,
        render: &R,
    ) -> (result: Result<GeneratedPath, PlanError>)
        requires
            templates.wf(),
            forall|template: &String, given: &EngineContext|
                call_requires(render, (template, given)),
        ensures
            node_generated(
                render,
                event@,
                templates@,
                context@,
                self@.declared_files,
                generated_result_view(result),
            ),
    {
        match event {
            PathKind::Folder { path } => Ok(GeneratedPath::Folder { path: path.clone() }),
            PathKind::File { path, template_file: None } => Ok(
                GeneratedPath::File {
                    path: path.clone(),
                    content: self.declared_files.declared_content(),
                },
            ),
            PathKind::File { path, template_file: Some(key) } => {
                let content = match Self::template_file_content(templates, key) {
                    Ok(text) => text,
                    Err(error) => {
                        return Err(error);
                    },
                };
                let rendered = render(content, context);
                let ghost answer = option_text(rendered);
                let result = Self::file_of_rendered(path, key.as_str(), rendered);
                let ghost found = resolved(templates@, key@);
                assert(renders(render, found->Ok_0, context@, answer));
                assert(exists|r: Option<Seq<char>>|
                    #[trigger] renders(render, found->Ok_0, context@, r) && generated_result_view(
                        result,
                    ) == file_of_rendered(path@, key@, r));
                result
            },
        }
    }

    /// What is generated for the tree `folder` below `out_dir`: every node
    /// at its place, folders before what is in them. Every template that the
    /// tree refers to is looked up before the first is rendered: where one is
    /// missing, that is the error, and `render` is not called.
    #[verifier::loop_isolation(false)]
    pub fn plan<R: Fn(&String, &EngineContext) -> Option<String>>(
        &self,
        folder: &Folder,
        out_dir: &str,
        templates: &Templates,
        context: &EngineContext,
        render: &R,
    ) -> (result: Result<Vec<GeneratedPath>, PlanError>)
        requires
            templates.wf(),
            forall|template: &String, given: &EngineContext|
                call_requires(render, (template, given)),
        ensures
            planned(
                render,
                folder@.walk(out_dir@),
                templates@,
                context@,
                self@.declared_files,
                plan_result_view(result),
            ),
            no_templates(folder@.walk(out_dir@)) ==> result is Ok,
    {
        let events = folder.walk(out_dir);
        let ghost walk = folder@.walk(out_dir@);
        let mut i: usize = 0;
        while i < events.len()
            invariant
                i <= events.len(),
                first_missing(walk, templates@, i as int) is None,
            decreases events.len() - i,
        {
            assert(walk[i as int] == events@[i as int]@);
            if let PathKind::File { template_file: Some(key), .. } = &events[i] {
                if let Err(error) = templates.resolve(key.as_str()) {
                    proof {
                        lemma_first_missing(walk, templates@, i + 1, walk.len() as int);
                    }
                    return Err(error);
                }
            }
            i += 1;
        }
        let mut plan: Vec<GeneratedPath> = Vec::new();
        let mut i: usize = 0;
        while i < events.len()
            invariant
                i <= events.len(),
                plan@.len() == i,
                forall|j: int|
                    0 <= j < i ==> node_generated(
                        render,
                        walk[j],
                        templates@,
                        context@,
                        self@.declared_files,
                        Ok::<GeneratedPathView, PlanErrorView>((#[trigger] plan@[j])@),
                    ),
            decreases events.len() - i,
        {
            assert(walk[i as int] == events@[i as int]@);
            match self.generate(&events[i], templates, context, render) {
                Ok(generated) => {
                    plan.push(generated);
                },
                Err(error) => {
                    assert(node_generated(
                        render,
                        walk[i as int],
                        templates@,
                        context@,
                        self@.declared_files,
                        Err::<GeneratedPathView, PlanErrorView>(error@),
                    ));
                    return Err(error);
                },
            }
            i += 1;
        }
        assert forall|j: int| 0 <= j < plan_view(plan@).len() implies node_generated(
            render,
            walk[j],
            templates@,
            context@,
            self@.declared_files,
            Ok::<GeneratedPathView, PlanErrorView>(#[trigger] plan_view(plan@)[j]),
        ) by {
            assert(plan_view(plan@)[j] == plan@[j]@);
        }
        Ok(plan)
    }

    /// Generates the tree `root` below `out_dir`: plans what to generate
    /// from `templates`, with `render` and `context`, and carries the plan
    /// out with `probe` and `on_path`. Nothing is carried out unless the
    /// whole tree can be planned.
    pub fn materialize<
        E,
        R: Fn(&String, &EngineContext) -> Option<String>,
        P: Fn(&String) -> bool,
        F: Fn(&Step) -> Result<(), E>,
    >(
        &self,
        root: &Folder,
        out_dir: &str,
        context: &EngineContext,
        templates: &Templates,
        render: &R,
        probe: &P,
        on_path: &F,
    ) -> (result: Result<(), GenError<E>>)
        requires
            templates.wf(),
            forall|template: &String, given: &EngineContext|
                call_requires(render, (template, given)),
            forall|path: &String| call_requires(probe, (path,)),
            forall|step: &Step| call_requires(on_path, (step,)),
        ensures
            materialized(
                render,
                probe,
                on_path,
                root@.walk(out_dir@),
                templates@,
                context@,
                self@.declared_files,
                result,
            ),
            no_templates(root@.walk(out_dir@)) ==> outcome_of(result) is Some,
    {
        let plan = match self.plan(root, out_dir, templates, context, render) {
            Ok(plan) => plan,
            Err(error) => {
                return Err(GenError::from_plan(error));
            },
        };
        let outcome = materialize(&plan, probe, on_path);
        assert(carried_out(probe, on_path, plan@, outcome));
        GenError::after_plan(outcome)
    }

    /// Generates the tree `root` below `out_dir` on a disk in memory: plans
    /// what to generate and carries the plan out on `disk`. Nothing that is
    /// on the disk is changed or removed; where the tree cannot be planned,
    /// the disk stays as it is.
    pub fn materialize_on<R: Fn(&String, &EngineContext) -> Option<String>>(
        &self,
        root: &Folder,
        out_dir: &str,
        context: &EngineContext,
        templates: &Templates,
        render: &R,
        disk: &mut MemoryDisk,
    ) -> (result: Result<Vec<Decision>, PlanError>)
        requires
            old(disk).wf(),
            templates.wf(),
            forall|template: &String, given: &EngineContext|
                call_requires(render, (template, given)),
        ensures
            final(disk).wf(),
            match result {
                Ok(made) => exists|plan: Seq<GeneratedPathView>|
                    {
                        &&& #[trigger] planned(
                            render,
                            root@.walk(out_dir@),
                            templates@,
                            context@,
                            self@.declared_files,
                            Ok::<Seq<GeneratedPathView>, PlanErrorView>(plan),
                        )
                        &&& final(disk)@ == after_all(old(disk)@, plan)
                        &&& made@ == decisions(old(disk)@, plan)
                    },
                Err(error) => final(disk)@ == old(disk)@ && planned(
                    render,
                    root@.walk(out_dir@),
                    templates@,
                    context@,
                    self@.declared_files,
                    Err::<Seq<GeneratedPathView>, PlanErrorView>(error@),
                ),
            },
            forall|path: Seq<char>|
                #[trigger] old(disk)@.dom().contains(path) ==> final(disk)@.dom().contains(path)
                    && final(disk)@[path] == old(disk)@[path],
    {
        let plan = match self.plan(root, out_dir, templates, context, render) {
            Ok(plan) => plan,
            Err(error) => {
                return Err(error);
            },
        };
        let made = disk.apply_all(&plan);
        proof {
            assert forall|path: Seq<char>| #[trigger]
                old(disk)@.dom().contains(path) implies disk@.dom().contains(path) && disk@[path]
                == old(disk)@[path] by {
                lemma_no_clobber(old(disk)@, plan_view(plan@), path);
            }
            assert(planned(
                render,
                root@.walk(out_dir@),
                templates@,
                context@,
                self@.declared_files,
                Ok::<Seq<GeneratedPathView>, PlanErrorView>(plan_view(plan@)),
            ));
        }
        Ok(made)
    }

    /// Generates the project in the year `year`: reads the project tree,
    /// plans what to generate, and carries the plan out with `probe` and
    /// `on_path`. Nothing is carried out unless the whole project can be
    /// planned.
    pub fn gen<
        E,
        R: Fn(&String, &EngineContext) -> Option<String>,
        P: Fn(&String) -> bool,
        F: Fn(&Step) -> Result<(), E>,
    >(
        &self,
        current_dir: &str,
        year: i32,
        templates: &Templates,
        render: &R,
        probe: &P,
        on_path: &F,
    ) -> (result: Result<(), GenError<E>>)
        requires
            templates.wf(),
            forall|template: &String, given: &EngineContext|
                call_requires(render, (template, given)),
            forall|path: &String| call_requires(probe, (path,)),
            forall|step: &Step| call_requires(on_path, (step,)),
        ensures
            match resolved(templates@, PROJECT_STRUCTURE_TEMPLATE@) {
                Err(missing) => result matches Err(failure) && failure.plan_error() == Some(
                    missing,
                ),
                Ok(template) => exists|rendered: Option<Seq<char>>|
                    renders(render, template, self@.tera_context(year as int), rendered)
                        && #[trigger] generated_from(
                        render,
                        probe,
                        on_path,
                        rendered,
                        self@.out_dir_or(current_dir@),
                        templates@,
                        self@.tera_context(year as int),
                        self@.declared_files,
                        result,
                    ),
            },
    {
        let tera_context = self.new_tera_context(year);
        let parsed = self.parse_json_proj_struct(templates, &tera_context, render);
        let ghost rendered = if resolved(templates@, PROJECT_STRUCTURE_TEMPLATE@) is Ok {
            choose|rendered: Option<Seq<char>>|
                #[trigger] renders(
                    render,
                    resolved(templates@, PROJECT_STRUCTURE_TEMPLATE@)->Ok_0,
                    tera_context@,
                    rendered,
                ) && tree_result_view(parsed) == tree_of_rendered(
                    PROJECT_STRUCTURE_TEMPLATE@,
                    rendered,
                )
        } else {
            None
        };
        let folder = match parsed {
            Ok(folder) => folder,
            Err(error) => {
                let failure = GenError::from_plan(error);
                assert(resolved(templates@, PROJECT_STRUCTURE_TEMPLATE@) is Ok ==> generated_from(
                    render,
                    probe,
                    on_path,
                    rendered,
                    self@.out_dir_or(current_dir@),
                    templates@,
                    self@.tera_context(year as int),
                    self@.declared_files,
                    Err::<(), GenError<E>>(failure),
                ));
                return Err(failure);
            },
        };
        let out_dir = match &self.out_dir {
            Some(out_dir) => out_dir.as_str(),
            None => current_dir,
        };
        let result = self.materialize(
            &folder,
            out_dir,
            &tera_context,
            templates,
            render,
            probe,
            on_path,
        );
        assert(generated_from(
            render,
            probe,
            on_path,
            rendered,
            self@.out_dir_or(current_dir@),
            templates@,
            self@.tera_context(year as int),
            self@.declared_files,
            result,
        ));
        result
    }
}

} // verus!
