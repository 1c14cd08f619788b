//! The tree generator with textual substitution: the project tree and every
//! file are templates in which each occurrence of a variable's name is
//! replaced by its value.

use crate::cpp_new::folder::{Folder, FolderView, folder_of_text};
use crate::cpp_new::{PathKind, PathKindView, path_kinds_view};
use crate::error::{GenError, PlanError, PlanErrorView};
use crate::materialize::{
    DeclaredFiles,
    GeneratedPath,
    GeneratedPathView,
    Step,
    carried_out,
    materialize,
    plan_view,
};
use crate::naming::{conform, conformed};
use crate::templates::{Templates, resolved};
use crate::text::option_text;
use crate::vars::{VarSeq, Variables, inserted, substituted};
use vstd::prelude::*;

verus! {

/// The key of the template that describes the project tree.
pub const FOLDER_STRUCT_TEMPLATE: &'static str = "folder_struct.json";

/// The variables of a project, from the conforming names of its domain and
/// its target.
pub open spec fn project_vars(domain_name: Seq<char>, target_name: Seq<char>) -> VarSeq {
    inserted(
        inserted(
            inserted(
                inserted(VarSeq::empty(), "@DOMAIN_NAME@"@, domain_name),
                "@TARGET_NAME@"@,
                target_name,
            ),
            "@PROJECT_NAME@"@,
            domain_name + "-"@ + target_name,
        ),
        "@CMAKE_MINIMUM_VERSION@"@,
        "3.19.0"@,
    )
}

/// What is generated for the node `event`: the folder; or the file, with the
/// template that it refers to after substitution, with the content of a
/// declared file where it refers to none. Fails where the template is not
/// among `templates`.
pub open spec fn generated_of(
    event: PathKindView,
    templates: VarSeq,
    vars: VarSeq,
    declared_files: DeclaredFiles,
) -> Result<GeneratedPathView, PlanErrorView> {
    match event {
        PathKindView::Folder { path } => Ok(GeneratedPathView::Folder { path }),
        PathKindView::File { path, template_file: None } => Ok(
            GeneratedPathView::File { path, content: declared_files.content() },
        ),
        PathKindView::File { path, template_file: Some(key) } => match resolved(templates, key) {
            Ok(text) => Ok(
                GeneratedPathView::File { path, content: Some(substituted(text, vars)) },
            ),
            Err(error) => Err(error),
        },
    }
}

/// What is generated for the first `n` of `events`, in order, or the first
/// error among them.
pub open spec fn plan_of(
    events: Seq<PathKindView>,
    n: int,
    templates: VarSeq,
    vars: VarSeq,
    declared_files: DeclaredFiles,
) -> Result<Seq<GeneratedPathView>, PlanErrorView>
    decreases n,
{
    if n <= 0 || n > events.len() {
        Ok(Seq::empty())
    } else {
        match plan_of(events, n - 1, templates, vars, declared_files) {
            Err(error) => Err(error),
            Ok(plan) => match generated_of(events[n - 1], templates, vars, declared_files) {
                Err(error) => Err(error),
                Ok(generated) => Ok(plan.push(generated)),
            },
        }
    }
}

/// An error among the first `n` nodes is the error of any longer list.
pub proof fn lemma_plan_error(
    events: Seq<PathKindView>,
    n: int,
    m: int,
    templates: VarSeq,
    vars: VarSeq,
    declared_files: DeclaredFiles,
)
    requires
        0 <= n <= m <= events.len(),
        plan_of(events, n, templates, vars, declared_files) is Err,
    ensures
        plan_of(events, m, templates, vars, declared_files) == plan_of(
            events,
            n,
            templates,
            vars,
            declared_files,
        ),
    decreases m - n,
{
    if n < m {
        lemma_plan_error(events, n, m - 1, templates, vars, declared_files);
    }
}

/// Generates a project from templates by textual substitution.
#[derive(Debug, Clone)]
pub struct ProjGen {
    vars: Variables,
    templates: Templates,
    out_dir: Option<String>,
    declared_files: DeclaredFiles,
}

/// What a [`ProjGen`] holds.
pub struct ProjGenView {
    pub vars: VarSeq,
    pub templates: VarSeq,
    pub out_dir: Option<Seq<char>>,
    pub declared_files: DeclaredFiles,
}

impl View for ProjGen {
    type V = ProjGenView;

    closed spec fn view(&self) -> ProjGenView {
        ProjGenView {
            vars: self.vars@,
            templates: self.templates@,
            out_dir: option_text(self.out_dir),
            declared_files: self.declared_files,
        }
    }
}

impl ProjGenView {
    /// The directory below which the project goes: the output directory, or
    /// `current_dir` where there is none.
    pub open spec fn out_dir_or(self, current_dir: Seq<char>) -> Seq<char> {
        match self.out_dir {
            Some(out_dir) => out_dir,
            None => current_dir,
        }
    }

    /// The project tree: the template that describes it, after substitution,
    /// read as JSON.
    pub open spec fn folder_struct(self) -> Result<FolderView, PlanErrorView> {
        match resolved(self.templates, FOLDER_STRUCT_TEMPLATE@) {
            Err(error) => Err(error),
            Ok(text) => match folder_of_text(substituted(text, self.vars)) {
                Ok(folder) => Ok(folder),
                Err(fault) => Err(PlanErrorView::SchemaParseError { fault }),
            },
        }
    }

    /// What is generated for the tree `folder` below `out_dir`.
    pub open spec fn plan_for(self, out_dir: Seq<char>, folder: FolderView) -> Result<
        Seq<GeneratedPathView>,
        PlanErrorView,
    > {
        plan_of(
            folder.walk(out_dir),
            folder.walk(out_dir).len() as int,
            self.templates,
            self.vars,
            self.declared_files,
        )
    }

    /// What is generated for the project.
    pub open spec fn plan(self, current_dir: Seq<char>) -> Result<
        Seq<GeneratedPathView>,
        PlanErrorView,
    > {
        match self.folder_struct() {
            Err(error) => Err(error),
            Ok(folder) => self.plan_for(self.out_dir_or(current_dir), folder),
        }
    }
}

impl ProjGen {
    /// What holds of every generator.
    pub closed spec fn wf(&self) -> bool {
        self.vars.wf() && self.templates.wf()
    }

    /// A generator for the project of `target_name` in `domain_name`, from
    /// `templates`. Both names are made conforming. A file that is declared
    /// only is skipped.
    pub fn new(
        domain_name: String,
        target_name: String,
        out_dir: Option<String>,
        templates: Templates,
    ) -> (gen: Self)
        requires
            templates.wf(),
        ensures
            gen.wf(),
            gen@ == (ProjGenView {
                vars: project_vars(conformed(domain_name@), conformed(target_name@)),
                templates: templates@,
                out_dir: option_text(out_dir),
                declared_files: DeclaredFiles::Skip,
            }),
    {
        let domain_name = conform(domain_name.as_str());
        let target_name = conform(target_name.as_str());
        Self {
            vars: Self::create_vars(&domain_name, &target_name),
            templates,
            out_dir,
            declared_files: DeclaredFiles::Skip,
        }
    }

    /// Sets what becomes of a file that is declared only.
    pub fn set_declared_files(self, declared_files: DeclaredFiles) -> (gen: Self)
        requires
            self.wf(),
        ensures
            gen.wf(),
            gen@ == (ProjGenView { declared_files, ..self@ }),
    {
        let mut gen = self;
        gen.declared_files = declared_files;
        gen
    }

    /// Substitutes the project's variables into `string`.
    pub fn replace_vars(&self, string: String) -> (out: String)
        ensures
            out@ == substituted(string@, self@.vars),
    {
        self.vars.substitute(string.as_str())
    }

    /// Reads the project tree from the template that describes it.
    pub fn gen_folder_struct(&self) -> (result: Result<Folder, PlanError>)
        requires
            self.wf(),
        ensures
            match result {
                Ok(folder) => self@.folder_struct() == Ok::<FolderView, PlanErrorView>(folder@),
                Err(error) => self@.folder_struct() == Err::<FolderView, PlanErrorView>(error@),
            },
    {
        let text = match self.templates.resolve(FOLDER_STRUCT_TEMPLATE) {
            Ok(text) => text,
            Err(error) => {
                return Err(error);
            },
        };
        let json_string = self.replace_vars(text.clone());
        match Folder::parse(json_string.as_str()) {
            Ok(folder) => Ok(folder),
            Err(fault) => Err(PlanError::SchemaParseError { fault }),
        }
    }

    /// What is generated for the node `event`.
    pub fn generate(&self, event: &PathKind) -> (result: Result<GeneratedPath, PlanError>)
        requires
            self.wf(),
        ensures
            match result {
                Ok(generated) => generated_of(
                    event@,
                    self@.templates,
                    self@.vars,
                    self@.declared_files,
                ) == Ok::<GeneratedPathView, PlanErrorView>(generated@),
                Err(error) => generated_of(
                    event@,
                    self@.templates,
                    self@.vars,
                    self@.declared_files,
                ) == Err::<GeneratedPathView, PlanErrorView>(error@),
            },
    {
        match event {
            PathKind::Folder { path } => Ok(GeneratedPath::Folder { path: path.clone() }),
            PathKind::File { path, template_file: None } => Ok(
                GeneratedPath::File {
                    path: path.clone(),
                    content: self.declared_files.declared_content(),
                },
            ),
            PathKind::File { path, template_file: Some(key) } => {
                match self.templates.resolve(key.as_str()) {
                    Ok(text) => Ok(
                        GeneratedPath::File {
                            path: path.clone(),
                            content: Some(self.replace_vars(text.clone())),
                        },
                    ),
                    Err(error) => Err(error),
                }
            },
        }
    }

    /// What is generated for the tree `folder` below `out_dir`: every node
    /// at its place, folders before what is in them.
    #[verifier::loop_isolation(false)]
    pub fn create_folder_struct(&self, out_dir: &str, folder: &Folder) -> (result: Result<
        Vec<GeneratedPath>,
        PlanError,
    >)
        requires
            self.wf(),
        ensures
            match result {
                Ok(plan) => self@.plan_for(out_dir@, folder@) == Ok::<
                    Seq<GeneratedPathView>,
                    PlanErrorView,
                >(plan_view(plan@)),
                Err(error) => self@.plan_for(out_dir@, folder@) == Err::<
                    Seq<GeneratedPathView>,
                    PlanErrorView,
                >(error@),
            },
    {
        let events = folder.walk(out_dir);
        let ghost views = path_kinds_view(events@);
        let mut plan: Vec<GeneratedPath> = Vec::new();
        let mut i: usize = 0;
        assert(plan_view(plan@) =~= Seq::empty());
        while i < events.len()
            invariant
                i <= events.len(),
                plan_of(views, i as int, self@.templates, self@.vars, self@.declared_files)
                    == Ok::<Seq<GeneratedPathView>, PlanErrorView>(plan_view(plan@)),
            decreases events.len() - i,
        {
            let ghost before = plan_view(plan@);
            assert(views[i as int] == events@[i as int]@);
            match self.generate(&events[i]) {
                Err(error) => {
                    proof {
                        lemma_plan_error(
                            views,
                            i + 1,
                            views.len() as int,
                            self@.templates,
                            self@.vars,
                            self@.declared_files,
                        );
                    }
                    return Err(error);
                },
                Ok(generated) => {
                    plan.push(generated);
                    assert(plan_view(plan@) =~= before.push(generated@));
                },
            }
            i += 1;
        }
        Ok(plan)
    }

    /// Generates the project: reads the project tree, plans what to
    /// generate, and carries the plan out with `probe` and `on_path`.
    /// Nothing is carried out unless the whole project can be planned.
    pub fn gen<E, P: Fn(&String) -> bool, F: Fn(&Step) -> Result<(), E>>(
        &self,
        current_dir: &str,
        probe: &P,
        on_path: &F,
    ) -> (result: Result<(), GenError<E>>)
        requires
            self.wf(),
            forall|path: &String| call_requires(probe, (path,)),
            forall|step: &Step| call_requires(on_path, (step,)),
        ensures
            match self@.plan(current_dir@) {
                Err(error) => result matches Err(failure) && failure.plan_error() == Some(error),
                Ok(planned) => exists|plan: Seq<GeneratedPath>|
                    plan_view(plan) == planned && match result {
                        Ok(_) => carried_out(probe, on_path, plan, Ok::<(), E>(())),
                        Err(GenError::IoError { source }) => carried_out(
                            probe,
                            on_path,
                            plan,
                            Err::<(), E>(source),
                        ),
                        Err(_) => false,
                    },
            },
    {
        let folder = match self.gen_folder_struct() {
            Ok(folder) => folder,
            Err(error) => {
                return Err(GenError::from_plan(error));
            },
        };
        let plan = match &self.out_dir {
            Some(out_dir) => self.create_folder_struct(out_dir.as_str(), &folder),
            None => self.create_folder_struct(current_dir, &folder),
        };
        let plan = match plan {
            Ok(plan) => plan,
            Err(error) => {
                return Err(GenError::from_plan(error));
            },
        };
        match materialize(&plan, probe, on_path) {
            Ok(_) => Ok(()),
            Err(source) => Err(GenError::IoError { source }),
        }
    }

    /// The variables of a project, from the conforming names of its domain
    /// and its target.
    pub fn create_vars(domain_name: &String, target_name: &String) -> (vars: Variables)
        ensures
            vars.wf(),
            vars@ == project_vars(domain_name@, target_name@),
    {
        proof {
            reveal_strlit("@DOMAIN_NAME@");
            reveal_strlit("@TARGET_NAME@");
            reveal_strlit("@PROJECT_NAME@");
            reveal_strlit("@CMAKE_MINIMUM_VERSION@");
        }
        let mut project_name = domain_name.clone();
        project_name.append("-");
        project_name.append(target_name.as_str());
        let mut vars = Variables::new();
        vars.insert("@DOMAIN_NAME@", domain_name.clone());
        vars.insert("@TARGET_NAME@", target_name.clone());
        vars.insert("@PROJECT_NAME@", project_name);
        vars.insert("@CMAKE_MINIMUM_VERSION@", "3.19.0".to_owned());
        vars
    }
}

} // verus!
