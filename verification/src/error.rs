//! What can go wrong while a project is generated.

use crate::cpp_new::SchemaParseError;
use vstd::prelude::*;

verus! {

/// Why a project cannot be planned.
#[derive(Debug)]
pub enum PlanError {
    /// A template that the project refers to is not among the templates.
    TemplateNotFound { key: String },
    /// The description of the project tree cannot be read.
    SchemaParseError { fault: SchemaParseError },
    /// The template engine failed on a template.
    TemplateRender { key: String },
}

/// What a [`PlanError`] holds.
pub enum PlanErrorView {
    TemplateNotFound { key: Seq<char> },
    SchemaParseError { fault: SchemaParseError },
    TemplateRender { key: Seq<char> },
}

impl View for PlanError {
    type V = PlanErrorView;

    open spec fn view(&self) -> PlanErrorView {
        match *self {
            PlanError::TemplateNotFound { key } => PlanErrorView::TemplateNotFound { key: key@ },
            PlanError::SchemaParseError { fault } => PlanErrorView::SchemaParseError { fault },
            PlanError::TemplateRender { key } => PlanErrorView::TemplateRender { key: key@ },
        }
    }
}

/// Why a project was not generated: it could not be planned, or the caller
/// failed to carry a step of the plan out.
#[derive(Debug)]
pub enum GenError<E> {
    /// A template that the project refers to is not among the templates.
    TemplateNotFound { key: String },
    /// The description of the project tree cannot be read.
    SchemaParseError { fault: SchemaParseError },
    /// The template engine failed on a template.
    TemplateRender { key: String },
    /// Creating a folder or writing a file failed.
    IoError { source: E },
}

impl<E> GenError<E> {
    /// The planning error that this is, if it is one.
    pub open spec fn plan_error(self) -> Option<PlanErrorView> {
        match self {
            GenError::TemplateNotFound { key } => Some(PlanErrorView::TemplateNotFound { key: key@ }),
            GenError::SchemaParseError { fault } => Some(PlanErrorView::SchemaParseError { fault }),
            GenError::TemplateRender { key } => Some(PlanErrorView::TemplateRender { key: key@ }),
            GenError::IoError { .. } => None,
        }
    }

    /// The same error, as one of generating.
    pub fn from_plan(error: PlanError) -> (out: Self)
        ensures
            out.plan_error() == Some(error@),
    {
        match error {
            PlanError::TemplateNotFound { key } => GenError::TemplateNotFound { key },
            PlanError::SchemaParseError { fault } => GenError::SchemaParseError { fault },
            PlanError::TemplateRender { key } => GenError::TemplateRender { key },
        }
    }
}

/// What became of carrying the plan out, if the project could be planned:
/// the caller's own result.
pub open spec fn outcome_of<E>(result: Result<(), GenError<E>>) -> Option<Result<(), E>> {
    match result {
        Ok(done) => Some(Ok(done)),
        Err(GenError::IoError { source }) => Some(Err(source)),
        Err(_) => None,
    }
}

impl<E> GenError<E> {
    /// The result of generating a project that was planned and then carried
    /// out with the result `outcome`.
    pub fn after_plan(outcome: Result<(), E>) -> (result: Result<(), GenError<E>>)
        ensures
            outcome_of(result) == Some(outcome),
    {
        match outcome {
            Ok(done) => Ok(done),
            Err(source) => Err(GenError::IoError { source }),
        }
    }
}

} // verus!
