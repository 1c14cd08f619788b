//! The templates of a project: raw text by key.

use crate::error::{PlanError, PlanErrorView};
use crate::vars::{VarSeq, Variables, inserted, value_of};
use vstd::prelude::*;

verus! {

/// Templates by key. The keys are distinct and none is empty.
#[derive(Debug, Clone)]
pub struct Templates {
    texts: Variables,
}

impl View for Templates {
    type V = VarSeq;

    closed spec fn view(&self) -> VarSeq {
        self.texts@
    }
}

/// The template that `templates` holds under `key`, or the error that there
/// is none.
pub open spec fn resolved(templates: VarSeq, key: Seq<char>) -> Result<Seq<char>, PlanErrorView> {
    match value_of(templates, key) {
        Some(text) => Ok(text),
        None => Err(PlanErrorView::TemplateNotFound { key }),
    }
}

impl Templates {
    /// What holds of every set of templates.
    pub closed spec fn wf(&self) -> bool {
        self.texts.wf()
    }

    /// No templates.
    pub fn new() -> (templates: Self)
        ensures
            templates.wf(),
            templates@ == VarSeq::empty(),
    {
        Templates { texts: Variables::new() }
    }

    /// Puts `text` under `key`, in place of what was there.
    pub fn insert(&mut self, key: &str, text: String)
        requires
            old(self).wf(),
            key@.len() > 0,
        ensures
            final(self).wf(),
            final(self)@ == inserted(old(self)@, key@, text@),
    {
        self.texts.insert(key, text);
    }

    /// The template under `key`; fails where there is none.
    pub fn resolve(&self, key: &str) -> (result: Result<&String, PlanError>)
        requires
            self.wf(),
        ensures
            match result {
                Ok(text) => resolved(self@, key@) == Ok::<Seq<char>, PlanErrorView>(text@),
                Err(error) => resolved(self@, key@) == Err::<Seq<char>, PlanErrorView>(error@),
            },
    {
        match self.texts.get(key) {
            Some(text) => Ok(text),
            None => Err(PlanError::TemplateNotFound { key: key.to_owned() }),
        }
    }
}

} // verus!
