//! What the template engine is given and what it may answer.
//!
//! The engine itself is the caller's: the library hands it a template and a
//! context through a function that the caller passes in, as it asks the
//! caller whether a path exists and hands it what to create.

use crate::text::option_text;
use crate::vars::{VarSeq, Variables};
use vstd::prelude::*;

verus! {

/// What the engine is given besides a template: the variables, as one
/// object under a name, and a flag under another.
#[derive(Debug)]
pub struct EngineContext {
    /// The name of the object that holds the variables.
    pub object: String,
    /// The variables.
    pub variables: Variables,
    /// The name of the flag.
    pub flag: String,
    /// Whether the flag is set.
    pub enabled: bool,
}

/// What an [`EngineContext`] holds.
pub struct EngineContextView {
    pub object: Seq<char>,
    pub variables: VarSeq,
    pub flag: Seq<char>,
    pub enabled: bool,
}

impl View for EngineContext {
    type V = EngineContextView;

    open spec fn view(&self) -> EngineContextView {
        EngineContextView {
            object: self.object@,
            variables: self.variables@,
            flag: self.flag@,
            enabled: self.enabled,
        }
    }
}

/// Whether `render` may answer `rendered` when it is handed the template
/// `template` with `context`: a text, or nothing where the engine fails.
pub open spec fn renders<R: Fn(&String, &EngineContext) -> Option<String>>(
    render: &R,
    template: Seq<char>,
    context: EngineContextView,
    rendered: Option<Seq<char>>,
) -> bool {
    exists|text: String, given: EngineContext, answer: Option<String>|
        {
            &&& #[trigger] call_ensures(render, (&text, &given), answer)
            &&& text@ == template
            &&& given@ == context
            &&& option_text(answer) == rendered
        }
}

} // verus!
