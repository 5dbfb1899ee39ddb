//! One pipeline stage: a program name and its argument list.

use vstd::prelude::*;

verus! {

/// Mathematical view of a [`Stage`]: the program name and the arguments as
/// sequences of characters.
pub struct StageView {
    pub program: Seq<char>,
    pub args: Seq<Seq<char>>,
}

/// One program invocation within a pipeline: the program to run plus its
/// ordered argument list.  Immutable once parsed.
pub struct Stage {
    pub program: String,
    pub args: Vec<String>,
}

impl View for Stage {
    type V = StageView;

    open spec fn view(&self) -> StageView {
        StageView { program: self.program@, args: self.args@.map_values(|a: String| a@) }
    }
}

impl StageView {
    /// A stage is well formed when its program name is non-empty; an empty
    /// or all-whitespace stage string never parses into a `Stage`.
    pub open spec fn well_formed(self) -> bool {
        self.program.len() > 0
    }
}

impl Stage {
    pub open spec fn well_formed(self) -> bool {
        self@.well_formed()
    }

    /// Build a stage from a program name and arguments.
    pub fn new(program: String, args: Vec<String>) -> (s: Stage)
        requires
            program@.len() > 0,
        ensures
            s@.program == program@,
            s@.args == args@.map_values(|a: String| a@),
            s.well_formed(),
    {
        Stage { program, args }
    }
}

} // verus!
