//! Routing one input line to the built-ins, the single-command path, or the
//! pipeline executor.
//!
//! A line is routed to the pipeline executor exactly when it splits into
//! two or more pipe-separated parts; a single-stage line goes to the
//! single-command dispatcher (a built-in handler or a direct spawn with
//! inherited streams).  A pipeline containing an empty stage is rejected
//! before anything is spawned.

use vstd::prelude::*;
use vstd::string::*;

use crate::parse::{parse_stage, spec_split_pipe, spec_tokens, split_pipe, str_eq, tokenize};
use crate::parse::{lemma_split_pipe_len, lemma_tokens_wf};
use crate::stage::Stage;

verus! {

/// The reserved command names the interpreter handles itself.
#[derive(Clone, Copy, PartialEq, Eq, Structural, Debug)]
pub enum Builtin {
    /// Change the working directory.
    Cd,
    /// Print the working directory.
    Pwd,
    /// Print the arguments.
    Echo,
    /// Terminate the process named by its argument.
    Kill,
    /// List running processes.
    Ps,
}

/// What one input line asks the interpreter to do.
pub enum ParsedLine {
    /// No tokens at all: nothing to do.
    Blank,
    /// End the interactive session.
    Quit,
    /// A reserved name with its arguments.
    Builtin { which: Builtin, args: Vec<String> },
    /// One external program, spawned with fully inherited streams.
    Single { stage: Stage },
    /// Two or more stages for the pipeline executor.
    Pipeline { stages: Vec<Stage> },
    /// The pipeline's stage at this index is empty or all whitespace;
    /// nothing is executed.
    EmptyStage { index: usize },
}

/// Which built-in, if any, a program name names.
pub open spec fn spec_builtin_of(name: Seq<char>) -> Option<Builtin> {
    if name == "cd"@ {
        Some(Builtin::Cd)
    } else if name == "pwd"@ {
        Some(Builtin::Pwd)
    } else if name == "echo"@ {
        Some(Builtin::Echo)
    } else if name == "kill"@ {
        Some(Builtin::Kill)
    } else if name == "ps"@ {
        Some(Builtin::Ps)
    } else {
        None
    }
}

/// A line without the pipe delimiter has exactly one stage string — the
/// line itself — so [`parse_line`] can only route it to the non-pipeline
/// path: the pipeline executor is never invoked for a single-stage line,
/// whose behavior is the single-command dispatcher's.
pub proof fn lemma_pipe_free_line_is_single(line: Seq<char>)
    requires
        !line.contains('|'),
    ensures
        spec_split_pipe(line).len() == 1,
        spec_split_pipe(line)[0] == line,
{
    lemma_split_pipe_len(line);
}

/// Look a program name up among the reserved ones.
pub fn builtin_of(name: &str) -> (r: Option<Builtin>)
    ensures
        r == spec_builtin_of(name@),
{
    if str_eq(name, "cd") {
        Some(Builtin::Cd)
    } else if str_eq(name, "pwd") {
        Some(Builtin::Pwd)
    } else if str_eq(name, "echo") {
        Some(Builtin::Echo)
    } else if str_eq(name, "kill") {
        Some(Builtin::Kill)
    } else if str_eq(name, "ps") {
        Some(Builtin::Ps)
    } else {
        None
    }
}

/// Route one raw input line.
///
/// The line is split at pipe characters.  Two or more parts route to the
/// pipeline executor, provided every part has at least one token; the
/// first all-whitespace part is reported instead, and nothing runs.  A
/// single part is the non-pipeline path: no tokens is a blank line, the
/// single token `quit` ends the session, a leading reserved name routes to
/// its built-in handler, and anything else is one external program.
pub fn parse_line(line: &str) -> (r: ParsedLine)
    ensures
        ({
            let parts = spec_split_pipe(line@);
            let toks = spec_tokens(line@);
            &&& (r is Pipeline || r is EmptyStage) ==> parts.len() >= 2
            &&& parts.len() >= 2 ==> (match r {
                ParsedLine::EmptyStage { index } => {
                    &&& (index as int) < parts.len()
                    &&& spec_tokens(parts[index as int]).len() == 0
                    &&& forall|j: int|
                        0 <= j < index as int ==> spec_tokens(parts[j]).len() > 0
                },
                ParsedLine::Pipeline { stages } => {
                    &&& stages@.len() == parts.len()
                    &&& forall|j: int| 0 <= j < parts.len() ==> spec_tokens(parts[j]).len() > 0
                    &&& forall|j: int|
                        0 <= j < parts.len() ==> (#[trigger] stages@[j])@.program == spec_tokens(
                            parts[j],
                        )[0] && stages@[j]@.args == spec_tokens(parts[j]).subrange(
                            1,
                            spec_tokens(parts[j]).len() as int,
                        ) && stages@[j].well_formed()
                },
                _ => false,
            })
            &&& parts.len() == 1 ==> (match r {
                ParsedLine::Blank => toks.len() == 0,
                ParsedLine::Quit => toks.len() == 1 && toks[0] == "quit"@,
                ParsedLine::Builtin { which, args } => {
                    &&& toks.len() >= 1
                    &&& !(toks.len() == 1 && toks[0] == "quit"@)
                    &&& spec_builtin_of(toks[0]) == Some(which)
                    &&& args@.map_values(|a: String| a@) == toks.subrange(1, toks.len() as int)
                },
                ParsedLine::Single { stage } => {
                    &&& toks.len() >= 1
                    &&& !(toks.len() == 1 && toks[0] == "quit"@)
                    &&& spec_builtin_of(toks[0]) is None
                    &&& stage@.program == toks[0]
                    &&& stage@.args == toks.subrange(1, toks.len() as int)
                    &&& stage.well_formed()
                },
                _ => false,
            })
        }),
{
    proof {
        lemma_split_pipe_len(line@);
    }
    let parts = split_pipe(line);
    if parts.len() >= 2 {
        let ghost pview = spec_split_pipe(line@);
        let mut stages: Vec<Stage> = Vec::new();
        let mut i: usize = 0;
        while i < parts.len()
            invariant
                i <= parts.len(),
                parts@.len() >= 2,
                pview == spec_split_pipe(line@),
                parts@.len() == pview.len(),
                parts@.map_values(|p: String| p@) == pview,
                stages@.len() == i as int,
                forall|j: int| 0 <= j < i as int ==> spec_tokens(pview[j]).len() > 0,
                forall|j: int|
                    0 <= j < i as int ==> (#[trigger] stages@[j])@.program == spec_tokens(
                        pview[j],
                    )[0] && stages@[j]@.args == spec_tokens(pview[j]).subrange(
                        1,
                        spec_tokens(pview[j]).len() as int,
                    ) && stages@[j].well_formed(),
            decreases parts@.len() - i as int,
        {
            proof {
                assert(parts@.map_values(|p: String| p@)[i as int] == parts@[i as int]@);
            }
            match parse_stage(parts[i].as_str()) {
                Some(st) => {
                    stages.push(st);
                    i = i + 1;
                },
                None => {
                    return ParsedLine::EmptyStage { index: i };
                },
            }
        }
        ParsedLine::Pipeline { stages }
    } else {
        proof {
            assert(parts@.map_values(|p: String| p@)[0] == parts@[0]@);
            assert(parts@[0]@ == line@);
        }
        let mut toks = tokenize(line);
        let ghost tview = spec_tokens(line@);
        if toks.len() == 0 {
            ParsedLine::Blank
        } else {
            proof {
                assert(toks@.map_values(|t: String| t@)[0] == toks@[0]@);
            }
            if toks.len() == 1 && str_eq(toks[0].as_str(), "quit") {
                ParsedLine::Quit
            } else {
                match builtin_of(toks[0].as_str()) {
                    Some(b) => {
                        let ghost toks0 = toks@;
                        let _name = toks.remove(0);
                        proof {
                            assert(forall|k: int|
                                0 <= k < toks@.len() ==> toks@[k] == toks0[k + 1]);
                            assert forall|k: int|
                                0 <= k < toks@.len() implies #[trigger] toks@[k]@ == tview[k
                                + 1] by {
                                assert(toks0.map_values(|t: String| t@)[k + 1] == toks0[k + 1]@);
                            }
                            assert(toks@.map_values(|t: String| t@) =~= tview.subrange(
                                1,
                                tview.len() as int,
                            ));
                        }
                        ParsedLine::Builtin { which: b, args: toks }
                    },
                    None => {
                        let ghost toks0 = toks@;
                        proof {
                            lemma_tokens_wf(line@);
                        }
                        let program = toks.remove(0);
                        let stage = Stage::new(program, toks);
                        proof {
                            assert(forall|k: int|
                                0 <= k < toks@.len() ==> toks@[k] == toks0[k + 1]);
                            assert forall|k: int|
                                0 <= k < stage@.args.len() implies #[trigger] stage@.args[k]
                                == tview[k + 1] by {
                                assert(stage@.args[k] == toks@[k]@);
                                assert(toks0.map_values(|t: String| t@)[k + 1] == toks0[k + 1]@);
                            }
                            assert(stage@.args =~= tview.subrange(1, tview.len() as int));
                        }
                        ParsedLine::Single { stage }
                    },
                }
            }
        }
    }
}

} // verus!
