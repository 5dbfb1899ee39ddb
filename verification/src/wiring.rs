//! Channel wiring policy.
//!
//! For stage `i` of an `n`-stage pipeline, the policy decides whether the
//! stage's standard input is inherited from the controlling terminal or fed
//! by the channel coming from stage `i - 1`, and whether its standard output
//! is inherited or routed into the channel going to stage `i + 1`.  The
//! decision is pure and must be computed before the stage is spawned, so the
//! spawn call can attach the right ends at process-creation time.

use vstd::prelude::*;

verus! {

/// Where a stage's standard input comes from.
#[derive(Clone, Copy, PartialEq, Eq, Structural, Debug)]
pub enum InputSource {
    /// Inherited from the controlling terminal.
    Inherited,
    /// The read end of the channel created between this stage and the
    /// previous one.
    FromChannel,
}

/// Where a stage's standard output goes.
#[derive(Clone, Copy, PartialEq, Eq, Structural, Debug)]
pub enum OutputSink {
    /// Inherited from the controlling terminal.
    Inherited,
    /// The write end of the channel created between this stage and the
    /// next one.
    ToChannel,
}

/// The full wiring decision for one stage.
#[derive(Clone, Copy, PartialEq, Eq, Structural, Debug)]
pub struct Wiring {
    pub input: InputSource,
    pub output: OutputSink,
}

/// The wiring policy as a mathematical function: only the first stage reads
/// the terminal, only the last stage writes to it.
pub open spec fn spec_wiring(i: int, n: int) -> Wiring {
    Wiring {
        input: if i == 0 {
            InputSource::Inherited
        } else {
            InputSource::FromChannel
        },
        output: if i == n - 1 {
            OutputSink::Inherited
        } else {
            OutputSink::ToChannel
        },
    }
}

/// Compute the wiring for stage `i` of `n`.
///
/// The input is inherited exactly for the first stage, and the output is
/// inherited exactly for the last stage; every other end goes through a
/// channel shared with the adjacent stage.
pub fn wiring(i: usize, n: usize) -> (w: Wiring)
    requires
        i < n,
    ensures
        w == spec_wiring(i as int, n as int),
        (w.input is Inherited) <==> i == 0,
        (w.output is Inherited) <==> i == n - 1,
{
    let input = if i == 0 {
        InputSource::Inherited
    } else {
        InputSource::FromChannel
    };
    let output = if i == n - 1 {
        OutputSink::Inherited
    } else {
        OutputSink::ToChannel
    };
    Wiring { input, output }
}

} // verus!
