//! Parsing a raw command line into stages and tokens.
//!
//! A line is split at every pipe character into stage strings; a stage
//! string is split at whitespace into a program name and its arguments.  No
//! quoting, escaping or redirection syntax is recognized.  A stage string
//! with no tokens at all (empty or all whitespace) is invalid inside a
//! pipeline.

use vstd::prelude::*;
use vstd::string::*;

use crate::stage::Stage;

verus! {

/// The characters that separate tokens inside one stage string.
pub open spec fn is_space(c: char) -> bool {
    c == ' ' || c == '\t' || c == '\r' || c == '\n'
}

/// Length of the maximal leading run of non-space characters.
pub open spec fn run_len(s: Seq<char>) -> nat
    decreases s.len(),
{
    if s.len() == 0 || is_space(s[0]) {
        0
    } else {
        1 + run_len(s.subrange(1, s.len() as int))
    }
}

/// The leading run is bounded by the string, covers no space, and ends at
/// the first space.
pub proof fn lemma_run_len(s: Seq<char>)
    ensures
        run_len(s) <= s.len(),
        s.len() > 0 && !is_space(s[0]) ==> 1 <= run_len(s),
        forall|j: int| 0 <= j < run_len(s) ==> !is_space(s[j]),
        run_len(s) < s.len() ==> is_space(s[run_len(s) as int]),
    decreases s.len(),
{
    if s.len() > 0 && !is_space(s[0]) {
        let t = s.subrange(1, s.len() as int);
        lemma_run_len(t);
        assert forall|j: int| 0 <= j < run_len(s) implies !is_space(s[j]) by {
            if j >= 1 {
                assert(t[j - 1] == s[j]);
                assert(!is_space(t[j - 1]));
            }
        }
    }
}

/// The whitespace-separated tokens of a stage string, leftmost first.
pub open spec fn spec_tokens(s: Seq<char>) -> Seq<Seq<char>>
    decreases s.len(),
    via spec_tokens_decreases
{
    if s.len() == 0 {
        Seq::empty()
    } else if is_space(s[0]) {
        spec_tokens(s.subrange(1, s.len() as int))
    } else {
        seq![s.subrange(0, run_len(s) as int)] + spec_tokens(
            s.subrange(run_len(s) as int, s.len() as int),
        )
    }
}

#[via_fn]
proof fn spec_tokens_decreases(s: Seq<char>) {
    lemma_run_len(s);
}

/// Every token is non-empty: a token is a maximal run of non-space
/// characters, and an empty run never forms one.
pub proof fn lemma_tokens_wf(s: Seq<char>)
    ensures
        forall|i: int| 0 <= i < spec_tokens(s).len() ==> (#[trigger] spec_tokens(s)[i]).len() > 0,
    decreases s.len(),
{
    if s.len() == 0 {
        assert(spec_tokens(s).len() == 0);
    } else if is_space(s[0]) {
        let t = s.subrange(1, s.len() as int);
        lemma_tokens_wf(t);
        assert(spec_tokens(s) == spec_tokens(t));
        assert forall|i: int|
            0 <= i < spec_tokens(s).len() implies (#[trigger] spec_tokens(s)[i]).len() > 0 by {
            assert(spec_tokens(s)[i] == spec_tokens(t)[i]);
        }
    } else {
        lemma_run_len(s);
        let first = s.subrange(0, run_len(s) as int);
        let rest = spec_tokens(s.subrange(run_len(s) as int, s.len() as int));
        lemma_tokens_wf(s.subrange(run_len(s) as int, s.len() as int));
        assert forall|i: int|
            0 <= i < spec_tokens(s).len() implies (#[trigger] spec_tokens(s)[i]).len() > 0 by {
            if i == 0 {
                assert(spec_tokens(s)[0] == first);
            } else {
                assert(spec_tokens(s)[i] == rest[i - 1]);
            }
        }
    }
}

/// The pipe-separated parts of a line, leftmost first.  Splitting keeps
/// empty parts, so the number of parts is always one more than the number
/// of pipe characters.
pub open spec fn spec_split_pipe(s: Seq<char>) -> Seq<Seq<char>>
    decreases s.len(),
{
    if s.len() == 0 {
        seq![Seq::<char>::empty()]
    } else if s[0] == '|' {
        seq![Seq::<char>::empty()] + spec_split_pipe(s.subrange(1, s.len() as int))
    } else {
        let rest = spec_split_pipe(s.subrange(1, s.len() as int));
        seq![seq![s[0]] + rest[0]] + rest.subrange(1, rest.len() as int)
    }
}

/// Splitting yields at least one part, and exactly one part precisely when
/// the line holds no pipe character — in which case that part is the line
/// itself.  A single-stage line therefore never looks like a pipeline.
pub proof fn lemma_split_pipe_len(s: Seq<char>)
    ensures
        spec_split_pipe(s).len() >= 1,
        (spec_split_pipe(s).len() == 1) <==> !s.contains('|'),
        spec_split_pipe(s).len() == 1 ==> spec_split_pipe(s)[0] == s,
    decreases s.len(),
{
    if s.len() == 0 {
        assert(!s.contains('|'));
        assert(spec_split_pipe(s)[0] =~= s);
    } else {
        let t = s.subrange(1, s.len() as int);
        lemma_split_pipe_len(t);
        if s[0] == '|' {
            assert(s.contains('|'));
        } else {
            assert(s.contains('|') <==> t.contains('|')) by {
                if t.contains('|') {
                    let j = choose|j: int| 0 <= j < t.len() && t[j] == '|';
                    assert(s[j + 1] == '|');
                }
                if s.contains('|') {
                    let j = choose|j: int| 0 <= j < s.len() && s[j] == '|';
                    assert(t[j - 1] == '|');
                }
            }
            if spec_split_pipe(s).len() == 1 {
                assert(spec_split_pipe(s)[0] =~= s);
            }
        }
    }
}

/// Whether `c` is one of the token separators.
fn is_space_char(c: char) -> (b: bool)
    ensures
        b == is_space(c),
{
    c == ' ' || c == '\t' || c == '\r' || c == '\n'
}

/// Whether two string slices hold the same characters.
pub fn str_eq(a: &str, b: &str) -> (r: bool)
    ensures
        r == (a@ == b@),
{
    let sa = String::from_str(a);
    let sb = String::from_str(b);
    sa == sb
}

/// Split a stage string into its whitespace-separated tokens.
pub fn tokenize(s: &str) -> (toks: Vec<String>)
    ensures
        toks@.map_values(|t: String| t@) == spec_tokens(s@),
    decreases s@.len(),
{
    let n = s.unicode_len();
    if n == 0 {
        let toks: Vec<String> = Vec::new();
        assert(toks@.map_values(|t: String| t@) =~= spec_tokens(s@));
        toks
    } else if is_space_char(s.get_char(0)) {
        let rest = s.substring_char(1, n);
        assert(rest@ =~= s@.subrange(1, s@.len() as int));
        tokenize(rest)
    } else {
        let mut e: usize = 1;
        while e < n && !is_space_char(s.get_char(e))
            invariant
                1 <= e <= n,
                n as int == s@.len(),
                forall|j: int| 0 <= j < e as int ==> !is_space(s@[j]),
            decreases n - e,
        {
            e = e + 1;
        }
        proof {
            lemma_run_len(s@);
            if (e as int) < run_len(s@) {
                assert(!is_space(s@[e as int]));
            }
            assert(e as int == run_len(s@) as int);
        }
        let tok = s.substring_char(0, e);
        let rest = s.substring_char(e, n);
        assert(rest@ =~= s@.subrange(run_len(s@) as int, s@.len() as int));
        let mut toks = tokenize(rest);
        toks.insert(0, String::from_str(tok));
        proof {
            let m = toks@.map_values(|t: String| t@);
            assert(forall|i: int|
                1 <= i < toks@.len() ==> toks@[i] == #[trigger] toks@.subrange(
                    1,
                    toks@.len() as int,
                )[i - 1]);
            assert(m =~= spec_tokens(s@));
        }
        toks
    }
}

/// Split a line into its pipe-separated stage strings.
pub fn split_pipe(s: &str) -> (parts: Vec<String>)
    ensures
        parts@.map_values(|p: String| p@) == spec_split_pipe(s@),
        parts@.len() >= 1,
    decreases s@.len(),
{
    proof {
        lemma_split_pipe_len(s@);
    }
    let n = s.unicode_len();
    if n == 0 {
        let mut parts: Vec<String> = Vec::new();
        parts.push(String::new());
        assert(parts@.map_values(|p: String| p@) =~= spec_split_pipe(s@));
        parts
    } else {
        let rest_str = s.substring_char(1, n);
        assert(rest_str@ =~= s@.subrange(1, s@.len() as int));
        if s.get_char(0) == '|' {
            let mut parts = split_pipe(rest_str);
            parts.insert(0, String::new());
            proof {
                let m = parts@.map_values(|p: String| p@);
                assert(forall|i: int|
                    1 <= i < parts@.len() ==> parts@[i] == #[trigger] parts@.subrange(
                        1,
                        parts@.len() as int,
                    )[i - 1]);
                assert(m =~= spec_split_pipe(s@));
            }
            parts
        } else {
            let mut parts = split_pipe(rest_str);
            let head = s.substring_char(0, 1);
            let combined = String::from_str(head).concat(parts[0].as_str());
            proof {
                assert(head@ =~= seq![s@[0]]);
            }
            parts.set(0, combined);
            proof {
                let m = parts@.map_values(|p: String| p@);
                let rest = spec_split_pipe(s@.subrange(1, s@.len() as int));
                assert(forall|i: int|
                    1 <= i < m.len() ==> m[i] == #[trigger] rest.subrange(1, rest.len() as int)[i
                        - 1]);
                assert(m =~= spec_split_pipe(s@));
            }
            parts
        }
    }
}

/// Parse one stage string: the first token names the program, the rest are
/// its arguments.  A string with no tokens yields nothing — an empty or
/// all-whitespace stage is invalid.
pub fn parse_stage(part: &str) -> (r: Option<Stage>)
    ensures
        (r is Some) <==> spec_tokens(part@).len() > 0,
        r matches Some(st) ==> st@.program == spec_tokens(part@)[0] && st@.args == spec_tokens(
            part@,
        ).subrange(1, spec_tokens(part@).len() as int) && st.well_formed(),
{
    let mut toks = tokenize(part);
    let ghost toks0 = toks@;
    if toks.len() == 0 {
        None
    } else {
        proof {
            lemma_tokens_wf(part@);
            assert(toks0.map_values(|t: String| t@)[0] == toks0[0]@);
            assert(spec_tokens(part@)[0].len() > 0);
        }
        let program = toks.remove(0);
        let st = Stage::new(program, toks);
        proof {
            let spec_t = spec_tokens(part@);
            assert(forall|i: int| 0 <= i < toks@.len() ==> toks@[i] == toks0[i + 1]);
            assert forall|i: int|
                0 <= i < st@.args.len() implies #[trigger] st@.args[i] == spec_t[i + 1] by {
                assert(st@.args[i] == toks@[i]@);
                assert(toks0.map_values(|t: String| t@)[i + 1] == toks0[i + 1]@);
            }
            assert(st@.args =~= spec_t.subrange(1, spec_t.len() as int));
        }
        Some(st)
    }
}

} // verus!
