//! Command execution: template substitution, the events a running execution
//! reports, and the bookkeeping of a blocking run.

pub mod run;

use vstd::prelude::*;
use crate::error::ExecuteError;
use crate::models::{CommandSet, ExecMode, Variable};
use crate::text::{copy_str, push_str, replace_all, str_replace};

verus! {

/// Events emitted by the executor during command set execution.
#[derive(Debug, Clone, PartialEq, Eq)]
pub enum ExecutionEvent {
    /// A command is about to start.
    Starting { index: usize, command: String },
    /// A line of stdout from the currently running command.
    StdoutLine { index: usize, line: String },
    /// A line of stderr from the currently running command.
    StderrLine { index: usize, line: String },
    /// The current command has finished (or was skipped or aborted).
    Finished { index: usize, success: bool, duration_ms: u128, exit_code: Option<i32>, skipped: bool },
    /// All commands in the set have been executed.
    CompletedAll { total: usize, succeeded: usize, failed: usize, total_duration_ms: u128 },
}

/// Result of a blocking command set execution.
#[derive(Debug, Clone, Copy, PartialEq, Eq, Structural)]
pub struct ExecuteResult {
    pub total: usize,
    pub succeeded: usize,
    pub failed: usize,
}

/// The placeholder `{{name}}`.
pub open spec fn placeholder(name: Seq<char>) -> Seq<char> {
    "{{"@ + name + "}}"@
}

/// `template` with the placeholders of `vars` replaced by their values, one
/// variable after the other in order. A placeholder with no variable stays.
pub open spec fn substitute_spec(template: Seq<char>, vars: Seq<(Seq<char>, Seq<char>)>) -> Seq<char>
    decreases vars.len(),
{
    if vars.len() == 0 {
        template
    } else {
        replace_all(substitute_spec(template, vars.drop_last()), placeholder(vars.last().0), vars.last().1)
    }
}

/// The names and values of `vars` as char sequences.
pub open spec fn pairs_view(vars: Seq<(&str, &str)>) -> Seq<(Seq<char>, Seq<char>)> {
    vars.map_values(|p: (&str, &str)| (p.0@, p.1@))
}

/// The names and values of owned pairs as char sequences.
pub open spec fn owned_pairs_view(vars: Seq<(String, String)>) -> Seq<(Seq<char>, Seq<char>)> {
    vars.map_values(|p: (String, String)| (p.0@, p.1@))
}

/// The names and default values of variables.
pub open spec fn vars_view(vars: Seq<Variable>) -> Seq<(Seq<char>, Seq<char>)> {
    vars.map_values(|v: Variable| (v.name@, v.default_value@))
}

/// The names and default values of a set's variables.
pub open spec fn variables_view(set: CommandSet) -> Seq<(Seq<char>, Seq<char>)> {
    vars_view(set.variables@)
}

/// The placeholder string for `name`.
fn make_placeholder(name: &str) -> (res: String)
    ensures
        res@ == placeholder(name@),
        res@.len() > 0,
{
    proof {
        reveal_strlit("{{");
    }
    let mut p = copy_str("{{");
    push_str(&mut p, name);
    push_str(&mut p, "}}");
    p
}

/// Replace `{{name}}` placeholders with values, variable by variable in the
/// order given; placeholders without a variable are left as they are.
pub fn substitute_variables_core(template: &str, vars: &[(&str, &str)]) -> (res: String)
    ensures
        res@ == substitute_spec(template@, pairs_view(vars@)),
{
    let mut result = copy_str(template);
    let mut i: usize = 0;
    assert(pairs_view(vars@).take(0) =~= Seq::<(Seq<char>, Seq<char>)>::empty());
    while i < vars.len()
        invariant
            i <= vars.len(),
            result@ == substitute_spec(template@, pairs_view(vars@).take(i as int)),
        decreases vars.len() - i,
    {
        let (name, value) = vars[i];
        let pattern = make_placeholder(name);
        result = str_replace(result.as_str(), pattern.as_str(), value);
        assert(pairs_view(vars@).take(i + 1).drop_last() =~= pairs_view(vars@).take(i as int));
        i = i + 1;
    }
    assert(pairs_view(vars@).take(vars@.len() as int) =~= pairs_view(vars@));
    result
}

/// Substitute `{{var}}` placeholders in `template` with the default values
/// of `vars`, in order.
pub fn substitute_variables_inner(template: &str, vars: &Vec<Variable>) -> (res: String)
    ensures
        res@ == substitute_spec(template@, vars_view(vars@)),
{
    let mut pairs: Vec<(&str, &str)> = Vec::new();
    let mut i: usize = 0;
    while i < vars.len()
        invariant
            i <= vars.len(),
            pairs@.len() == i,
            pairs_view(pairs@) == vars_view(vars@).take(i as int),
        decreases vars.len() - i,
    {
        let v = &vars[i];
        let ghost p0 = pairs@;
        pairs.push((v.name.as_str(), v.default_value.as_str()));
        assert forall|j: int| 0 <= j < i implies #[trigger] pairs_view(pairs@)[j] == vars_view(vars@)[j] by {
            assert(pairs_view(p0)[j] == vars_view(vars@).take(i as int)[j]);
        }
        assert(pairs_view(pairs@)[i as int] == vars_view(vars@)[i as int]);
        assert(pairs_view(pairs@) =~= vars_view(vars@).take(i + 1));
        i = i + 1;
    }
    assert(vars_view(vars@).take(vars@.len() as int) =~= vars_view(vars@));
    substitute_variables_core(template, pairs.as_slice())
}

/// Substitute `{{var}}` placeholders in `template` with the default values
/// of the set's variables.
pub fn substitute_variables(template: &str, set: &CommandSet) -> (res: String)
    ensures
        res@ == substitute_spec(template@, variables_view(*set)),
{
    substitute_variables_inner(template, &set.variables)
}

/// Substitute variables from resolved `(name, value)` pairs, in order.
pub fn substitute_variables_from_map(template: &str, vars: &Vec<(String, String)>) -> (res: String)
    ensures
        res@ == substitute_spec(template@, owned_pairs_view(vars@)),
{
    let mut pairs: Vec<(&str, &str)> = Vec::new();
    let mut i: usize = 0;
    while i < vars.len()
        invariant
            i <= vars.len(),
            pairs@.len() == i,
            pairs_view(pairs@) == owned_pairs_view(vars@).take(i as int),
        decreases vars.len() - i,
    {
        let v = &vars[i];
        let ghost p0 = pairs@;
        pairs.push((v.0.as_str(), v.1.as_str()));
        assert forall|j: int| 0 <= j < i implies #[trigger] pairs_view(pairs@)[j] == owned_pairs_view(vars@)[j] by {
            assert(pairs_view(p0)[j] == owned_pairs_view(vars@).take(i as int)[j]);
        }
        assert(pairs_view(pairs@)[i as int] == owned_pairs_view(vars@)[i as int]);
        assert(pairs_view(pairs@) =~= owned_pairs_view(vars@).take(i + 1));
        i = i + 1;
    }
    assert(owned_pairs_view(vars@).take(vars@.len() as int) =~= owned_pairs_view(vars@));
    substitute_variables_core(template, pairs.as_slice())
}

/// Substituting with no variables changes nothing.
pub proof fn lemma_substitute_no_vars(template: Seq<char>)
    ensures
        substitute_spec(template, Seq::empty()) == template,
{
}

/// A template that holds no `{` is left unchanged by any variables.
pub proof fn lemma_substitute_without_braces(template: Seq<char>, vars: Seq<(Seq<char>, Seq<char>)>)
    requires
        forall|i: int| 0 <= i < template.len() ==> template[i] != '{',
    ensures
        substitute_spec(template, vars) == template,
    decreases vars.len(),
{
    if vars.len() > 0 {
        lemma_substitute_without_braces(template, vars.drop_last());
        reveal_strlit("{{");
        assert(placeholder(vars.last().0)[0] == '{');
        lemma_replace_absent(template, placeholder(vars.last().0), vars.last().1);
    }
}

/// Replacing a pattern that starts with a char absent from `s` changes nothing.
pub proof fn lemma_replace_absent(s: Seq<char>, pat: Seq<char>, rep: Seq<char>)
    requires
        pat.len() > 0,
        forall|i: int| 0 <= i < s.len() ==> s[i] != pat[0],
    ensures
        replace_all(s, pat, rep) == s,
    decreases s.len(),
{
    if s.len() > 0 {
        assert(!crate::text::occurs_at(s, pat, 0)) by {
            if pat.len() <= s.len() {
                assert(s.subrange(0, pat.len() as int)[0] == s[0]);
            }
        }
        lemma_replace_absent(s.skip(1), pat, rep);
        assert(seq![s[0]] + s.skip(1) =~= s);
    }
}

/// Counts the outcome of command `idx` (0-based) of a blocking run; a failure
/// in stop-on-error mode ends the run with the error to report.
pub fn record_outcome(result: &mut ExecuteResult, idx: usize, success: bool, code: Option<i32>, mode: ExecMode)
    -> (stop: Option<ExecuteError>)
    requires
        old(result).succeeded + old(result).failed < usize::MAX,
        idx < usize::MAX,
    ensures
        final(result).total == old(result).total,
        success ==> final(result).succeeded == old(result).succeeded + 1 && final(result).failed == old(result).failed
            && stop is None,
        !success ==> final(result).failed == old(result).failed + 1 && final(result).succeeded == old(result).succeeded
            && stop == if mode == ExecMode::StopOnError {
                Some(ExecuteError::CommandFailed { idx: (idx + 1) as usize, code })
            } else {
                None
            },
{
    if success {
        result.succeeded = result.succeeded + 1;
        None
    } else {
        result.failed = result.failed + 1;
        match mode {
            ExecMode::StopOnError => Some(ExecuteError::CommandFailed { idx: idx + 1, code }),
            ExecMode::ContinueOnError => None,
        }
    }
}

} // verus!
