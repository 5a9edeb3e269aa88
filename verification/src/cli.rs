//! Command-line planning.
//!
//! The one-shot command has two invocation forms: the public form, whose
//! arguments are the words to speak, and an internal re-entry form marked
//! by a sentinel first argument, used by the command when it re-executes
//! itself as a detached child. Planning an invocation decides which form
//! was used and joins the words into the text payload.

use vstd::prelude::*;
use vstd::string::StringExecFns;

verus! {

/// The words of `args` from index `from` (inclusive) to `upto` (exclusive),
/// joined with single spaces.
pub open spec fn spec_join_words(args: Seq<String>, from: int, upto: int) -> Seq<char>
    decreases upto - from,
{
    if upto <= from {
        Seq::empty()
    } else if upto == from + 1 {
        args[from]@
    } else {
        spec_join_words(args, from, upto - 1) + " "@ + args[upto - 1]@
    }
}

/// Joins the words of `args` from index `from` on with single spaces.
pub fn join_words(args: &Vec<String>, from: usize) -> (r: String)
    requires
        from <= args.len(),
    ensures
        r@ == spec_join_words(args@, from as int, args@.len() as int),
{
    let mut r = String::new();
    let mut i: usize = from;
    while i < args.len()
        invariant
            from <= i <= args.len(),
            r@ == spec_join_words(args@, from as int, i as int),
        decreases args.len() - i,
    {
        if i > from {
            r.append(" ");
        }
        r.append(args[i].as_str());
        i = i + 1;
    }
    r
}

/// What the front end should do with one command-line invocation.
pub enum CliPlan {
    /// The sentinel re-entry form: run the serialized unit synchronously
    /// with this text, then exit.
    RunUnit(String),
    /// The public form: spawn a detached child carrying this text, reply
    /// at once, and exit without waiting for the child.
    SpawnDetached(String),
    /// No text was given: report usage and exit non-zero.
    Usage,
}

/// True when `args` is the internal re-entry form: a sentinel first
/// argument followed by at least one word.
pub open spec fn spec_is_reentry(args: Seq<String>) -> bool {
    args.len() >= 3 && args[1]@ == "--exec"@
}

/// True when `plan` is a plan that `plan_invocation` may return for `args`.
pub open spec fn plan_matches(args: Seq<String>, plan: CliPlan) -> bool {
    if spec_is_reentry(args) {
        plan matches CliPlan::RunUnit(t) && t@ == spec_join_words(args, 2, args.len() as int)
    } else if args.len() < 2 {
        plan is Usage
    } else {
        plan matches CliPlan::SpawnDetached(t) && t@ == spec_join_words(args, 1, args.len() as int)
    }
}

/// Decides what one invocation asks for. `args` is the full argument
/// vector, program name first.
pub fn plan_invocation(args: &Vec<String>) -> (r: CliPlan)
    ensures
        spec_is_reentry(args@) ==> (r matches CliPlan::RunUnit(t)
            && t@ == spec_join_words(args@, 2, args@.len() as int)),
        !spec_is_reentry(args@) && args@.len() < 2 ==> r is Usage,
        !spec_is_reentry(args@) && args@.len() >= 2 ==> (r matches CliPlan::SpawnDetached(t)
            && t@ == spec_join_words(args@, 1, args@.len() as int)),
        plan_matches(args@, r),
{
    let sentinel = String::from_str("--exec");
    if args.len() >= 3 && args[1] == sentinel {
        CliPlan::RunUnit(join_words(args, 2))
    } else if args.len() < 2 {
        CliPlan::Usage
    } else {
        CliPlan::SpawnDetached(join_words(args, 1))
    }
}

/// The argument vector of the speech backend: the backend name, a fixed
/// rate flag with its value, and the text to speak.
pub fn backend_argv(text: &String) -> (r: Vec<String>)
    ensures
        r@.len() == 4,
        r@[0]@ == "say"@,
        r@[1]@ == "-r"@,
        r@[2]@ == "300"@,
        r@[3]@ == text@,
{
    let mut r: Vec<String> = Vec::new();
    r.push(String::from_str("say"));
    r.push(String::from_str("-r"));
    r.push(String::from_str("300"));
    r.push(text.clone());
    r
}

/// The arguments the command passes to its own executable when it spawns
/// the detached child: the sentinel followed by the text.
pub fn reexec_argv(text: &String) -> (r: Vec<String>)
    ensures
        r@.len() == 2,
        r@[0]@ == "--exec"@,
        r@[1]@ == text@,
{
    let mut r: Vec<String> = Vec::new();
    r.push(String::from_str("--exec"));
    r.push(text.clone());
    r
}

/// The usage line of the one-shot command.
pub fn usage_message() -> (r: String)
    ensures
        r@ == "usage: notify <text>"@,
{
    String::from_str("usage: notify <text>")
}

/// The public invocation form never runs the serialized unit inline: with
/// no sentinel, a text-bearing invocation is always planned as a detached
/// spawn, so the caller-visible exit does not wait for the backend.
pub proof fn lemma_caller_never_runs_unit_inline(args: Seq<String>)
    requires
        !spec_is_reentry(args),
    ensures
        forall|t: String| !((#[trigger] plan_matches(args, CliPlan::RunUnit(t)))),
{
}

} // verus!
