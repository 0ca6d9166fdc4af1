//! External dump and client tools: how they are invoked, and how their
//! outcome is read.
use vstd::prelude::*;
use vstd::string::*;
use crate::error::{Error, ErrorKind, fails_with};
use crate::text::cat;

verus! {

/// A subprocess to run: the program, its arguments, and variables added to
/// its environment for this call only.
#[derive(Debug, Clone)]
pub struct Invocation {
    pub program: String,
    pub args: Vec<String>,
    pub env: Vec<(String, String)>,
}

/// What happened when an [`Invocation`] was run.
#[derive(Debug, Clone)]
pub enum ToolOutcome {
    /// The process ran to its end.
    Exited { success: bool, stdout: String, stderr: String },
    /// The process could not be started; the text says why.
    LaunchFailed(String),
}

/// The views of a sequence of strings.
pub open spec fn texts(v: Seq<String>) -> Seq<Seq<char>> {
    v.map_values(|s: String| s@)
}

/// The views of a sequence of environment entries.
pub open spec fn env_texts(v: Seq<(String, String)>) -> Seq<(Seq<char>, Seq<char>)> {
    v.map_values(|e: (String, String)| (e.0@, e.1@))
}

impl Invocation {
    /// `program`, `args`, `env` as views.
    pub open spec fn is(&self, program: Seq<char>, args: Seq<Seq<char>>, env: Seq<(Seq<char>, Seq<char>)>) -> bool {
        &&& self.program@ == program
        &&& texts(self.args@) == args
        &&& env_texts(self.env@) == env
    }
}

/// What running a tool gives: its standard output when it succeeded; else a
/// Database error whose message names the tool and carries the captured
/// standard error (or the reason it could not start).
pub open spec fn outcome_result(launch_what: Seq<char>, fail_what: Seq<char>, o: ToolOutcome) -> Result<Seq<char>, Seq<char>> {
    match o {
        ToolOutcome::Exited { success, stdout, stderr } => if success {
            Ok(stdout@)
        } else {
            Err(fail_what + " failed: "@ + stderr@)
        },
        ToolOutcome::LaunchFailed(e) => Err("Failed to execute "@ + launch_what + ": "@ + e@),
    }
}

/// `r` matches what [`outcome_result`] says.
pub open spec fn reads_as(r: Result<String, Error>, expected: Result<Seq<char>, Seq<char>>) -> bool {
    match expected {
        Ok(out) => r matches Ok(s) && s@ == out,
        Err(m) => fails_with(r, ErrorKind::Database, m),
    }
}

/// Reads the outcome of a tool run: `launch_what` names the tool in the
/// message for a failed start, `fail_what` in the one for a failed exit.
pub fn interpret(launch_what: &str, fail_what: &str, outcome: ToolOutcome) -> (r: Result<String, Error>)
    ensures
        reads_as(r, outcome_result(launch_what@, fail_what@, outcome)),
{
    match outcome {
        ToolOutcome::Exited { success, stdout, stderr } => {
            if success {
                Ok(stdout)
            } else {
                let mut m = cat(fail_what, " failed: ");
                m.append(stderr.as_str());
                Err(Error::Database(m))
            }
        },
        ToolOutcome::LaunchFailed(e) => {
            let mut m = cat("Failed to execute ", launch_what);
            m.append(": ");
            m.append(e.as_str());
            Err(Error::Database(m))
        },
    }
}

/// Appends `arg` to an argument list.
pub fn push_arg(args: &mut Vec<String>, arg: &str)
    ensures
        texts(final(args)@) == texts(old(args)@).push(arg@),
{
    args.push(String::from_str(arg));
    assert(texts(final(args)@) =~= texts(old(args)@).push(arg@));
}

/// Appends `prefix` followed by `value` to an argument list.
pub fn push_flag(args: &mut Vec<String>, prefix: &str, value: &str)
    ensures
        texts(final(args)@) == texts(old(args)@).push(prefix@ + value@),
{
    args.push(cat(prefix, value));
    assert(texts(final(args)@) =~= texts(old(args)@).push(prefix@ + value@));
}

} // verus!
