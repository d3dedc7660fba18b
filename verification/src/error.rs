//! The error taxonomy, and the child outcome it reports on.
//!
//! Every fallible step of an execution surfaces its error immediately as one
//! of these kinds; nothing is retried and nothing is downgraded to a
//! default. A non-zero exit of the child is the primary expected failure
//! and carries the exit code and both captured streams whole, so diagnosing
//! a failed conversion never needs a re-run.

use vstd::prelude::*;

use crate::dec::dec_int;
use crate::dec::dec_nat;
use crate::dec::render_i64;
use crate::dec::render_u64;
use crate::text::lossy_utf8;
use crate::text::utf8_lossy;

verus! {

/// What the child process left behind: its exit condition and its captured
/// streams.
#[derive(Debug)]
pub struct ProcessOutcome {
    /// whether the child exited successfully
    pub success: bool,
    /// the exit code, if the child exited normally with one
    pub code: Option<i32>,
    /// everything captured from the child's standard output
    pub stdout: Vec<u8>,
    /// everything captured from the child's standard error
    pub stderr: Vec<u8>,
}

/// Everything that can go wrong before or during an execution.
#[derive(Debug)]
pub enum PandocError {
    /// decoding captured output as UTF-8 failed; holds the count of valid
    /// leading bytes
    BadUtf8Conversion(usize),
    /// an I/O step failed; holds the host's description of the failure
    IoErr(String),
    /// the converter ran and exited with a failure status; holds the
    /// child's outcome whole
    Failure(ProcessOutcome),
    /// no output sink was configured
    NoOutputSpecified,
    /// no input source was configured
    NoInputSpecified,
    /// the converter executable could not be found
    PandocNotFound,
}

/// The text an exit code renders to inside a failure message.
pub open spec fn code_text(c: Option<i32>) -> Seq<char> {
    match c {
        Some(n) => "Some("@ + dec_int(n as int) + ")"@,
        None => "None"@,
    }
}

/// The text an error renders to. A failure of the converter carries its
/// exit code and both captured streams verbatim (decoded leniently).
pub open spec fn error_text(e: PandocError) -> Seq<char> {
    match e {
        PandocError::BadUtf8Conversion(n) => "UTF-8 conversion of pandoc output failed after byte "@
            + dec_nat(n as int) + "."@,
        PandocError::IoErr(m) => m@,
        PandocError::Failure(o) => "exit_code: "@ + code_text(o.code) + "stdout: "@ + utf8_lossy(
            o.stdout@,
        ) + "stderr: "@ + utf8_lossy(o.stderr@),
        PandocError::NoOutputSpecified => "No output file was specified"@,
        PandocError::NoInputSpecified => "No input files were specified"@,
        PandocError::PandocNotFound => "Pandoc not found, did you forget to install pandoc?"@,
    }
}

/// The exit code's place in a failure message.
fn render_code(c: &Option<i32>) -> (r: String)
    ensures
        r@ == code_text(*c),
{
    match c {
        Some(n) => {
            let mut s = "Some(".to_owned();
            s.append(render_i64(*n as i64).as_str());
            s.append(")");
            proof {
                assert(s@ =~= code_text(*c));
            }
            s
        },
        None => "None".to_owned(),
    }
}

impl PandocError {
    /// The error as text, exactly [`error_text`].
    pub fn message(&self) -> (r: String)
        ensures
            r@ == error_text(*self),
    {
        match self {
            PandocError::BadUtf8Conversion(n) => {
                let mut s = "UTF-8 conversion of pandoc output failed after byte ".to_owned();
                s.append(render_u64(*n as u64).as_str());
                s.append(".");
                proof {
                    assert(s@ =~= error_text(*self));
                }
                s
            },
            PandocError::IoErr(m) => m.clone(),
            PandocError::Failure(o) => {
                let mut s = "exit_code: ".to_owned();
                s.append(render_code(&o.code).as_str());
                s.append("stdout: ");
                s.append(lossy_utf8(&o.stdout).as_str());
                s.append("stderr: ");
                s.append(lossy_utf8(&o.stderr).as_str());
                proof {
                    assert(s@ =~= error_text(*self));
                }
                s
            },
            PandocError::NoOutputSpecified => "No output file was specified".to_owned(),
            PandocError::NoInputSpecified => "No input files were specified".to_owned(),
            PandocError::PandocNotFound => {
                "Pandoc not found, did you forget to install pandoc?".to_owned()
            },
        }
    }

    /// The error for a failed I/O step. The host tells the not-found
    /// condition apart at the point the child fails to start; it becomes
    /// the distinct converter-not-found kind, everything else keeps its
    /// description.
    pub fn from_io(not_found: bool, description: String) -> (e: PandocError)
        ensures
            not_found ==> e is PandocNotFound,
            !not_found ==> (e matches PandocError::IoErr(m) && m@ == description@),
    {
        if not_found {
            PandocError::PandocNotFound
        } else {
            PandocError::IoErr(description)
        }
    }
}

} // verus!
