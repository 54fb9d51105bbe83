//! The error taxonomy of the output path: the destination could not be
//! created, or buffered output could not be flushed. Either is terminal to
//! the requested operation but never to the profiled execution; a teardown
//! failure is reported as a causal chain of diagnostic lines rather than
//! propagated.

use vstd::prelude::*;
use vstd::string::StringExecFns;

verus! {

/// What went wrong, with the rendered message of the underlying I/O cause.
pub enum Kind {
    /// The output destination could not be created or truncated.
    CreateFile {
        /// The path of the destination that could not be created.
        path: String,
        /// The rendered message of the underlying I/O error.
        cause: String,
    },
    /// Buffered output could not be persisted to the destination.
    FlushFile {
        /// The rendered message of the underlying I/O error.
        cause: String,
    },
}

/// The error type of the output path.
pub struct Error(pub Kind);

/// The operator-visible message of an error.
pub open spec fn spec_error_message(kind: Kind) -> Seq<char> {
    match kind {
        Kind::CreateFile { path, cause } => "cannot create output file. path="@ + path@,
        Kind::FlushFile { cause } => "cannot flush output buffer"@,
    }
}

/// The message of the underlying I/O cause of an error.
pub open spec fn spec_error_cause(kind: Kind) -> Seq<char> {
    match kind {
        Kind::CreateFile { path, cause } => cause@,
        Kind::FlushFile { cause } => cause@,
    }
}

/// The diagnostic lines reporting an error: a header, then the causal chain,
/// one indexed line per link — the error's own message, then its cause.
pub open spec fn spec_report_lines(error: Error) -> Seq<Seq<char>> {
    seq![
        "Error:"@,
        "    0: "@ + spec_error_message(error.0),
        "    1: "@ + spec_error_cause(error.0),
    ]
}

impl Error {
    /// The operator-visible message of this error.
    pub fn message(&self) -> (message: String)
        ensures
            message@ == spec_error_message(self.0),
    {
        match &self.0 {
            Kind::CreateFile { path, cause } => {
                let mut message = String::new();
                message.append("cannot create output file. path=");
                message.append(path.as_str());
                message
            },
            Kind::FlushFile { cause } => String::from_str("cannot flush output buffer"),
        }
    }

    /// The message of this error's underlying I/O cause.
    pub fn cause_message(&self) -> (cause: String)
        ensures
            cause@ == spec_error_cause(self.0),
    {
        match &self.0 {
            Kind::CreateFile { path, cause } => cause.clone(),
            Kind::FlushFile { cause } => cause.clone(),
        }
    }

    /// The diagnostic lines that report this error to the operator: a header
    /// followed by the indexed causal chain. Writing them anywhere is the
    /// embedding application's concern.
    pub fn report_lines(&self) -> (lines: Vec<String>)
        ensures
            lines.deep_view() == spec_report_lines(*self),
    {
        let mut lines: Vec<String> = Vec::new();
        lines.push(String::from_str("Error:"));
        let mut first = String::from_str("    0: ");
        first.append(self.message().as_str());
        lines.push(first);
        let mut second = String::from_str("    1: ");
        second.append(self.cause_message().as_str());
        lines.push(second);
        proof {
            assert(lines.deep_view() =~= spec_report_lines(*self));
        }
        lines
    }
}

/// Law: reporting an error always yields a non-empty causal chain — a header
/// line and two chain links, whatever the error holds.
pub proof fn lemma_report_chain_nonempty(error: Error)
    ensures
        spec_report_lines(error).len() == 3,
        spec_report_lines(error)[1] == "    0: "@ + spec_error_message(error.0),
        spec_report_lines(error)[2] == "    1: "@ + spec_error_cause(error.0),
{
}

} // verus!
