//! Canned responses and the failure synthesized for unknown commands.
use vstd::prelude::*;

verus! {

/// The view of an optional string.
pub open spec fn opt_chars(o: Option<String>) -> Option<Seq<char>> {
    match o {
        Some(s) => Some(s@),
        None => None,
    }
}

/// One canned response: what to print, how to exit and how long to wait.
///
/// Every field is optional; an absent field means "emit nothing" (for the
/// streams), "do not force an exit code" or "do not wait".
#[derive(Clone, Debug, PartialEq, Eq)]
pub struct ResponseEntry {
    pub stdout: Option<String>,
    pub stderr: Option<String>,
    pub exit_code: Option<i32>,
    pub delay_ms: Option<u64>,
    /// A regular expression that makes this entry eligible for pattern
    /// matching against invocation strings.
    pub match_pattern: Option<String>,
}

/// The mathematical value of a [`ResponseEntry`].
pub struct ResponseView {
    pub stdout: Option<Seq<char>>,
    pub stderr: Option<Seq<char>>,
    pub exit_code: Option<i32>,
    pub delay_ms: Option<u64>,
    pub match_pattern: Option<Seq<char>>,
}

impl View for ResponseEntry {
    type V = ResponseView;

    open spec fn view(&self) -> ResponseView {
        ResponseView {
            stdout: opt_chars(self.stdout),
            stderr: opt_chars(self.stderr),
            exit_code: self.exit_code,
            delay_ms: self.delay_ms,
            match_pattern: opt_chars(self.match_pattern),
        }
    }
}

/// The text reported on standard error for an invocation that nothing matches.
pub open spec fn unrecognized_message(invocation: Seq<char>) -> Seq<char> {
    "unrecognized command: "@ + invocation
}

/// The response synthesized when no entry matches `invocation`: exit code 1,
/// the "unrecognized command" message on standard error, nothing else.
pub open spec fn fallback_view(invocation: Seq<char>) -> ResponseView {
    ResponseView {
        stdout: None,
        stderr: Some(unrecognized_message(invocation)),
        exit_code: Some(1),
        delay_ms: None,
        match_pattern: None,
    }
}

fn copy_opt_string(o: &Option<String>) -> (r: Option<String>)
    ensures
        opt_chars(r) == opt_chars(*o),
{
    match o {
        Some(s) => Some(s.clone()),
        None => None,
    }
}

impl ResponseEntry {
    /// A field-by-field copy of this entry.
    pub fn copy(&self) -> (r: ResponseEntry)
        ensures
            r@ == self@,
    {
        ResponseEntry {
            stdout: copy_opt_string(&self.stdout),
            stderr: copy_opt_string(&self.stderr),
            exit_code: self.exit_code,
            delay_ms: self.delay_ms,
            match_pattern: copy_opt_string(&self.match_pattern),
        }
    }

    /// The failure response for an invocation that no entry matches.
    pub fn unrecognized(invocation: &str) -> (r: ResponseEntry)
        ensures
            r@ == fallback_view(invocation@),
    {
        let mut message = String::from_str("unrecognized command: ");
        message.append(invocation);
        ResponseEntry {
            stdout: None,
            stderr: Some(message),
            exit_code: Some(1),
            delay_ms: None,
            match_pattern: None,
        }
    }
}

} // verus!
