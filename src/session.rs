//! The decisions of one run of the tool, apart from its I/O: which
//! arguments form the invocation string, which configuration file to load,
//! and the record that is logged for the run.
use vstd::prelude::*;

use crate::response::ResponseEntry;
use crate::table::{resolves_to, ResponseTable};


verus! {

/// The views of a list of arguments.
pub open spec fn args_view(args: Seq<String>) -> Seq<Seq<char>> {
    args.map_values(|a: String| a@)
}

/// How many leading arguments are not part of the command: the program
/// name, and after it an optional `-P <port>` pair. Never more than there are.
pub open spec fn command_start_spec(args: Seq<Seq<char>>) -> int {
    if args.len() >= 2 && args[1] == "-P"@ {
        if args.len() >= 3 { 3 } else { args.len() as int }
    } else if args.len() >= 1 {
        1
    } else {
        0
    }
}

/// The words joined with single spaces.
pub open spec fn join_words(words: Seq<Seq<char>>) -> Seq<char>
    decreases words.len(),
{
    if words.len() == 0 {
        Seq::empty()
    } else if words.len() == 1 {
        words[0]
    } else {
        join_words(words.drop_last()) + " "@ + words.last()
    }
}

/// The invocation string of a raw argument list: the arguments after the
/// leading ones, joined with single spaces.
pub open spec fn invocation_of(args: Seq<Seq<char>>) -> Seq<char> {
    join_words(args.subrange(command_start_spec(args), args.len() as int))
}

/// The index of the first argument that belongs to the command.
pub fn command_start(args: &Vec<String>) -> (r: usize)
    ensures
        r == command_start_spec(args_view(args@)),
{
    let ghost av = args_view(args@);
    if args.len() >= 2 && args[1] == String::from_str("-P") {
        assert(av[1] == "-P"@);
        if args.len() >= 3 { 3 } else { args.len() }
    } else {
        assert(args.len() >= 2 ==> av[1] == args@[1]@);
        if args.len() >= 1 { 1 } else { 0 }
    }
}

/// Joins the arguments after the leading ones with single spaces.
pub fn invocation_string(args: &Vec<String>) -> (r: String)
    ensures
        r@ == invocation_of(args_view(args@)),
{
    let ghost av = args_view(args@);
    let start = command_start(args);
    let ghost words = av.subrange(start as int, av.len() as int);
    let mut r = String::new();
    let mut i: usize = start;
    while i < args.len()
        invariant
            av == args_view(args@),
            words == av.subrange(start as int, av.len() as int),
            start <= i <= args@.len(),
            r@ == join_words(words.subrange(0, i - start)),
        decreases args@.len() - i,
    {
        let ghost prefix = words.subrange(0, i - start + 1);
        assert(prefix.drop_last() =~= words.subrange(0, i - start));
        assert(prefix.last() == args@[i as int]@);
        if i > start {
            r.append(" ");
        } else {
            assert(words.subrange(0, 0) =~= Seq::<Seq<char>>::empty());
        }
        r.append(args[i].as_str());
        i = i + 1;
    }
    assert(words.subrange(0, i - start) =~= words);
    r
}

/// The line recorded in the audit log for an invocation.
pub open spec fn audit_line_spec(invocation: Seq<char>) -> Seq<char> {
    "ADB "@ + invocation
}

/// The audit-log line for an invocation: a fixed tag and the invocation string.
pub fn audit_line(invocation: &str) -> (r: String)
    ensures
        r@ == audit_line_spec(invocation@),
{
    let mut line = String::from_str("ADB ");
    line.append(invocation);
    line
}

/// The configuration file to load: the override when one is given, the
/// default location otherwise.
pub fn config_path(override_path: Option<String>, default_path: String) -> (r: String)
    ensures
        r@ == (match override_path {
            Some(p) => p@,
            None => default_path@,
        }),
{
    match override_path {
        Some(p) => p,
        None => default_path,
    }
}

/// What one run of the tool logs: the raw arguments it received, the
/// invocation string built from them, and the response that was resolved.
#[derive(Clone, Debug, PartialEq, Eq)]
pub struct InvocationRecord {
    pub args: Vec<String>,
    pub invocation: String,
    pub response: ResponseEntry,
}

/// Handles one invocation: builds the invocation string from the raw
/// arguments, resolves it against the table and records the outcome.
pub fn respond(table: &ResponseTable, args: Vec<String>) -> (r: InvocationRecord)
    ensures
        args_view(r.args@) == args_view(args@),
        r.invocation@ == invocation_of(args_view(args@)),
        resolves_to(table@, r.invocation@, r.response@),
{
    let invocation = invocation_string(&args);
    let response = table.resolve(invocation.as_str());
    InvocationRecord { args, invocation, response }
}

} // verus!
