//! The argument interpreter.
//!
//! Given the process's full argument list (program name first), decide what
//! the program should do: print the usage text, report an invalid operation,
//! or aggregate a file under one of the two supported operations.  The
//! decision never touches the file system; opening the file is the caller's
//! act, and it is instructed to do so only by a `Command::Run`.

use vstd::prelude::*;

verus! {

/// The reduction applied to the accumulated state at the end of a run.
#[derive(Debug, Clone, Copy, PartialEq, Eq, Structural)]
pub enum Operation {
    Mean,
    Sum,
}

/// Whether `t` spells `mean`, each character in either case.
pub open spec fn is_mean_token(t: Seq<char>) -> bool {
    &&& t.len() == 4
    &&& (t[0] == 'm' || t[0] == 'M')
    &&& (t[1] == 'e' || t[1] == 'E')
    &&& (t[2] == 'a' || t[2] == 'A')
    &&& (t[3] == 'n' || t[3] == 'N')
}

/// Whether `t` spells `sum`, each character in either case.
pub open spec fn is_sum_token(t: Seq<char>) -> bool {
    &&& t.len() == 3
    &&& (t[0] == 's' || t[0] == 'S')
    &&& (t[1] == 'u' || t[1] == 'U')
    &&& (t[2] == 'm' || t[2] == 'M')
}

/// The operation an argument token selects: `mean` and `sum` are matched
/// case-insensitively, anything else selects none.
pub open spec fn operation_of_token(t: Seq<char>) -> Option<Operation> {
    if is_mean_token(t) {
        Some(Operation::Mean)
    } else if is_sum_token(t) {
        Some(Operation::Sum)
    } else {
        None
    }
}

/// Parse an operation token, matching `mean` and `sum` case-insensitively.
pub fn parse_operation(token: &str) -> (r: Option<Operation>)
    ensures
        r == operation_of_token(token@),
{
    let n: usize = token.unicode_len();
    if n == 4 {
        let c0 = token.get_char(0);
        let c1 = token.get_char(1);
        let c2 = token.get_char(2);
        let c3 = token.get_char(3);
        if (c0 == 'm' || c0 == 'M') && (c1 == 'e' || c1 == 'E') && (c2 == 'a' || c2 == 'A') && (
        c3 == 'n' || c3 == 'N') {
            Some(Operation::Mean)
        } else {
            None
        }
    } else if n == 3 {
        let c0 = token.get_char(0);
        let c1 = token.get_char(1);
        let c2 = token.get_char(2);
        if (c0 == 's' || c0 == 'S') && (c1 == 'u' || c1 == 'U') && (c2 == 'm' || c2 == 'M') {
            Some(Operation::Sum)
        } else {
            None
        }
    } else {
        None
    }
}

/// What one invocation of the program should do.
#[derive(Debug, PartialEq, Eq)]
pub enum Command {
    /// Too few arguments: print the usage text and stop without error.
    Usage,
    /// The operation token matches neither `mean` nor `sum`: print the
    /// invalid-operation message and stop without error.
    InvalidOperation,
    /// Aggregate the named file under the given operation.
    Run(Operation, String),
}

/// Interpret the full argument list, program name included.  Fewer than three
/// tokens ask for the usage text; an unrecognised operation token asks for
/// the invalid-operation message; otherwise the run is on the operation the
/// second token selects and the path the third token names.  Only a `Run`
/// instructs the caller to touch the file system, so a missing path or a bad
/// token is decided before any file access.
pub fn interpret_args(args: &Vec<String>) -> (c: Command)
    ensures
        args@.len() < 3 ==> c == Command::Usage,
        args@.len() >= 3 && operation_of_token(args@[1]@) is None ==> c
            == Command::InvalidOperation,
        args@.len() >= 3 && operation_of_token(args@[1]@) is Some ==> (c matches Command::Run(
            op,
            path,
        ) && Some(op) == operation_of_token(args@[1]@) && path@ == args@[2]@),
{
    if args.len() < 3 {
        Command::Usage
    } else {
        match parse_operation(args[1].as_str()) {
            None => Command::InvalidOperation,
            Some(op) => Command::Run(op, args[2].clone()),
        }
    }
}

} // verus!
