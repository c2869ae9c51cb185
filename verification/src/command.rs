//! Validation of a free-text command line against the allow-list.
//!
//! A command line is never handed to a shell. It is checked for forbidden
//! characters, split into words, and the words are checked against the
//! allow-list. What follows the program name becomes the argument vector.

use vstd::prelude::*;
use crate::policy::{
    authorized_program,
    contains_forbidden,
    has_forbidden,
    is_allowed_subcommand,
    is_authorized_program,
    is_forbidden,
    subcommand_is_allowed,
};
use crate::text::{
    is_whitespace,
    lemma_words_come_from_text,
    lemma_words_hold_no_whitespace,
    split_words,
    words,
};

verus! {

/// Why a command line was turned down.
#[derive(Structural, PartialEq, Eq, Clone, Copy, Debug)]
pub enum Rejection {
    /// It holds a forbidden character, names another program, or asks for a
    /// subcommand that is not allowed. Which of these is not told apart.
    UnauthorizedCommand,
    /// It holds no word at all.
    EmptyCommand,
}

/// The verdict on the command line `cmd`: the argument vector to launch the
/// authorized program with, or the reason for turning it down.
///
/// The checks apply in this order: forbidden characters, no words, the program
/// name, the subcommand.
pub open spec fn validate_spec(cmd: Seq<char>) -> Result<Seq<Seq<char>>, Rejection> {
    let tokens = words(cmd);
    if has_forbidden(cmd) {
        Err(Rejection::UnauthorizedCommand)
    } else if tokens.len() == 0 {
        Err(Rejection::EmptyCommand)
    } else if tokens[0] != authorized_program() {
        Err(Rejection::UnauthorizedCommand)
    } else if tokens.len() > 1 && !is_allowed_subcommand(tokens[1]) {
        Err(Rejection::UnauthorizedCommand)
    } else {
        Ok(tokens.skip(1))
    }
}

/// Whether `arg` can stand in an argument vector: it is not empty and holds
/// neither whitespace nor a forbidden character.
pub open spec fn is_plain_argument(arg: Seq<char>) -> bool {
    &&& arg.len() > 0
    &&& forall|i: int|
        0 <= i < arg.len() ==> !is_whitespace(#[trigger] arg[i]) && !is_forbidden(arg[i])
}

/// A command line that holds a forbidden character is turned down as
/// unauthorized, whatever else it holds.
pub proof fn lemma_forbidden_character_rejected(cmd: Seq<char>)
    requires
        has_forbidden(cmd),
    ensures
        validate_spec(cmd) == Err::<Seq<Seq<char>>, Rejection>(Rejection::UnauthorizedCommand),
{
}

/// A command line whose first word is not the authorized program is turned
/// down as unauthorized, with or without a forbidden character.
pub proof fn lemma_other_program_rejected(cmd: Seq<char>)
    requires
        words(cmd).len() > 0,
        words(cmd)[0] != authorized_program(),
    ensures
        validate_spec(cmd) == Err::<Seq<Seq<char>>, Rejection>(Rejection::UnauthorizedCommand),
{
}

/// The argument vector of an accepted command line is what follows the
/// program name, word for word. It begins with an allowed subcommand, if it
/// holds anything, and each of its arguments is plain.
pub proof fn lemma_accepted_arguments(cmd: Seq<char>, args: Seq<Seq<char>>)
    requires
        validate_spec(cmd) == Ok::<Seq<Seq<char>>, Rejection>(args),
    ensures
        words(cmd) == seq![authorized_program()] + args,
        args.len() > 0 ==> is_allowed_subcommand(args[0]),
        forall|n: int| 0 <= n < args.len() ==> is_plain_argument(#[trigger] args[n]),
{
    let tokens = words(cmd);
    assert(tokens == seq![authorized_program()] + args);
    assert forall|n: int| 0 <= n < args.len() implies is_plain_argument(#[trigger] args[n]) by {
        lemma_words_hold_no_whitespace(cmd, n + 1);
        lemma_words_come_from_text(cmd, n + 1);
        assert(args[n] == tokens[n + 1]);
        assert forall|i: int| 0 <= i < args[n].len() implies !is_forbidden(
            #[trigger] args[n][i],
        ) by {
            assert(cmd.contains(tokens[n + 1][i]));
        }
    }
}

/// Checks `cmd` against the allow-list and returns the argument vector for
/// the authorized program.
pub fn validate(cmd: &str) -> (verdict: Result<Vec<String>, Rejection>)
    ensures
        match verdict {
            Ok(args) => validate_spec(cmd@) == Ok::<Seq<Seq<char>>, Rejection>(args.deep_view()),
            Err(reason) => validate_spec(cmd@) == Err::<Seq<Seq<char>>, Rejection>(reason),
        },
{
    if contains_forbidden(cmd) {
        return Err(Rejection::UnauthorizedCommand);
    }
    let mut tokens = split_words(cmd);
    if tokens.len() == 0 {
        return Err(Rejection::EmptyCommand);
    }
    if !is_authorized_program(tokens[0].as_str()) {
        return Err(Rejection::UnauthorizedCommand);
    }
    if tokens.len() > 1 {
        if !subcommand_is_allowed(tokens[1].as_str()) {
            return Err(Rejection::UnauthorizedCommand);
        }
    }
    let ghost all = tokens.deep_view();
    tokens.remove(0);
    assert(tokens.deep_view() == all.skip(1));
    Ok(tokens)
}

} // verus!
