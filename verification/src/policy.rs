//! The allow-list that a command line is held to before anything is launched:
//! one program, a fixed set of subcommands, and a set of characters that no
//! command line may hold.

use vstd::prelude::*;
use crate::text::same_text;

verus! {

/// The one program that may be launched.
pub const AUTHORIZED_PROGRAM: &'static str = "ollama";

/// The characters that no command line may hold.
pub const FORBIDDEN_CHARACTERS: &'static str = "&;|<>()`$";

/// The name of the one program that may be launched.
pub open spec fn authorized_program() -> Seq<char> {
    AUTHORIZED_PROGRAM@
}

/// The subcommands that may follow the program name.
pub open spec fn allowed_subcommands() -> Seq<Seq<char>> {
    seq![
        "serve"@,
        "create"@,
        "show"@,
        "run"@,
        "stop"@,
        "pull"@,
        "push"@,
        "list"@,
        "ps"@,
        "cp"@,
        "rm"@,
        "help"@,
        "--version"@,
        "--help"@,
    ]
}

/// Whether `c` is a shell metacharacter that no command line may hold.
pub open spec fn is_forbidden(c: char) -> bool {
    ||| c == '&'
    ||| c == ';'
    ||| c == '|'
    ||| c == '<'
    ||| c == '>'
    ||| c == '('
    ||| c == ')'
    ||| c == '`'
    ||| c == '$'
}

/// Whether some character of `s` is forbidden.
pub open spec fn has_forbidden(s: Seq<char>) -> bool {
    exists|i: int| 0 <= i < s.len() && is_forbidden(#[trigger] s[i])
}

/// Whether `token` is one of the allowed subcommands.
pub open spec fn is_allowed_subcommand(token: Seq<char>) -> bool {
    allowed_subcommands().contains(token)
}

/// The forbidden characters are exactly those of `FORBIDDEN_CHARACTERS`.
pub proof fn lemma_forbidden_characters(c: char)
    ensures
        is_forbidden(c) <==> FORBIDDEN_CHARACTERS@.contains(c),
{
    reveal_strlit("&;|<>()`$");
    let f = FORBIDDEN_CHARACTERS@;
    if is_forbidden(c) {
        assert(f[0] == '&' && f[1] == ';' && f[2] == '|' && f[3] == '<' && f[4] == '>' && f[5]
            == '(' && f[6] == ')' && f[7] == '`' && f[8] == '$');
    }
}

/// Decides whether `c` is forbidden.
pub fn char_is_forbidden(c: char) -> (r: bool)
    ensures
        r == is_forbidden(c),
{
    c == '&' || c == ';' || c == '|' || c == '<' || c == '>' || c == '(' || c == ')' || c == '`'
        || c == '$'
}

/// Decides whether `s` holds a forbidden character.
pub fn contains_forbidden(s: &str) -> (r: bool)
    ensures
        r == has_forbidden(s@),
{
    let mut found = false;
    for c in it: s.chars()
        invariant
            it.seq() == s@,
            found == has_forbidden(s@.take(it.index())),
    {
        let ghost before = s@.take(it.index());
        let ghost after = s@.take(it.index() + 1);
        proof {
            if has_forbidden(before) {
                let i = choose|i: int| 0 <= i < before.len() && is_forbidden(#[trigger] before[i]);
                assert(after[i] == before[i]);
            }
            if is_forbidden(c) {
                assert(after[it.index()] == c);
            }
            if has_forbidden(after) && !is_forbidden(c) {
                let i = choose|i: int| 0 <= i < after.len() && is_forbidden(#[trigger] after[i]);
                assert(before[i] == after[i]);
            }
        }
        if char_is_forbidden(c) {
            found = true;
        }
    }
    assert(s@.take(s@.len() as int) == s@);
    found
}

/// Decides whether `name` is the authorized program.
pub fn is_authorized_program(name: &str) -> (r: bool)
    ensures
        r == (name@ == authorized_program()),
{
    same_text(name, AUTHORIZED_PROGRAM)
}

/// The allowed subcommands, in the order of `allowed_subcommands`.
fn subcommand_table() -> (table: Vec<&'static str>)
    ensures
        table.len() == allowed_subcommands().len(),
        forall|i: int| 0 <= i < table.len() ==> (#[trigger] table@[i])@ == allowed_subcommands()[i],
{
    vec![
        "serve",
        "create",
        "show",
        "run",
        "stop",
        "pull",
        "push",
        "list",
        "ps",
        "cp",
        "rm",
        "help",
        "--version",
        "--help",
    ]
}

/// Decides whether `token` is one of the allowed subcommands.
pub fn subcommand_is_allowed(token: &str) -> (r: bool)
    ensures
        r == is_allowed_subcommand(token@),
{
    let table = subcommand_table();
    let mut i: usize = 0;
    while i < table.len()
        invariant
            i <= table.len(),
            table.len() == allowed_subcommands().len(),
            forall|k: int|
                0 <= k < table.len() ==> (#[trigger] table@[k])@ == allowed_subcommands()[k],
            forall|k: int| 0 <= k < i ==> allowed_subcommands()[k] != token@,
        decreases table.len() - i,
    {
        if same_text(table[i], token) {
            return true;
        }
        i += 1;
    }
    false
}

} // verus!
