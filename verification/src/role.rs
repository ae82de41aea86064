//! The operational role of the running user, resolved once from the
//! command-line arguments.

use vstd::prelude::*;
use vstd::string::StringExecFns;

verus! {

/// The closed set of operational personas the shell can present, plus the
/// distinguished default `Generic`, which stands for "no valid role supplied".
#[derive(Clone, Copy, PartialEq, Eq, Structural, Debug)]
pub enum Role {
    OwnerOperator,
    FleetManager,
    FreightBroker,
    TruckStop,
    Generic,
}

/// The token under which a role is spelled on the command line and in the
/// launch URL's query parameter.
pub open spec fn role_token(r: Role) -> Seq<char> {
    match r {
        Role::OwnerOperator => "owner-operator"@,
        Role::FleetManager => "fleet-manager"@,
        Role::FreightBroker => "freight-broker"@,
        Role::TruckStop => "truck-stop"@,
        Role::Generic => "generic"@,
    }
}

/// Whether a command-line token spells one of the four closed-set roles.
/// `generic` is deliberately not accepted here: it is the fallback, never a
/// value a caller may select explicitly.
pub open spec fn valid_role_token(t: Seq<char>) -> bool {
    ||| t == "owner-operator"@
    ||| t == "fleet-manager"@
    ||| t == "freight-broker"@
    ||| t == "truck-stop"@
}

/// The role a valid token spells; `Generic` on any other token.
pub open spec fn role_of_token(t: Seq<char>) -> Role {
    if t == "owner-operator"@ {
        Role::OwnerOperator
    } else if t == "fleet-manager"@ {
        Role::FleetManager
    } else if t == "freight-broker"@ {
        Role::FreightBroker
    } else if t == "truck-stop"@ {
        Role::TruckStop
    } else {
        Role::Generic
    }
}

/// The token that introduces a role choice on the command line.
pub open spec fn role_flag() -> Seq<char> {
    "--role"@
}

/// The role the argument scan yields from position `i` on, with no valid
/// choice seen so far. The scan looks for a token equal to `--role` that is
/// followed by another token; a valid following token decides the role, an
/// invalid one is consumed together with its flag and the scan goes on.
pub open spec fn resolved_role_from(args: Seq<Seq<char>>, i: int) -> Role
    decreases args.len() - i,
{
    if i + 1 >= args.len() {
        Role::Generic
    } else if args[i] == role_flag() {
        if valid_role_token(args[i + 1]) {
            role_of_token(args[i + 1])
        } else {
            resolved_role_from(args, i + 2)
        }
    } else {
        resolved_role_from(args, i + 1)
    }
}

/// The role an argument list resolves to. The token at index 0 is the
/// program name and never matched as a flag, so the scan starts at index 1.
pub open spec fn resolved_role(args: Seq<Seq<char>>) -> Role {
    resolved_role_from(args, 1)
}

/// The view of an argument vector: each token as its character sequence.
pub open spec fn args_view(args: Seq<String>) -> Seq<Seq<char>> {
    args.map_values(|s: String| s@)
}

/// Whether an exec token equals a fixed spelling.
fn token_is(s: &String, lit: &str) -> (r: bool)
    ensures
        r == (s@ == lit@),
{
    let l = String::from_str(lit);
    *s == l
}

/// The role a candidate token selects, if it is in the closed set.
pub fn role_from_token(s: &String) -> (r: Option<Role>)
    ensures
        valid_role_token(s@) ==> r == Some(role_of_token(s@)),
        !valid_role_token(s@) ==> r is None,
{
    if token_is(s, "owner-operator") {
        Some(Role::OwnerOperator)
    } else if token_is(s, "fleet-manager") {
        Some(Role::FleetManager)
    } else if token_is(s, "freight-broker") {
        Some(Role::FreightBroker)
    } else if token_is(s, "truck-stop") {
        Some(Role::TruckStop)
    } else {
        None
    }
}

/// Resolves the role from the raw process arguments: the first `--role`
/// occurrence that is immediately followed by a closed-set value decides;
/// a dangling or invalid occurrence is silently skipped; with no valid
/// occurrence the result is `Generic`. Never fails.
pub fn resolve_role(args: &Vec<String>) -> (r: Role)
    ensures
        r == resolved_role(args_view(args@)),
{
    let ghost v: Seq<Seq<char>> = args_view(args@);
    let mut i: usize = 1;
    while i < args.len() && i + 1 < args.len()
        invariant
            1 <= i,
            v == args_view(args@),
            v.len() == args@.len(),
            resolved_role(v) == resolved_role_from(v, i as int),
        decreases args@.len() - i,
    {
        if token_is(&args[i], "--role") {
            match role_from_token(&args[i + 1]) {
                Some(r) => {
                    return r;
                },
                None => {
                    i = i + 2;
                },
            }
        } else {
            i = i + 1;
        }
    }
    Role::Generic
}

/// The scan's result does not change while it walks over tokens that are
/// not the flag.
proof fn lemma_scan_skips_nonflags(args: Seq<Seq<char>>, k: int, i: int)
    requires
        1 <= k <= i,
        i + 1 < args.len(),
        forall|j: int| k <= j < i ==> args[j] != role_flag(),
    ensures
        resolved_role_from(args, k) == resolved_role_from(args, i),
    decreases i - k,
{
    if k < i {
        lemma_scan_skips_nonflags(args, k + 1, i);
    }
}

/// A `--role` occurrence that carries a closed-set value and is preceded by
/// no other `--role` token decides the resolution — whatever tokens,
/// including further `--role` occurrences, come after it.
pub proof fn lemma_first_valid_role_wins(args: Seq<Seq<char>>, i: int)
    requires
        1 <= i,
        i + 1 < args.len(),
        args[i] == role_flag(),
        valid_role_token(args[i + 1]),
        forall|j: int| 1 <= j < i ==> args[j] != role_flag(),
    ensures
        resolved_role(args) == role_of_token(args[i + 1]),
{
    lemma_scan_skips_nonflags(args, 1, i);
}

/// From any starting point, a scan over an argument list in which no
/// `--role` token is followed by a closed-set value ends in `Generic`.
proof fn lemma_no_valid_pair_from(args: Seq<Seq<char>>, k: int)
    requires
        1 <= k,
        forall|j: int|
            1 <= j && j + 1 < args.len() && #[trigger] args[j] == role_flag()
                ==> !valid_role_token(args[j + 1]),
    ensures
        resolved_role_from(args, k) == Role::Generic,
    decreases args.len() - k,
{
    if k + 1 < args.len() {
        if args[k] == role_flag() {
            assert(!valid_role_token(args[k + 1]));
            lemma_no_valid_pair_from(args, k + 2);
        } else {
            lemma_no_valid_pair_from(args, k + 1);
        }
    }
}

/// An invalid value after a `--role` does not end the scan: resolution
/// continues right after the consumed pair, so a valid occurrence further
/// on can still decide the role.
pub proof fn lemma_invalid_occurrence_scan_continues(args: Seq<Seq<char>>, i: int)
    requires
        1 <= i,
        i + 1 < args.len(),
        args[i] == role_flag(),
        !valid_role_token(args[i + 1]),
        forall|j: int| 1 <= j < i ==> args[j] != role_flag(),
    ensures
        resolved_role(args) == resolved_role_from(args, i + 2),
{
    lemma_scan_skips_nonflags(args, 1, i);
}

/// An argument list in which no `--role` occurrence carries a closed-set
/// value — each is dangling or followed by an invalid token — resolves to
/// `Generic`.
pub proof fn lemma_no_valid_role_yields_generic(args: Seq<Seq<char>>)
    requires
        forall|j: int|
            1 <= j && j + 1 < args.len() && #[trigger] args[j] == role_flag()
                ==> !valid_role_token(args[j + 1]),
    ensures
        resolved_role(args) == Role::Generic,
{
    lemma_no_valid_pair_from(args, 1);
}

/// An argument list with no `--role` token at all, or whose only `--role`
/// token stands last (dangling, with no value after it), resolves to
/// `Generic`.
pub proof fn lemma_missing_or_dangling_flag_yields_generic(args: Seq<Seq<char>>)
    requires
        forall|j: int| 1 <= j && j + 1 < args.len() ==> args[j] != role_flag(),
    ensures
        resolved_role(args) == Role::Generic,
{
    lemma_no_valid_role_yields_generic(args);
}

/// The role's command-line/URL spelling, as a borrowed string.
pub fn role_as_str(r: Role) -> (s: &'static str)
    ensures
        s@ == role_token(r),
{
    match r {
        Role::OwnerOperator => "owner-operator",
        Role::FleetManager => "fleet-manager",
        Role::FreightBroker => "freight-broker",
        Role::TruckStop => "truck-stop",
        Role::Generic => "generic",
    }
}

} // verus!
