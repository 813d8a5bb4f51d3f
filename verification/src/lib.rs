//! A minimal on-chain program: a fixed program identifier, an empty
//! account-validation record, and a single `initialize` instruction that
//! emits one greeting line to the host's log stream and always succeeds.

use vstd::prelude::*;

verus! {

use vstd::string::StringExecFns;

/// The program identifier: the fixed base58 address by which callers
/// reference this program on the host ledger.
pub open spec fn spec_id() -> Seq<char> {
    "7bakb28179KMC9fjosEHtFejynWhkrC8oWLXdZybb8gg"@
}

/// The program identifier as a string.
pub fn id() -> (r: String)
    ensures
        r@ == spec_id(),
{
    String::from_str("7bakb28179KMC9fjosEHtFejynWhkrC8oWLXdZybb8gg")
}

/// The fixed prefix of the diagnostic line the handler emits.
pub open spec fn spec_greeting_prefix() -> Seq<char> {
    "Greetings from: "@
}

/// The one diagnostic line the handler emits: the greeting prefix followed
/// by the identifier of the invoking program.
pub open spec fn spec_greeting(program_id: Seq<char>) -> Seq<char> {
    spec_greeting_prefix() + program_id
}

/// The invocation context the host runtime hands to an instruction handler:
/// the identifier of the program being invoked. This instruction carries no
/// account data and no instruction arguments.
pub struct Context {
    pub program_id: String,
}

/// Account-validation record of the `initialize` instruction. It has zero
/// fields: the instruction requires no account to be supplied, owned,
/// signed, or writable. The host runtime constructs it fresh per invocation
/// and discards it after the call.
pub struct Initialize {}

impl Initialize {
    /// How many accounts the record requires: none.
    pub open spec fn spec_required_accounts() -> nat {
        0
    }

    /// The number of accounts an invocation must supply for this record.
    pub fn required_accounts() -> (n: usize)
        ensures
            n == Self::spec_required_accounts(),
    {
        0
    }

    /// Account validation for this record. The record names no accounts, so
    /// validation inspects nothing and always succeeds; in particular an
    /// invocation supplying zero accounts is accepted. (Rejecting a
    /// transaction that supplies accounts anyway is the host runtime's
    /// account-count check, not this record's.)
    pub fn try_accounts(supplied_accounts: usize) -> (r: Result<Initialize, ()>)
        ensures
            r is Ok,
    {
        let _ = supplied_accounts;
        Ok(Initialize {})
    }
}

/// What one invocation of `initialize` does, as a relation between the log
/// stream before and after the call: the handler succeeds and appends
/// exactly one line, the greeting with the invoking program's identifier.
pub open spec fn initialize_post(
    program_id: Seq<char>,
    old_log: Seq<Seq<char>>,
    r: Result<(), ()>,
    new_log: Seq<Seq<char>>,
) -> bool {
    &&& r is Ok
    &&& new_log == old_log.push(spec_greeting(program_id))
}

/// The `initialize` instruction handler: the sole externally invokable
/// operation. It appends one greeting line to the host's log stream and
/// returns success. There is no failure path, no validation that can reject
/// the call, and no other side effect.
pub fn initialize(ctx: &Context, log: &mut Vec<String>) -> (r: Result<(), ()>)
    ensures
        initialize_post(ctx.program_id@, old(log).deep_view(), r, final(log).deep_view()),
{
    let mut line = String::from_str("Greetings from: ");
    line.append(ctx.program_id.as_str());
    log.push(line);
    proof {
        assert(log.deep_view() =~= old(log).deep_view().push(spec_greeting(ctx.program_id@)));
    }
    Ok(())
}

/// The emitted log line contains the invoking program's identifier, and in
/// particular the program identifier constant, as a substring.
pub proof fn lemma_greeting_contains_program_id(program_id: Seq<char>)
    ensures
        exists|i: int, j: int|
            0 <= i <= j <= spec_greeting(program_id).len() && spec_greeting(program_id).subrange(
                i,
                j,
            ) == program_id,
{
    let p = spec_greeting_prefix().len() as int;
    let g = spec_greeting(program_id);
    assert(g.subrange(p, p + program_id.len()) =~= program_id);
}

/// Idempotence of the handler: any two consecutive invocations with the
/// same context return the same result (success both times) and append the
/// same line to the log, and the first invocation changes nothing that the
/// second invocation's outcome depends on.
pub proof fn lemma_initialize_idempotent(
    program_id: Seq<char>,
    log0: Seq<Seq<char>>,
    r1: Result<(), ()>,
    log1: Seq<Seq<char>>,
    r2: Result<(), ()>,
    log2: Seq<Seq<char>>,
)
    requires
        initialize_post(program_id, log0, r1, log1),
        initialize_post(program_id, log1, r2, log2),
    ensures
        r1 == r2,
        r1 is Ok,
        log1 == log0.push(spec_greeting(program_id)),
        log2 == log1.push(spec_greeting(program_id)),
{
    assert(r1->Ok_0 == ());
    assert(r1 == Ok::<(), ()>(r1->Ok_0));
    assert(r2->Ok_0 == ());
    assert(r2 == Ok::<(), ()>(r2->Ok_0));
}

} // verus!
