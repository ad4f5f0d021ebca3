//! A minimal on-chain lending-and-borrowing program core: a declared program
//! identifier, an initialization entry point that always succeeds over an
//! empty accounts context, and the error kinds reserved for the borrow and
//! repay logic to come.

use vstd::prelude::*;
use vstd::string::StringExecFns;

pub mod error;

use error::ErrorCode;

verus! {

/// The program's declared on-chain identifier, in its base-58 text form.
pub open spec fn spec_program_id() -> Seq<char> {
    "9GENDEWDVn6iUHuEbHZDUbWojXMX4J9gri7BUmvuzES9"@
}

/// The program's declared on-chain identifier, as callers and the host
/// runtime see it.
pub fn declared_program_id() -> (id: &'static str)
    ensures
        id@ == spec_program_id(),
{
    "9GENDEWDVn6iUHuEbHZDUbWojXMX4J9gri7BUmvuzES9"
}

/// The diagnostic line the initialization handler emits, for a given
/// program identifier.
pub open spec fn spec_greeting(id: Seq<char>) -> Seq<char> {
    "Greetings from: "@ + id
}

/// Builds the diagnostic line of the initialization handler: a fixed
/// prefix followed by the program identifier.
pub fn greeting(program_id: &str) -> (m: String)
    ensures
        m@ == spec_greeting(program_id@),
{
    let prefix = String::from_str("Greetings from: ");
    prefix.concat(program_id)
}

/// The accounts context of the initialization entry point. It carries no
/// account references: the handler reads and writes no persistent state.
pub struct Initialize {}

/// The initialization entry point: accepts the empty context and succeeds
/// unconditionally. No error path is reachable, and no account is mutated
/// (the context holds none).
pub fn initialize(ctx: Initialize) -> (r: Result<(), ErrorCode>)
    ensures
        r == Ok::<(), ErrorCode>(()),
{
    let Initialize {  } = ctx;
    Ok(())
}

} // verus!
