//! The memecoin factory program.

use vstd::prelude::*;

verus! {

/// The address under which the program is deployed, in base58.
pub const ID: &'static str = "7xcz3vYfUnsesiPKdE47yHdN2JUZ3WbcR4MCk928br2i";

/// The line that `initialize` logs.
pub const INITIALIZE_LOG: &'static str = "Memecoin Factory Initialized!";

/// The accounts of `initialize`: it asks for none.
#[derive(Clone, Copy, Debug, PartialEq, Eq, Structural)]
pub struct Initialize {}

/// The line that an invocation of `initialize` with the accounts `ctx` logs.
/// It does not read `ctx`, and the program keeps no state that it could read.
pub open spec fn logged(ctx: Initialize) -> Seq<char> {
    INITIALIZE_LOG@
}

/// The program's address: the constant `ID`, on every call.
pub fn id() -> (r: &'static str)
    ensures
        r@ == ID@,
{
    ID
}

/// The program's only instruction. It succeeds on every call and hands back
/// the line to log, which is `INITIALIZE_LOG`. It reads and writes nothing.
pub fn initialize(ctx: Initialize) -> (r: anchor_lang::Result<&'static str>)
    ensures
        r is Ok,
        r->Ok_0@ == logged(ctx),
        r->Ok_0@ == INITIALIZE_LOG@,
{
    Ok(INITIALIZE_LOG)
}

/// Invocations do not affect one another: whichever came first, and whatever
/// came between them, any two log the same line.
pub proof fn lemma_invocations_independent(first: Initialize, second: Initialize)
    ensures
        logged(first) == logged(second),
{
}

} // verus!
