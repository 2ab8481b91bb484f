use vstd::prelude::*;

use anchor_lang::prelude::Clock;
use anchor_lang::prelude::SolanaSysvar;

verus! {

/// The runtime's error type, carried through opaquely.
#[verifier::external_type_specification]
#[verifier::external_body]
pub struct ExProgramError(anchor_lang::prelude::ProgramError);

/// Reads the cluster clock through `Clock::get` (the `sol_get_sysvar`
/// syscall) and hands back its `unix_timestamp`, or the runtime's error.
/// Nothing is stated of the value: it is the time at which the call runs.
#[verifier::external_body]
pub(crate) fn current_unix_timestamp() -> (now: Result<i64, anchor_lang::prelude::ProgramError>) {
    <Clock as SolanaSysvar>::get().map(|clock| clock.unix_timestamp)
}

} // verus!
