use anchor_lang::prelude::{Clock, ProgramError, SolanaSysvar};
use vstd::prelude::*;

verus! {

#[verifier::external_type_specification]
#[verifier::external_body]
pub struct ExProgramError(ProgramError);

/// Relies on `Clock::get` of the clock sysvar: the network's current Unix
/// time, or the error the runtime reports. Nothing is known of the value.
#[verifier::external_body]
pub(crate) fn network_unix_time() -> (r: Result<i64, ProgramError>) {
    <Clock as SolanaSysvar>::get().map(|c| c.unix_timestamp)
}

} // verus!
