//! The time of day, as the runtime gives it.
use vstd::prelude::*;
use anchor_lang::solana_program::clock::Clock;
use anchor_lang::solana_program::program_error::ProgramError;
use anchor_lang::solana_program::sysvar::Sysvar;

verus! {

/// `ProgramError` of `anchor_lang::solana_program`: why the runtime refused a
/// request. Contracts do not look into it.
#[verifier::external_type_specification]
#[verifier::external_body]
pub struct ExProgramError(ProgramError);

/// Calls `Clock::get` of `anchor_lang::solana_program` and takes the field
/// `unix_timestamp` of what it returns.
///
/// Trusted: the call returns. Nothing is claimed of the reading, nor of
/// whether there is one.
#[verifier::external_body]
pub(crate) fn clock_unix_timestamp() -> (reading: Result<i64, ProgramError>) {
    Clock::get().map(|clock| clock.unix_timestamp)
}

} // verus!
