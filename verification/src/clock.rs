//! The time of the ledger.

use vstd::prelude::*;

verus! {

/// Calls `anchor_lang::prelude::Clock::get` and hands out its
/// `unix_timestamp`, or the error as the code that the runtime reports.
///
/// Nothing is claimed of the reading.
#[verifier::external_body]
fn unix_timestamp() -> (r: Result<i64, u64>) {
    match <anchor_lang::prelude::Clock as anchor_lang::prelude::SolanaSysvar>::get() {
        Ok(clock) => Ok(clock.unix_timestamp),
        Err(error) => Err(u64::from(error)),
    }
}

/// Calls a function and says that its result came from it.
fn outcome<F: Fn() -> Result<i64, u64>>(f: F) -> (r: Result<i64, u64>)
    requires
        call_requires(f, ()),
    ensures
        call_ensures(f, (), r),
{
    f()
}

/// Whether a read of the clock can have given this reading. That is known of
/// what [`read`] hands out and of nothing else.
pub closed spec fn is_reading(clock: Result<i64, u64>) -> bool {
    call_ensures(unix_timestamp, (), clock)
}

/// Reads the clock.
pub fn read() -> (r: Result<i64, u64>)
    ensures
        is_reading(r),
{
    outcome(unix_timestamp)
}

} // verus!
