//! Permits for bounded and for exclusive resources.

use vstd::prelude::*;

use crate::errors::DispatchError;

verus! {

/// One unit taken of a bounded counter. It is given back by `release`.
pub struct CounterPermit {
    unit: (),
}

impl CounterPermit {
    /// Takes one unit while fewer than `maximum` are taken.
    pub fn acquire(counter: &mut usize, maximum: usize) -> (permit: Option<CounterPermit>)
        ensures
            permit is Some <==> *old(counter) < maximum,
            permit is Some ==> *final(counter) == *old(counter) + 1,
            permit is None ==> *final(counter) == *old(counter),
    {
        if *counter < maximum {
            *counter = *counter + 1;
            Some(CounterPermit { unit: () })
        } else {
            None
        }
    }

    /// Gives the unit back.
    pub fn release(self, counter: &mut usize)
        requires
            *old(counter) > 0,
        ensures
            *final(counter) == *old(counter) - 1,
    {
        *counter = *counter - 1;
    }
}

/// Exclusive hold of a flag. A permit that was handed off no longer lowers it.
pub struct FlagPermit {
    holds: bool,
}

impl FlagPermit {
    /// Whether this permit lowers the flag when it is released.
    pub closed spec fn holds(&self) -> bool {
        self.holds
    }

    /// Raises the flag where it is down.
    pub fn acquire(flag: &mut bool) -> (permit: Option<FlagPermit>)
        ensures
            permit is Some <==> !*old(flag),
            *final(flag),
            permit matches Some(held) ==> held.holds(),
    {
        if *flag {
            None
        } else {
            *flag = true;
            Some(FlagPermit { holds: true })
        }
    }

    /// Takes over the flag that an earlier holder handed off.
    pub fn take_over_active(flag: &bool) -> (permit: FlagPermit)
        requires
            *flag,
        ensures
            permit.holds(),
    {
        FlagPermit { holds: true }
    }

    /// Leaves the flag raised for whoever takes it over.
    pub fn handoff(self) -> (permit: FlagPermit)
        ensures
            !permit.holds(),
    {
        FlagPermit { holds: false }
    }

    /// Lowers the flag, unless it was handed off.
    pub fn release(self, flag: &mut bool)
        ensures
            *final(flag) == (*old(flag) && !self.holds()),
    {
        if self.holds {
            *flag = false;
        }
    }
}

/// What an attempt to enter a guarded section gave. A section that a panic
/// left in doubt is never entered again.
pub fn lock<G, E>(attempt: Result<G, E>) -> (guard: Result<G, DispatchError>)
    ensures
        attempt is Ok ==> guard == Ok::<G, DispatchError>(attempt->Ok_0),
        attempt is Err ==> guard == Err::<G, DispatchError>(DispatchError::Internal),
{
    match attempt {
        Ok(guard) => Ok(guard),
        Err(_) => Err(DispatchError::Internal),
    }
}

/// Lets go of the commit section where the mutation that entered it failed.
pub fn release_failed_commit_guard<T, E, G>(result: &Result<T, E>, commit_guard: &mut Option<G>)
    ensures
        *final(commit_guard) == (if result is Err { None } else { *old(commit_guard) }),
{
    if result.is_err() {
        *commit_guard = None;
    }
}

} // verus!
