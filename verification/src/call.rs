use vstd::prelude::*;
use crate::account::AccountSnapshot;
use crate::address::Address;
use crate::schema::Violation;

verus! {

/// An instruction of the market maker together with its arguments.
#[derive(Clone, Copy, Debug, PartialEq, Eq)]
pub enum AmmInstruction {
    /// Buy `base_amount_out` base tokens for at most `max_quote_amount_in`
    /// quote tokens. `track_volume` is left unset with `None`.
    Buy { base_amount_out: u64, max_quote_amount_in: u64, track_volume: Option<bool> },
    /// Sell `base_amount_in` base tokens for at least `min_quote_amount_out`
    /// quote tokens.
    Sell { base_amount_in: u64, min_quote_amount_out: u64 },
}

/// One cross-program call into the market maker: the program to call, the
/// accounts to hand it, in the order in which it binds them, and the
/// instruction.
#[derive(Clone, Debug, PartialEq, Eq)]
pub struct Invocation {
    /// The address of the program to call.
    pub program: Address,
    /// The accounts to hand over, in order.
    pub accounts: Vec<AccountSnapshot>,
    /// What the program is asked to do.
    pub instruction: AmmInstruction,
}

/// Why a relayed call did not succeed.
#[derive(Clone, Debug, PartialEq, Eq)]
pub enum RelayError<E> {
    /// The accounts failed the schema, and the market maker was not called.
    Rejected(Violation),
    /// The market maker was called and failed with this error.
    External(E),
}

/// The relay's own result once the market maker has answered: success where
/// the call succeeded, and the market maker's error, as it came, where it
/// failed.
pub fn settle<E>(outcome: Result<(), E>) -> (r: Result<(), RelayError<E>>)
    ensures
        r is Ok <==> outcome is Ok,
        outcome matches Err(e) ==> r == Err::<(), RelayError<E>>(RelayError::External(e)),
{
    match outcome {
        Ok(()) => Ok(()),
        Err(e) => Err(RelayError::External(e)),
    }
}

} // verus!
