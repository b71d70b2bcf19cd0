use vstd::prelude::*;
use crate::error::{Error, ErrorKind};

verus! {

/// The node's RPC error code for a wallet that cannot cover a payment.
pub const RPC_WALLET_INSUFFICIENT_FUNDS: i64 = -6;

/// The error kind of a failed transfer whose RPC error code is `code`
/// (`None` where the failure carried no code, as a lost connection).
pub open spec fn transfer_failure(code: Option<i64>) -> ErrorKind {
    if code == Some(RPC_WALLET_INSUFFICIENT_FUNDS) {
        ErrorKind::InsufficientFunds
    } else {
        ErrorKind::NodeRpc
    }
}

/// Checks a transfer amount, in the node's base unit, before it is sent: it
/// must be positive.
pub fn check_amount(amount: u64) -> (r: crate::error::Result<u64>)
    ensures
        amount > 0 ==> r == Ok::<u64, Error>(amount),
        amount == 0 ==> r == Err::<u64, Error>(Error { kind: ErrorKind::NodeRpc }),
{
    if amount == 0 {
        Err(Error::new(ErrorKind::NodeRpc))
    } else {
        Ok(amount)
    }
}

/// The error reported for a transfer that the node rejected with RPC error
/// code `code`: insufficient funds for the wallet's own code, an RPC error for
/// every other rejection.
pub fn transfer_error(code: Option<i64>) -> (r: Error)
    ensures
        r.kind == transfer_failure(code),
{
    match code {
        Some(c) => if c == RPC_WALLET_INSUFFICIENT_FUNDS {
            Error::new(ErrorKind::InsufficientFunds)
        } else {
            Error::new(ErrorKind::NodeRpc)
        },
        None => Error::new(ErrorKind::NodeRpc),
    }
}

} // verus!
