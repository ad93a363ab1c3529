use vstd::prelude::*;

verus! {

/// Failure kinds surfaced by the vault's operations.
#[derive(Clone, Copy, Debug, PartialEq, Eq, Structural)]
pub enum ErrorCode {
    /// A checked arithmetic step overflowed, underflowed or divided by zero.
    ArithmeticError,
    /// Admission, unstake or transfer asked for more shares than are there.
    InsufficientShares,
    /// Distribution was attempted before every share was allocated.
    SharesNotFullyAllocated,
    /// A token-model pool was created without a membership mint.
    MintAccountRequired,
    /// The operation does not belong to the pool's membership model.
    InvalidMembershipModel,
    /// The voucher's shape does not match the pool's membership model.
    InvalidMembershipVoucher,
    /// The token account does not hold the expected mint.
    MintDoesNotMatch,
    /// The account is not owned by the expected owner.
    IncorrectOwner,
    /// The wallet holds no unit of the membership token.
    WalletDoesNotOwnMembershipToken,
    /// The sub-pool record does not belong to the given pool or asset.
    InvalidFanoutForMint,
    /// The member did not settle immediately before this operation.
    MustDistribute,
    /// The transfer names the same member on both sides.
    TransferNotSupported,
}

/// Turns a failed checked-arithmetic result into `ErrorCode::ArithmeticError`.
pub trait OrArithError<T>: Sized {
    /// The optional value that `self` stands for.
    spec fn arith_value(&self) -> Option<T>;

    fn or_arith_error(self) -> (r: Result<T, ErrorCode>)
        ensures
            r == match self.arith_value() {
                Some(v) => Ok(v),
                None => Err::<T, ErrorCode>(ErrorCode::ArithmeticError),
            },
    ;
}

impl OrArithError<u64> for Option<u64> {
    open spec fn arith_value(&self) -> Option<u64> {
        *self
    }

    fn or_arith_error(self) -> (r: Result<u64, ErrorCode>) {
        match self {
            Some(v) => Ok(v),
            None => Err(ErrorCode::ArithmeticError),
        }
    }
}

impl OrArithError<u32> for Option<u32> {
    open spec fn arith_value(&self) -> Option<u32> {
        *self
    }

    fn or_arith_error(self) -> (r: Result<u32, ErrorCode>) {
        match self {
            Some(v) => Ok(v),
            None => Err(ErrorCode::ArithmeticError),
        }
    }
}

impl OrArithError<u128> for Option<u128> {
    open spec fn arith_value(&self) -> Option<u128> {
        *self
    }

    fn or_arith_error(self) -> (r: Result<u128, ErrorCode>) {
        match self {
            Some(v) => Ok(v),
            None => Err(ErrorCode::ArithmeticError),
        }
    }
}

} // verus!
