use vstd::prelude::*;

verus! {

/// Every way an operation of the vault can fail. A failed operation changes nothing.
#[derive(Debug, Clone, Copy, PartialEq, Eq, Structural)]
pub enum SurfError {
    CustomError,
    InvalidAdmin,
    InvalidQuoteTokenMint,
    FullTickRangeTooSmall,
    VaultTickRangeTooSmall,
    VaultTickRangeTooBig,
    HedgeTickRangeTooSmall,
    HedgeTickRangeTooBig,
    InvalidVaultPositionId,
    LowerTickIndexOutOfBounds,
    UpperTickIndexOutOfBounds,
    InvalidTickRangeBounds,
    SlippageExceeded,
    WhirlpoolMintsNotMatching,
    InvalidWhirlpool,
    InvalidWhirlpoolPosition,
    InvalidHedgePosition,
    InvalidSyncOrder,
    WhirlpoolPositionIdOverflow,
    HedgePositionIdOverflow,
    BorrowPositionIndexOverflow,
    UserPositionCanNotBeOpen,
    UserPositionAlreadyHedged,
    UserPositionNotSynced,
    VaultPositionNotHedged,
    VaultPositionAlreadyOpen,
    VaultPositionNotOpened,
    VaultPositionNotUpdated,
    MissingPreviousVaultPositions,
    ZeroLiquidity,
    UserPositionNotEmpty,
    ZeroCollateral,
    ZeroBorrow,
    InvalidBorrowAmount,
    ZeroBaseTokenWhirlpoolAmount,
    CollateralOverflow,
    BorrowOverflow,
    BorrowNotionalOverflow,
    BorrowAmountTooHigh,
    CollateralInterestOverflow,
    BorrowInterestOverflow,
    SqrtPriceNotOutOfBounds,
    HedgePositionNotOutOfHedgeTickRange,
    InvalidWhirlpoolAdjustmentState,
    MissingNextHedgePositionAccount,
    BaseTokenOverflow,
    LiquidityOverflow,
    LiquidityDiffTooHigh,
    TokenMaxExceeded,
    NumberDownCastError,
    MultiplicationOverflow,
    MultiplicationShiftRightOverflow,
    MathError,
}

} // verus!
