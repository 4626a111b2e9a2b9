use vstd::prelude::*;

verus! {

/// Why an operation was refused. A refused operation changes nothing.
#[derive(Clone, Copy, Debug, PartialEq, Eq, Structural)]
pub enum ErrorCode {
    /// A native withdrawal asked for more than the vault holds.
    InsufficientFunds,
    /// A token withdrawal came before the lock expired.
    WithdrawalTooSoon,
    /// Setup ran against records that already exist.
    AlreadyInitialized,
    /// A balance would underflow or overflow.
    ArithmeticFault,
    /// An account is not the one derived from its fixed label.
    ConstraintSeeds,
    /// A token sub-account holds another token type than the mint given.
    ConstraintTokenMint,
    /// A token sub-account belongs to another identity than expected.
    ConstraintTokenOwner,
    /// The token-transfer collaborator refused: the source balance is short.
    TransferError,
}

impl ErrorCode {
    /// The human-readable line logged with the error.
    pub fn message(&self) -> &'static str {
        match self {
            ErrorCode::InsufficientFunds => "Insufficient funds in vault",
            ErrorCode::WithdrawalTooSoon => "Cannot withdraw within 24 hours of initialization",
            ErrorCode::AlreadyInitialized => "Program state already initialized",
            ErrorCode::ArithmeticFault => "Balance underflow or overflow",
            ErrorCode::ConstraintSeeds => "Account is not derived from its seeds",
            ErrorCode::ConstraintTokenMint => "Token account has the wrong mint",
            ErrorCode::ConstraintTokenOwner => "Token account has the wrong owner",
            ErrorCode::TransferError => "Insufficient token balance for transfer",
        }
    }
}

} // verus!
