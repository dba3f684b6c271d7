//! The failures that an operation reports.

use vstd::prelude::*;

verus! {

/// Why an operation was refused. Every failure ends the call before anything
/// was changed.
#[derive(Clone, Copy, Debug, PartialEq, Eq, Structural)]
pub enum PaymentProcessorError {
    /// The caller is neither the owner nor an admin.
    UnauthorizedAccess,
    /// Someone other than the owner tried to replace the owner.
    OnlyOwnerCanChangeOwner,
    /// The identity to add is an admin already.
    AdminAlreadyExists,
    /// The identity to remove is no admin.
    AdminNotFound,
    /// The amount asked for is more than what is available.
    InsufficientFunds,
    /// The mint is not the accepted mint.
    InvalidTokenMint,
    /// The token program is not supported, or an account belongs to another program.
    InvalidTokenProgram,
    /// A token record is too short or names another mint or holder.
    InvalidTokenAccount,
}

impl PaymentProcessorError {
    /// The text that goes with each failure.
    pub open spec fn spec_message(self) -> Seq<char> {
        match self {
            PaymentProcessorError::UnauthorizedAccess => {
                "Unauthorized access - only owner or admin can perform this action"@
            },
            PaymentProcessorError::OnlyOwnerCanChangeOwner => {
                "Only the owner can change the program owner"@
            },
            PaymentProcessorError::AdminAlreadyExists => "Admin already exists"@,
            PaymentProcessorError::AdminNotFound => "Admin not found"@,
            PaymentProcessorError::InsufficientFunds => {
                "Insufficient funds in program token account"@
            },
            PaymentProcessorError::InvalidTokenMint => {
                "Invalid token mint - only Df3shQQ3qZ9qyLfrWTqfjP2TSSAqMvM5zxb2NXQQKaXh is accepted"@
            },
            PaymentProcessorError::InvalidTokenProgram => {
                "Invalid token program - only SPL Token and Token 2022 programs are accepted"@
            },
            PaymentProcessorError::InvalidTokenAccount => {
                "Invalid token account - account data is malformed or constraints not met"@
            },
        }
    }

    /// The text that tells the caller what went wrong.
    pub fn message(&self) -> (text: &'static str)
        ensures
            text@ == self.spec_message(),
    {
        match self {
            PaymentProcessorError::UnauthorizedAccess => {
                "Unauthorized access - only owner or admin can perform this action"
            },
            PaymentProcessorError::OnlyOwnerCanChangeOwner => {
                "Only the owner can change the program owner"
            },
            PaymentProcessorError::AdminAlreadyExists => "Admin already exists",
            PaymentProcessorError::AdminNotFound => "Admin not found",
            PaymentProcessorError::InsufficientFunds => {
                "Insufficient funds in program token account"
            },
            PaymentProcessorError::InvalidTokenMint => {
                "Invalid token mint - only Df3shQQ3qZ9qyLfrWTqfjP2TSSAqMvM5zxb2NXQQKaXh is accepted"
            },
            PaymentProcessorError::InvalidTokenProgram => {
                "Invalid token program - only SPL Token and Token 2022 programs are accepted"
            },
            PaymentProcessorError::InvalidTokenAccount => {
                "Invalid token account - account data is malformed or constraints not met"
            },
        }
    }
}

} // verus!
