//! The part of a token account's data that both token programs lay out alike.
//!
//! | bytes    | field                               |
//! |----------|-------------------------------------|
//! | `0..32`  | mint                                |
//! | `32..64` | holder                              |
//! | `64..72` | balance, unsigned, little-endian    |
//!
//! Nothing beyond byte 72 is read.

use crate::error::PaymentProcessorError;
use crate::identity::{identity_from_slice, Identity};
use vstd::bytes::{spec_u64_from_le_bytes, u64_from_le_bytes};
use vstd::prelude::*;
use vstd::slice::slice_subrange;

verus! {

/// The least length of a token account's data.
pub const TOKEN_RECORD_MIN_LEN: usize = 72;

/// The size of a token account as either token program creates it.
pub const TOKEN_ACCOUNT_LEN: usize = 165;

/// The fields of a token account that the processor reads.
#[derive(Clone, Copy, Debug, PartialEq, Eq)]
pub struct TokenRecord {
    pub mint: Identity,
    pub holder: Identity,
    pub balance: u64,
}

/// The bytes of the mint field.
pub open spec fn record_mint(data: Seq<u8>) -> Seq<u8>
    recommends
        data.len() >= TOKEN_RECORD_MIN_LEN,
{
    data.subrange(0, 32)
}

/// The bytes of the holder field.
pub open spec fn record_holder(data: Seq<u8>) -> Seq<u8>
    recommends
        data.len() >= TOKEN_RECORD_MIN_LEN,
{
    data.subrange(32, 64)
}

/// The balance field as a number.
pub open spec fn record_balance(data: Seq<u8>) -> u64
    recommends
        data.len() >= TOKEN_RECORD_MIN_LEN,
{
    spec_u64_from_le_bytes(data.subrange(64, 72))
}

impl TokenRecord {
    /// `self` is what `data` holds in its first 72 bytes.
    pub open spec fn decodes(self, data: Seq<u8>) -> bool {
        &&& data.len() >= TOKEN_RECORD_MIN_LEN
        &&& self.mint@ == record_mint(data)
        &&& self.holder@ == record_holder(data)
        &&& self.balance == record_balance(data)
    }

    /// Reads a token record from an account's data. Data shorter than 72
    /// bytes is refused; everything else is a record, whichever of the two
    /// token programs wrote it.
    pub fn parse(data: &[u8]) -> (r: Result<TokenRecord, PaymentProcessorError>)
        ensures
            data@.len() < TOKEN_RECORD_MIN_LEN ==> r == Err::<TokenRecord, _>(
                PaymentProcessorError::InvalidTokenAccount,
            ),
            data@.len() >= TOKEN_RECORD_MIN_LEN ==> r is Ok && r->Ok_0.decodes(data@),
    {
        if data.len() < TOKEN_RECORD_MIN_LEN {
            return Err(PaymentProcessorError::InvalidTokenAccount);
        }
        let mint = identity_from_slice(slice_subrange(data, 0, 32));
        let holder = identity_from_slice(slice_subrange(data, 32, 64));
        let balance = u64_from_le_bytes(slice_subrange(data, 64, 72));
        match (mint, holder) {
            (Some(mint), Some(holder)) => Ok(TokenRecord { mint, holder, balance }),
            _ => Err(PaymentProcessorError::InvalidTokenAccount),
        }
    }
}

} // verus!
