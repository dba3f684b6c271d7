//! 32-byte identities and the fixed identities this deployment knows.

use vstd::prelude::*;
use vstd::std_specs::cmp::PartialEqSpecImpl;

verus! {

/// A 32-byte value that names an account, a user, a mint or a program.
#[derive(Clone, Copy, Debug)]
pub struct Identity {
    pub bytes: [u8; 32],
}

/// The only mint whose tokens are taken in payment.
/// Base58: `Df3shQQ3qZ9qyLfrWTqfjP2TSSAqMvM5zxb2NXQQKaXh`.
pub const ACCEPTED_MINT: [u8; 32] = [
    188, 11, 144, 71, 163, 128, 9, 95, 80, 216, 146, 43, 63, 191, 217, 84,
    216, 245, 16, 203, 162, 168, 74, 76, 105, 88, 242, 134, 209, 254, 30, 56,
];

/// The SPL Token program. Base58: `TokenkegQfeZyiNwAJbNbGKPFXCWuBvf9Ss623VQ5DA`.
pub const SPL_TOKEN_PROGRAM_ID: [u8; 32] = [
    6, 221, 246, 225, 215, 101, 161, 147, 217, 203, 225, 70, 206, 235, 121, 172,
    28, 180, 133, 237, 95, 91, 55, 145, 58, 140, 245, 133, 126, 255, 0, 169,
];

/// The Token-2022 program. Base58: `TokenzQdBNbLqP5VEhdkAS6EPFLC1PHnBqCXEpPxuEb`.
pub const TOKEN_2022_PROGRAM_ID: [u8; 32] = [
    6, 221, 246, 225, 238, 117, 143, 222, 24, 66, 93, 188, 228, 108, 205, 218,
    182, 26, 252, 77, 131, 185, 13, 39, 254, 189, 249, 40, 216, 161, 139, 252,
];

impl View for Identity {
    type V = Seq<u8>;

    open spec fn view(&self) -> Seq<u8> {
        self.bytes@
    }
}

impl PartialEq for Identity {
    fn eq(&self, other: &Identity) -> (r: bool) {
        let mut i: usize = 0;
        while i < 32
            invariant
                i <= 32,
                forall|k: int| 0 <= k < i ==> self.bytes[k] == other.bytes[k],
            decreases 32 - i,
        {
            if self.bytes[i] != other.bytes[i] {
                return false;
            }
            i += 1;
        }
        assert(self.bytes =~= other.bytes);
        true
    }
}

impl Eq for Identity {

}

impl PartialEqSpecImpl for Identity {
    open spec fn obeys_eq_spec() -> bool {
        true
    }

    open spec fn eq_spec(&self, other: &Identity) -> bool {
        *self == *other
    }
}

impl Identity {
    /// The identity made of the given bytes.
    pub fn new(bytes: [u8; 32]) -> (id: Identity)
        ensures
            id.bytes == bytes,
            id == (Identity { bytes }),
    {
        Identity { bytes }
    }

    /// The identity's bytes.
    pub fn to_bytes(&self) -> (bytes: [u8; 32])
        ensures
            bytes == self.bytes,
    {
        self.bytes
    }

    /// Two identities with the same 32 bytes are the same identity.
    pub proof fn lemma_view_injective(a: Identity, b: Identity)
        ensures
            a@ == b@ <==> a == b,
            a@.len() == 32,
    {
        if a@ == b@ {
            assert(a.bytes =~= b.bytes);
        }
    }
}

/// The accepted mint as an identity.
pub open spec fn accepted_mint() -> Identity {
    Identity { bytes: ACCEPTED_MINT }
}

/// The SPL Token program as an identity.
pub open spec fn spl_token_program() -> Identity {
    Identity { bytes: SPL_TOKEN_PROGRAM_ID }
}

/// The Token-2022 program as an identity.
pub open spec fn token_2022_program() -> Identity {
    Identity { bytes: TOKEN_2022_PROGRAM_ID }
}

/// Whether `program_id` is one of the two supported token programs.
pub open spec fn spec_is_valid_token_program(program_id: Identity) -> bool {
    program_id == spl_token_program() || program_id == token_2022_program()
}

/// Tells whether `program_id` is the SPL Token program or the Token-2022
/// program; no third program is accepted.
pub fn is_valid_token_program(program_id: &Identity) -> (valid: bool)
    ensures
        valid == spec_is_valid_token_program(*program_id),
{
    *program_id == Identity::new(SPL_TOKEN_PROGRAM_ID) || *program_id == Identity::new(
        TOKEN_2022_PROGRAM_ID,
    )
}

/// Tells whether `mint` is the accepted mint.
pub fn is_accepted_mint(mint: &Identity) -> (accepted: bool)
    ensures
        accepted == (*mint == accepted_mint()),
{
    *mint == Identity::new(ACCEPTED_MINT)
}

/// Reads an identity from a byte slice with `Pubkey::try_from(&[u8])` of
/// `solana_pubkey`, as `anchor_lang` exports it. That conversion goes through
/// `<[u8; 32]>::try_from`: it succeeds exactly on slices of 32 bytes and keeps
/// the bytes in their order. The result is believed, not proved.
#[verifier::external_body]
pub(crate) fn identity_from_slice(bytes: &[u8]) -> (id: Option<Identity>)
    ensures
        id is Some <==> bytes@.len() == 32,
        id is Some ==> id->0@ == bytes@,
{
    match anchor_lang::prelude::Pubkey::try_from(bytes) {
        Ok(key) => Some(Identity { bytes: key.to_bytes() }),
        Err(_) => None,
    }
}

} // verus!
