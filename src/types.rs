use vstd::prelude::*;

verus! {

/// A 32-byte ledger address, held as two big-endian halves.
#[derive(Clone, Copy, Debug, PartialEq, Eq, Structural)]
pub struct Key {
    pub hi: u128,
    pub lo: u128,
}

/// The address of the wrapped native-currency mint.
pub open spec fn native_mint_spec() -> Key {
    Key { hi: 8782939367155159336158223281524621365, lo: 290790566801258635813148551384743804929 }
}

/// Relies on spl_token::native_mint::ID (re-exported by anchor_spl): the
/// address "So11111111111111111111111111111111111111112".
#[verifier::external_body]
pub(crate) fn native_mint_key() -> (r: Key)
    ensures
        r == native_mint_spec(),
{
    let b = anchor_spl::token::spl_token::native_mint::ID.to_bytes();
    let mut hi = [0u8; 16];
    let mut lo = [0u8; 16];
    hi.copy_from_slice(&b[..16]);
    lo.copy_from_slice(&b[16..]);
    Key { hi: u128::from_be_bytes(hi), lo: u128::from_be_bytes(lo) }
}

/// The address of the token program.
pub open spec fn token_program_spec() -> Key {
    Key { hi: 9127872946206897811467604813039761836, lo: 38155713683577065559022659888220143785 }
}

/// Relies on spl_token::ID (re-exported by anchor_spl): the address
/// "TokenkegQfeZyiNwAJbNbGKPFXCWuBvf9Ss623VQ5DA".
#[verifier::external_body]
pub(crate) fn token_program_key() -> (r: Key)
    ensures
        r == token_program_spec(),
{
    let b = anchor_spl::token::spl_token::ID.to_bytes();
    let mut hi = [0u8; 16];
    let mut lo = [0u8; 16];
    hi.copy_from_slice(&b[..16]);
    lo.copy_from_slice(&b[16..]);
    Key { hi: u128::from_be_bytes(hi), lo: u128::from_be_bytes(lo) }
}

/// The address of the system program: 32 zero bytes.
pub open spec fn system_program_spec() -> Key {
    Key { hi: 0, lo: 0 }
}

/// Relies on anchor_lang::system_program::ID: the address
/// "11111111111111111111111111111111".
#[verifier::external_body]
pub(crate) fn system_program_key() -> (r: Key)
    ensures
        r == system_program_spec(),
{
    let b = anchor_lang::system_program::ID.to_bytes();
    let mut hi = [0u8; 16];
    let mut lo = [0u8; 16];
    hi.copy_from_slice(&b[..16]);
    lo.copy_from_slice(&b[16..]);
    Key { hi: u128::from_be_bytes(hi), lo: u128::from_be_bytes(lo) }
}

/// Whether `k` occurs in `keys`.
pub fn contains_key(keys: &Vec<Key>, k: Key) -> (r: bool)
    ensures
        r == keys@.contains(k),
{
    let mut i: usize = 0;
    while i < keys.len()
        invariant
            i <= keys@.len(),
            forall|j: int| 0 <= j < i ==> keys@[j] != k,
        decreases keys@.len() - i,
    {
        if keys[i] == k {
            return true;
        }
        i = i + 1;
    }
    false
}

} // verus!
