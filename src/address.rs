use anchor_lang::prelude::Pubkey;
use vstd::prelude::*;

verus! {

/// The raw bytes of an account identity.
pub type Address = [u8; 32];

/// The program-derived address and bump that the ledger assigns to `seed`
/// under `program_id`, or `None` where no bump yields a valid address.
pub uninterp spec fn program_address_of(seed: Seq<u8>, program_id: Seq<u8>) -> Option<(Seq<u8>, u8)>;

/// Relies on `Pubkey::try_find_program_address` (solana-program, as re-exported
/// by anchor-lang): a pure, deterministic search over bump seeds that returns
/// the first off-curve address for `seed` under `program_id`, or `None`.
#[verifier::external_body]
fn try_find_program_address(seed: &[u8], program_id: &Address) -> (r: Option<(Address, u8)>)
    ensures
        match r {
            Some((key, bump)) => program_address_of(seed@, program_id@) == Some((key@, bump)),
            None => program_address_of(seed@, program_id@) is None,
        },
{
    match Pubkey::try_find_program_address(&[seed], &Pubkey::new_from_array(*program_id)) {
        Some((key, bump)) => Some((key.to_bytes(), bump)),
        None => None,
    }
}

/// Whether two addresses are the same identity.
pub fn same_address(a: &Address, b: &Address) -> (r: bool)
    ensures
        r == (a@ == b@),
{
    let mut i: usize = 0;
    while i < 32
        invariant
            i <= 32,
            forall|j: int| 0 <= j < i ==> a@[j] == b@[j],
        decreases 32 - i,
    {
        if a[i] != b[i] {
            assert(a@[i as int] != b@[i as int]);
            return false;
        }
        i = i + 1;
    }
    assert(a@ =~= b@);
    true
}

/// The fixed label from which the vault authority is derived (`b"vault"`).
pub open spec fn vault_seed() -> Seq<u8> {
    seq![118u8, 97u8, 117u8, 108u8, 116u8]
}

/// The fixed label from which the program state record is derived
/// (`b"program_state"`).
pub open spec fn program_state_seed() -> Seq<u8> {
    seq![112u8, 114u8, 111u8, 103u8, 114u8, 97u8, 109u8, 95u8, 115u8, 116u8, 97u8, 116u8, 101u8]
}

/// Executable copy of `vault_seed`.
pub fn vault_seed_bytes() -> (r: Vec<u8>)
    ensures
        r@ == vault_seed(),
{
    let r: Vec<u8> = vec![118u8, 97u8, 117u8, 108u8, 116u8];
    assert(r@ =~= vault_seed());
    r
}

/// Executable copy of `program_state_seed`.
pub fn program_state_seed_bytes() -> (r: Vec<u8>)
    ensures
        r@ == program_state_seed(),
{
    let r: Vec<u8> = vec![112u8, 114u8, 111u8, 103u8, 114u8, 97u8, 109u8, 95u8, 115u8, 116u8, 97u8, 116u8, 101u8];
    assert(r@ =~= program_state_seed());
    r
}

/// Derives the address and bump of the account labelled `seed` under
/// `program_id`; `None` where the derivation finds no valid address.
pub fn derive_address(seed: &Vec<u8>, program_id: &Address) -> (r: Option<(Address, u8)>)
    ensures
        match r {
            Some((key, bump)) => program_address_of(seed@, program_id@) == Some((key@, bump)),
            None => program_address_of(seed@, program_id@) is None,
        },
{
    try_find_program_address(seed.as_slice(), program_id)
}

/// The vault authority's address and bump under `program_id`.
pub fn vault_address(program_id: &Address) -> (r: Option<(Address, u8)>)
    ensures
        match r {
            Some((key, bump)) => program_address_of(vault_seed(), program_id@) == Some((key@, bump)),
            None => program_address_of(vault_seed(), program_id@) is None,
        },
{
    let seed = vault_seed_bytes();
    derive_address(&seed, program_id)
}

/// The program state record's address and bump under `program_id`.
pub fn program_state_address(program_id: &Address) -> (r: Option<(Address, u8)>)
    ensures
        match r {
            Some((key, bump)) => program_address_of(program_state_seed(), program_id@) == Some((key@, bump)),
            None => program_address_of(program_state_seed(), program_id@) is None,
        },
{
    let seed = program_state_seed_bytes();
    derive_address(&seed, program_id)
}

} // verus!
