use vstd::prelude::*;
use crate::address::Address;
use crate::signing::{created_address, find_reserve_address, found_address, reserve_seeds, signer_seeds};

verus! {

/// The reserve of one asset: who created it, how much one request may ask
/// for, and by what each requested unit is multiplied.
#[derive(Clone, Copy, Debug)]
pub struct Faucet {
    /// Discriminator byte of the reserve's derived signing address; fixed at creation.
    pub bump: u8,
    /// The asset that this reserve dispenses.
    pub mint: Address,
    /// The identity that created the reserve.
    pub owner: Address,
    /// The largest quantity that one withdrawal may request.
    pub max_withdraw: u64,
    /// Raw units moved for each requested unit.
    pub decimals: u64,
}

/// The cooldown record of one requester.
#[derive(Clone, Copy, Debug)]
pub struct Withdrawer {
    /// The identity that this record belongs to.
    pub owner: Address,
    /// Time, in seconds, of the last successful withdrawal; 0 before any.
    pub last_withdraw: i64,
}

/// Why a reserve could not be created.
#[derive(Clone, Copy, Debug, PartialEq, Eq, Structural)]
pub enum InitError {
    /// A record for the same key exists already.
    AlreadyExists,
    /// The program-address search found no discriminator byte for the asset.
    NoViableBump,
}

/// A new reserve for `mint`, created by `signer`, together with its signing
/// address. The discriminator byte is found once here and stored; fails when
/// the program-address search finds none.
pub fn initialize_faucet(
    program_id: &Address,
    mint: &Address,
    signer: &Address,
    decimals: u64,
    max_withdraw: u64,
) -> (r: Result<(Faucet, Address), InitError>)
    ensures
        match r {
            Ok((f, a)) => found_address(reserve_seeds(mint@), program_id@) == Some((a@, f.bump))
                && created_address(signer_seeds(mint@, f.bump), program_id@) == Some(a@)
                && f.mint@ == mint@ && f.owner@ == signer@
                && f.decimals == decimals && f.max_withdraw == max_withdraw,
            Err(e) => e == InitError::NoViableBump
                && found_address(reserve_seeds(mint@), program_id@) is None,
        },
{
    match find_reserve_address(mint, program_id) {
        Some((address, bump)) => {
            let f = Faucet { bump, mint: *mint, owner: *signer, max_withdraw, decimals };
            Ok((f, address))
        },
        None => Err(InitError::NoViableBump),
    }
}

/// A new requester record for `signer`, with no withdrawal yet.
pub fn initialize_withdrawer(signer: &Address) -> (r: Withdrawer)
    ensures
        r.owner@ == signer@,
        r.last_withdraw == 0,
{
    Withdrawer { owner: *signer, last_withdraw: 0 }
}

} // verus!
