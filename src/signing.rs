use vstd::prelude::*;
use anchor_lang::prelude::Pubkey;
use crate::address::Address;

verus! {

/// Namespace tag of a reserve's signing address: the bytes of "mint".
pub open spec fn mint_tag() -> Seq<u8> {
    seq![109u8, 105u8, 110u8, 116u8]
}

/// The bytes of each seed, in order.
pub open spec fn seeds_view(seeds: Seq<Vec<u8>>) -> Seq<Seq<u8>> {
    seeds.map_values(|s: Vec<u8>| s@)
}

/// Seeds from which the signing address of the reserve of `mint` is searched.
pub open spec fn reserve_seeds(mint: Seq<u8>) -> Seq<Seq<u8>> {
    seq![mint_tag(), mint]
}

/// Seeds, discriminator byte included, that reproduce a reserve's signing address.
pub open spec fn signer_seeds(mint: Seq<u8>, bump: u8) -> Seq<Seq<u8>> {
    reserve_seeds(mint).push(seq![bump])
}

/// What the program-address search returns on `seeds` under `program_id`:
/// the first off-curve address, with its discriminator byte, or nothing.
pub uninterp spec fn found_address(seeds: Seq<Seq<u8>>, program_id: Seq<u8>) -> Option<(Seq<u8>, u8)>;

/// The program address that `seeds` give under `program_id`, if they give one.
pub uninterp spec fn created_address(seeds: Seq<Seq<u8>>, program_id: Seq<u8>) -> Option<Seq<u8>>;

/// Relies on Pubkey::try_find_program_address: the search appends one
/// discriminator byte to the seeds and returns the first address that
/// Pubkey::create_program_address accepts for them, with that byte.
#[verifier::external_body]
fn try_find_address(seeds: &Vec<Vec<u8>>, program_id: &Address) -> (r: Option<(Address, u8)>)
    ensures
        match r {
            Some((a, b)) => found_address(seeds_view(seeds@), program_id@) == Some((a@, b)),
            None => found_address(seeds_view(seeds@), program_id@) is None,
        },
        r matches Some((a, b)) ==> created_address(seeds_view(seeds@).push(seq![b]), program_id@)
            == Some(a@),
{
    let refs: Vec<&[u8]> = seeds.iter().map(|s| s.as_slice()).collect();
    Pubkey::try_find_program_address(&refs, &Pubkey::new_from_array(program_id.bytes)).map(
        |(a, b)| (Address { bytes: a.to_bytes() }, b),
    )
}

/// Relies on Pubkey::create_program_address: an error stands for no address.
#[verifier::external_body]
fn create_address(seeds: &Vec<Vec<u8>>, program_id: &Address) -> (r: Option<Address>)
    ensures
        match r {
            Some(a) => created_address(seeds_view(seeds@), program_id@) == Some(a@),
            None => created_address(seeds_view(seeds@), program_id@) is None,
        },
{
    let refs: Vec<&[u8]> = seeds.iter().map(|s| s.as_slice()).collect();
    match Pubkey::create_program_address(&refs, &Pubkey::new_from_array(program_id.bytes)) {
        Ok(a) => Some(Address { bytes: a.to_bytes() }),
        Err(_) => None,
    }
}

/// The namespace tag as bytes.
fn mint_tag_bytes() -> (r: Vec<u8>)
    ensures
        r@ == mint_tag(),
{
    let r: Vec<u8> = vec![109u8, 105u8, 110u8, 116u8];
    assert(r@ =~= mint_tag());
    r
}

/// The seeds of the reserve of `mint`, before the discriminator byte.
pub fn reserve_seed_bytes(mint: &Address) -> (r: Vec<Vec<u8>>)
    ensures
        seeds_view(r@) == reserve_seeds(mint@),
{
    let mut r: Vec<Vec<u8>> = Vec::new();
    r.push(mint_tag_bytes());
    r.push(mint.to_vec());
    assert(seeds_view(r@) =~= reserve_seeds(mint@));
    r
}

/// The reserve's signing address and discriminator byte for `mint` under
/// `program_id`, as the program-address search finds them.
pub fn find_reserve_address(mint: &Address, program_id: &Address) -> (r: Option<(Address, u8)>)
    ensures
        match r {
            Some((a, b)) => found_address(reserve_seeds(mint@), program_id@) == Some((a@, b))
                && created_address(signer_seeds(mint@, b), program_id@) == Some(a@),
            None => found_address(reserve_seeds(mint@), program_id@) is None,
        },
{
    let seeds = reserve_seed_bytes(mint);
    try_find_address(&seeds, program_id)
}

/// The capability with which a reserve authorizes transfers out of its own
/// custody: the seeds of its signing address and its stored discriminator byte.
#[derive(Clone, Copy, Debug)]
pub struct SigningCapability {
    pub mint: Address,
    pub bump: u8,
}

impl SigningCapability {
    /// The full seed list to present with a transfer, discriminator byte last.
    pub fn seeds(&self) -> (r: Vec<Vec<u8>>)
        ensures
            seeds_view(r@) == signer_seeds(self.mint@, self.bump),
    {
        let mut r = reserve_seed_bytes(&self.mint);
        let ghost before = r@;
        let last: Vec<u8> = vec![self.bump];
        assert(last@ =~= seq![self.bump]);
        r.push(last);
        assert(seeds_view(r@) =~= seeds_view(before).push(seq![self.bump]));
        r
    }

    /// The address that this capability signs for under `program_id`.
    pub fn signing_address(&self, program_id: &Address) -> (r: Option<Address>)
        ensures
            match r {
                Some(a) => created_address(signer_seeds(self.mint@, self.bump), program_id@)
                    == Some(a@),
                None => created_address(signer_seeds(self.mint@, self.bump), program_id@) is None,
            },
    {
        let seeds = self.seeds();
        create_address(&seeds, program_id)
    }
}

} // verus!
