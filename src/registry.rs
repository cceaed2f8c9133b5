use vstd::prelude::*;
use crate::address::Address;
use crate::engine::{complete_withdrawal, Authorization, TransferError, WithdrawError};
use crate::records::{Faucet, InitError, Withdrawer};

verus! {

/// Keyed storage of reserve and requester records: reserves are keyed by
/// their asset, requester records by their owner, and a key is created once.
pub struct Registry {
    faucets: Vec<Faucet>,
    withdrawers: Vec<Withdrawer>,
}

impl Registry {
    /// The reserve records, in order of creation.
    pub closed spec fn faucets(&self) -> Seq<Faucet> {
        self.faucets@
    }

    /// The requester records, in order of creation.
    pub closed spec fn withdrawers(&self) -> Seq<Withdrawer> {
        self.withdrawers@
    }

    /// No two reserves share an asset and no two requester records an owner.
    pub open spec fn wf(&self) -> bool {
        &&& forall|i: int, j: int|
            0 <= i < j < self.faucets().len() ==> self.faucets()[i].mint@ != self.faucets()[j].mint@
        &&& forall|i: int, j: int|
            0 <= i < j < self.withdrawers().len()
                ==> self.withdrawers()[i].owner@ != self.withdrawers()[j].owner@
    }

    /// Whether a reserve for `mint` is stored.
    pub open spec fn has_faucet(&self, mint: Seq<u8>) -> bool {
        exists|i: int| 0 <= i < self.faucets().len() && self.faucets()[i].mint@ == mint
    }

    /// Whether a requester record for `owner` is stored.
    pub open spec fn has_withdrawer(&self, owner: Seq<u8>) -> bool {
        exists|i: int| 0 <= i < self.withdrawers().len() && self.withdrawers()[i].owner@ == owner
    }

    pub fn new() -> (r: Registry)
        ensures
            r.wf(),
            r.faucets().len() == 0,
            r.withdrawers().len() == 0,
    {
        Registry { faucets: Vec::new(), withdrawers: Vec::new() }
    }

    /// Where the reserve of `mint` is stored, if it is.
    pub fn faucet_index(&self, mint: &Address) -> (r: Option<usize>)
        ensures
            match r {
                Some(i) => i < self.faucets().len() && self.faucets()[i as int].mint@ == mint@,
                None => !self.has_faucet(mint@),
            },
    {
        let mut i: usize = 0;
        while i < self.faucets.len()
            invariant
                0 <= i <= self.faucets@.len(),
                forall|j: int| 0 <= j < i ==> self.faucets@[j].mint@ != mint@,
            decreases self.faucets@.len() - i,
        {
            if self.faucets[i].mint.same_as(mint) {
                return Some(i);
            }
            i = i + 1;
        }
        None
    }

    /// Where the requester record of `owner` is stored, if it is.
    pub fn withdrawer_index(&self, owner: &Address) -> (r: Option<usize>)
        ensures
            match r {
                Some(i) => i < self.withdrawers().len() && self.withdrawers()[i as int].owner@
                    == owner@,
                None => !self.has_withdrawer(owner@),
            },
    {
        let mut i: usize = 0;
        while i < self.withdrawers.len()
            invariant
                0 <= i <= self.withdrawers@.len(),
                forall|j: int| 0 <= j < i ==> self.withdrawers@[j].owner@ != owner@,
            decreases self.withdrawers@.len() - i,
        {
            if self.withdrawers[i].owner.same_as(owner) {
                return Some(i);
            }
            i = i + 1;
        }
        None
    }

    /// Stores a new reserve; refused when one for the same asset exists.
    pub fn create_faucet(&mut self, faucet: Faucet) -> (r: Result<(), InitError>)
        requires
            old(self).wf(),
        ensures
            final(self).wf(),
            old(self).has_faucet(faucet.mint@) ==> r == Err::<(), InitError>(InitError::AlreadyExists)
                && final(self).faucets() == old(self).faucets(),
            !old(self).has_faucet(faucet.mint@) ==> r is Ok && final(self).faucets()
                == old(self).faucets().push(faucet),
            final(self).withdrawers() == old(self).withdrawers(),
    {
        match self.faucet_index(&faucet.mint) {
            Some(_) => Err(InitError::AlreadyExists),
            None => {
                self.faucets.push(faucet);
                assert(self.withdrawers() =~= old(self).withdrawers());
                assert(self.faucets() =~= old(self).faucets().push(faucet));
                assert forall|i: int, j: int|
                    0 <= i < j < self.faucets().len() implies self.faucets()[i].mint@
                        != self.faucets()[j].mint@ by {
                    if j == old(self).faucets().len() {
                        assert(old(self).faucets()[i] == self.faucets()[i]);
                        assert(!(0 <= i < old(self).faucets().len() && old(self).faucets()[i].mint@
                            == faucet.mint@));
                    }
                }
                Ok(())
            },
        }
    }

    /// Stores a new requester record; refused when one for the same owner exists.
    pub fn create_withdrawer(&mut self, withdrawer: Withdrawer) -> (r: Result<(), InitError>)
        requires
            old(self).wf(),
        ensures
            final(self).wf(),
            old(self).has_withdrawer(withdrawer.owner@) ==> r == Err::<(), InitError>(
                InitError::AlreadyExists,
            ) && final(self).withdrawers() == old(self).withdrawers(),
            !old(self).has_withdrawer(withdrawer.owner@) ==> r is Ok && final(self).withdrawers()
                == old(self).withdrawers().push(withdrawer),
            final(self).faucets() == old(self).faucets(),
    {
        match self.withdrawer_index(&withdrawer.owner) {
            Some(_) => Err(InitError::AlreadyExists),
            None => {
                self.withdrawers.push(withdrawer);
                assert(self.faucets() =~= old(self).faucets());
                assert(self.withdrawers() =~= old(self).withdrawers().push(withdrawer));
                assert forall|i: int, j: int|
                    0 <= i < j < self.withdrawers().len() implies self.withdrawers()[i].owner@
                        != self.withdrawers()[j].owner@ by {
                    if j == old(self).withdrawers().len() {
                        assert(old(self).withdrawers()[i] == self.withdrawers()[i]);
                        assert(!(0 <= i < old(self).withdrawers().len()
                            && old(self).withdrawers()[i].owner@ == withdrawer.owner@));
                    }
                }
                Ok(())
            },
        }
    }

    /// The reserve stored at `i`.
    pub fn faucet(&self, i: usize) -> (r: Faucet)
        requires
            i < self.faucets().len(),
        ensures
            r == self.faucets()[i as int],
    {
        self.faucets[i]
    }

    /// The requester record stored at `i`.
    pub fn withdrawer(&self, i: usize) -> (r: Withdrawer)
        requires
            i < self.withdrawers().len(),
        ensures
            r == self.withdrawers()[i as int],
    {
        self.withdrawers[i]
    }

    /// Finishes an authorized withdrawal against the requester record at `i`
    /// once the ledger has answered; only a completed transfer updates it.
    pub fn complete_withdrawal(
        &mut self,
        i: usize,
        auth: &Authorization,
        now: i64,
        ledger: Result<(), TransferError>,
    ) -> (r: Result<u64, WithdrawError>)
        requires
            old(self).wf(),
            i < old(self).withdrawers().len(),
        ensures
            final(self).wf(),
            final(self).faucets() == old(self).faucets(),
            match ledger {
                Ok(()) => r == Ok::<u64, WithdrawError>(auth.amount) && final(self).withdrawers()
                    == old(self).withdrawers().update(
                    i as int,
                    Withdrawer { last_withdraw: now, ..old(self).withdrawers()[i as int] },
                ),
                Err(t) => r == Err::<u64, WithdrawError>(WithdrawError::Transfer(t))
                    && final(self).withdrawers() == old(self).withdrawers(),
            },
    {
        let mut w = self.withdrawers[i];
        assert(self.faucets() =~= old(self).faucets());
        let r = complete_withdrawal(&mut w, auth, now, ledger);
        if r.is_ok() {
            self.withdrawers.set(i, w);
            assert(self.withdrawers() =~= old(self).withdrawers().update(i as int, w));
            assert forall|a: int, b: int|
                0 <= a < b < self.withdrawers().len() implies self.withdrawers()[a].owner@
                    != self.withdrawers()[b].owner@ by {
                assert(old(self).withdrawers()[a].owner@ != old(self).withdrawers()[b].owner@);
            }
        }
        r
    }
}

} // verus!
