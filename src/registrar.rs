use crate::address::Address;
use crate::error::VsrError;
use vstd::prelude::*;

verus! {

/// How many assets a registrar can configure.
pub const MAX_VOTING_MINTS: usize = 4;

/// The registry of supported assets. Slot `i` holds the asset whose configuration index is
/// `i`; the zero address marks a slot that is not configured.
///
/// Every asset is converted into voting power one to one.
#[derive(Clone, Copy, Debug, PartialEq, Eq)]
pub struct Registrar {
    pub voting_mints: [Address; MAX_VOTING_MINTS],
}

impl Registrar {
    /// Slot `i` holds a configured asset.
    pub open spec fn is_configured(&self, i: int) -> bool {
        0 <= i < MAX_VOTING_MINTS && self.voting_mints@[i]@ != Address::zero_bytes()
    }

    /// Slot `i` holds the configured asset `mint`.
    pub open spec fn holds_at(&self, i: int, mint: Seq<u8>) -> bool {
        self.is_configured(i) && self.voting_mints@[i]@ == mint
    }

    /// No asset is configured under two indices.
    pub open spec fn wf(&self) -> bool {
        forall|i: int, j: int|
            #![trigger self.is_configured(i), self.is_configured(j)]
            self.is_configured(i) && self.is_configured(j) && i != j ==> self.voting_mints@[i]@
                != self.voting_mints@[j]@
    }

    /// The configuration index of `mint`, if it is configured.
    pub open spec fn spec_mint_index(&self, mint: Seq<u8>) -> Option<int> {
        if exists|i: int| self.holds_at(i, mint) {
            Some(choose|i: int| self.holds_at(i, mint))
        } else {
            None
        }
    }

    /// A registrar with no asset configured.
    pub fn new() -> (r: Registrar)
        ensures
            r.wf(),
            forall|i: int| !r.is_configured(i),
    {
        let zero = Address::zero();
        let r = Registrar { voting_mints: [zero; MAX_VOTING_MINTS] };
        assert forall|i: int| !r.is_configured(i) by {
            if 0 <= i < MAX_VOTING_MINTS {
                assert(r.voting_mints@[i] == zero);
            }
        }
        r
    }

    /// Looks up the configuration index of `mint`; fails with `VotingMintNotFound` when the
    /// asset is not configured.
    pub fn voting_mint_config_index(&self, mint: &Address) -> (r: Result<usize, VsrError>)
        requires
            self.wf(),
        ensures
            match self.spec_mint_index(mint@) {
                Some(i) => r == Ok::<usize, VsrError>(i as usize),
                None => r == Err::<usize, VsrError>(VsrError::VotingMintNotFound),
            },
            r matches Ok(i) ==> i < MAX_VOTING_MINTS,
    {
        let zero = Address::zero();
        if mint.same(&zero) {
            return Err(VsrError::VotingMintNotFound);
        }
        let mut i: usize = 0;
        while i < MAX_VOTING_MINTS
            invariant
                0 <= i <= MAX_VOTING_MINTS,
                mint@ != Address::zero_bytes(),
                self.wf(),
                forall|j: int| 0 <= j < i ==> !self.holds_at(j, mint@),
            decreases MAX_VOTING_MINTS - i,
        {
            if self.voting_mints[i].same(mint) {
                assert(self.holds_at(i as int, mint@));
                assert forall|j: int| self.holds_at(j, mint@) implies j == i as int by {
                    if j != i as int {
                        assert(self.is_configured(j) && self.is_configured(i as int));
                    }
                }
                return Ok(i);
            }
            i = i + 1;
        }
        Err(VsrError::VotingMintNotFound)
    }

    /// Configures `mint` under the index `idx`.
    ///
    /// An index is assigned once: a configured index cannot be configured again, and an asset
    /// cannot be configured under a second index.
    pub fn configure_voting_mint(&mut self, idx: usize, mint: Address) -> (r: Result<
        (),
        VsrError,
    >)
        requires
            old(self).wf(),
        ensures
            final(self).wf(),
            r == Ok::<(), VsrError>(()) <==> (idx < MAX_VOTING_MINTS && mint@
                != Address::zero_bytes() && !old(self).is_configured(idx as int)
                && old(self).spec_mint_index(mint@) is None),
            r is Ok ==> final(self).voting_mints@ == old(self).voting_mints@.update(
                idx as int,
                mint,
            ),
            r matches Err(e) ==> {
                &&& *final(self) == *old(self)
                &&& e == if idx >= MAX_VOTING_MINTS {
                    VsrError::OutOfBoundsVotingMintConfigIndex
                } else if mint@ == Address::zero_bytes() {
                    VsrError::InvalidMint
                } else if old(self).is_configured(idx as int) {
                    VsrError::VotingMintConfigIndexAlreadyInUse
                } else {
                    VsrError::VotingMintConfiguredWithDifferentIndex
                }
            },
    {
        if idx >= MAX_VOTING_MINTS {
            return Err(VsrError::OutOfBoundsVotingMintConfigIndex);
        }
        let zero = Address::zero();
        if mint.same(&zero) {
            return Err(VsrError::InvalidMint);
        }
        if !self.voting_mints[idx].same(&zero) {
            return Err(VsrError::VotingMintConfigIndexAlreadyInUse);
        }
        match self.voting_mint_config_index(&mint) {
            Ok(_) => {
                return Err(VsrError::VotingMintConfiguredWithDifferentIndex);
            },
            Err(_) => {},
        }
        self.voting_mints[idx] = mint;
        proof {
            assert forall|i: int, j: int|
                #![trigger self.is_configured(i), self.is_configured(j)]
                self.is_configured(i) && self.is_configured(j) && i != j implies self.voting_mints@[i]@
                    != self.voting_mints@[j]@ by {
                if i == idx as int {
                    assert(!old(self).holds_at(j, mint@));
                } else if j == idx as int {
                    assert(!old(self).holds_at(i, mint@));
                } else {
                    assert(old(self).is_configured(i) && old(self).is_configured(j));
                }
            }
        }
        Ok(())
    }
}

} // verus!
