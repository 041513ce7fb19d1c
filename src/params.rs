use vstd::prelude::*;
use crate::constants::MAX_USER;
use crate::error::FeeVaultError;
use crate::pubkey::Pubkey;

verus! {

/// A beneficiary requested at creation: its identity and its share weight.
#[derive(Clone, Copy, Debug)]
pub struct UserShare {
    pub address: Pubkey,
    pub share: u32,
}

/// What a fee vault is created with.
#[derive(Debug)]
pub struct InitializeFeeVaultParameters {
    pub padding: [u64; 8],
    pub users: Vec<UserShare>,
}

/// Between one and `MAX_USER` beneficiaries, each with a positive share and
/// a non-null identity. Repeated identities are allowed.
pub open spec fn valid_users(users: Seq<UserShare>) -> bool {
    &&& 0 < users.len() <= MAX_USER
    &&& forall|i: int| 0 <= i < users.len() ==> (#[trigger] users[i]).share > 0
    &&& forall|i: int| 0 <= i < users.len() ==> !(#[trigger] users[i]).address.is_null()
}

/// The sum of the requested shares.
pub open spec fn requested_share_sum(users: Seq<UserShare>) -> int
    decreases users.len(),
{
    if users.len() == 0 {
        0
    } else {
        requested_share_sum(users.drop_last()) + users.last().share
    }
}

/// A prefix never asks for more shares than the whole.
pub proof fn lemma_requested_prefix_le(users: Seq<UserShare>, k: int)
    requires
        0 <= k <= users.len(),
    ensures
        requested_share_sum(users.take(k)) <= requested_share_sum(users),
    decreases users.len(),
{
    if k < users.len() {
        assert(users.drop_last().take(k) =~= users.take(k));
        lemma_requested_prefix_le(users.drop_last(), k);
    } else {
        assert(users.take(k) =~= users);
    }
}

impl InitializeFeeVaultParameters {
    /// Accepts exactly the parameters whose users are valid.
    pub fn validate(&self) -> (r: Result<(), FeeVaultError>)
        ensures
            r == if valid_users(self.users@) {
                Ok::<(), FeeVaultError>(())
            } else {
                Err(FeeVaultError::InvalidFeeVaultParameters)
            },
    {
        let number_of_user = self.users.len();
        if number_of_user == 0 || number_of_user > MAX_USER {
            return Err(FeeVaultError::InvalidFeeVaultParameters);
        }
        let mut i: usize = 0;
        while i < number_of_user
            invariant
                number_of_user == self.users@.len(),
                0 <= i <= number_of_user,
                forall|j: int| 0 <= j < i ==> (#[trigger] self.users@[j]).share > 0,
                forall|j: int| 0 <= j < i ==> !(#[trigger] self.users@[j]).address.is_null(),
            decreases number_of_user - i,
        {
            let u = self.users[i];
            if u.share == 0 {
                return Err(FeeVaultError::InvalidFeeVaultParameters);
            }
            let null = Pubkey::zeroed();
            if u.address.same(&null) {
                return Err(FeeVaultError::InvalidFeeVaultParameters);
            }
            proof {
                if u.address.is_null() {
                    assert(u.address.bytes =~= null.bytes);
                }
            }
            i = i + 1;
        }
        Ok(())
    }
}

} // verus!
