//! Reward bookkeeping for validators.
//!
//! Amounts are kept in atomic currency units. The manager tracks one reward
//! per reward identifier and can list every reward of a validator.

use vstd::prelude::*;

use crate::timestamp::Timestamp;

verus! {

/// Status of a reward.
#[derive(Clone, Copy, Debug, PartialEq, Eq, Structural)]
pub enum RewardStatus {
    /// Granted but not yet confirmed.
    Pending,
    /// Confirmed on the ledger.
    Confirmed,
    /// The grant failed.
    Failed,
}

/// A reward granted to a validator.
#[derive(Debug)]
pub struct Reward {
    /// Unique identifier of the reward.
    pub id: String,
    /// The validator the reward belongs to.
    pub validator_id: String,
    /// Amount in atomic currency units.
    pub amount: u64,
    /// Currency the amount is denominated in.
    pub currency: String,
    /// When the reward was granted.
    pub timestamp: Timestamp,
    /// Current status.
    pub status: RewardStatus,
}

impl Clone for Reward {
    /// An exact copy of the reward record.
    fn clone(&self) -> (r: Reward)
        ensures
            r == self,
    {
        Reward {
            id: self.id.clone(),
            validator_id: self.validator_id.clone(),
            amount: self.amount,
            currency: self.currency.clone(),
            timestamp: self.timestamp,
            status: self.status,
        }
    }
}

/// The rewards among `s` that belong to the validator, in order.
pub open spec fn rewards_of_validator(s: Seq<Reward>, validator_id: Seq<char>) -> Seq<Reward>
    decreases s.len(),
{
    if s.len() == 0 {
        Seq::empty()
    } else if s.last().validator_id@ == validator_id {
        rewards_of_validator(s.drop_last(), validator_id).push(s.last())
    } else {
        rewards_of_validator(s.drop_last(), validator_id)
    }
}

/// Reward manager: the granted rewards, in grant order.
pub struct RewardManager {
    rewards: Vec<Reward>,
}

impl RewardManager {
    /// The tracked rewards, in grant order.
    pub closed spec fn rewards(self) -> Seq<Reward> {
        self.rewards@
    }

    /// Create a new reward manager.
    pub fn new() -> (r: RewardManager)
        ensures
            r.rewards().len() == 0,
    {
        RewardManager { rewards: Vec::new() }
    }

    /// Record a reward.
    pub fn add_reward(&mut self, reward: Reward)
        ensures
            final(self).rewards() == old(self).rewards().push(reward),
    {
        self.rewards.push(reward);
    }

    /// Every reward of the given validator, in grant order.
    pub fn get_rewards_for_validator(&self, validator_id: &str) -> (r: Vec<Reward>)
        ensures
            r@ == rewards_of_validator(self.rewards(), validator_id@),
    {
        let key = validator_id.to_owned();
        let n = self.rewards.len();
        let mut r: Vec<Reward> = Vec::new();
        let mut i: usize = 0;
        while i < n
            invariant
                key@ == validator_id@,
                i <= n == self.rewards().len(),
                r@ == rewards_of_validator(self.rewards().take(i as int), validator_id@),
            decreases n - i,
        {
            proof {
                let pre = self.rewards().take(i as int);
                let post = self.rewards().take(i as int + 1);
                assert(post.drop_last() =~= pre);
                assert(post.last() == self.rewards()[i as int]);
            }
            let reward = &self.rewards[i];
            if reward.validator_id.eq(&key) {
                r.push(reward.clone());
            }
            i = i + 1;
        }
        proof {
            assert(self.rewards().take(n as int) =~= self.rewards());
        }
        r
    }
}

} // verus!
