//! Batches of configuration actions, each stored at the next transaction
//! index of its registry.
use vstd::prelude::*;

use crate::error::{check_result, ErrorCode};
use crate::multisig::{Multisig, MultisigView};
use crate::pubkey::Pubkey;

verus! {

/// One governance action of a batch.
#[derive(Debug, PartialEq, Eq)]
pub enum ConfigAction {
    AddMember { new_member: Pubkey },
    RemoveMember { old_member: Pubkey },
    ChangeThreshold { new_threshold: u16 },
    SetTimeLock { new_time_lock: u32 },
    AddSpendingLimit {
        create_key: Pubkey,
        vault_index: u8,
        mint: Pubkey,
        amount: u64,
        members: Vec<Pubkey>,
        destinations: Vec<Pubkey>,
    },
    RemoveSpendingLimit { spending_limit: Pubkey },
}

/// Serialized length of one action: a one-byte variant tag, then its fields
/// (an identity takes 32 bytes, a list a 4-byte length and its items).
pub open spec fn action_packed_len(a: ConfigAction) -> int {
    match a {
        ConfigAction::AddMember { .. } => 1int + 32,
        ConfigAction::RemoveMember { .. } => 1int + 32,
        ConfigAction::ChangeThreshold { .. } => 1int + 2,
        ConfigAction::SetTimeLock { .. } => 1int + 4,
        ConfigAction::AddSpendingLimit { members, destinations, .. } => 1int + 32 + 1 + 32 + 8 + (4
            + 32 * members@.len()) + (4 + 32 * destinations@.len()),
        ConfigAction::RemoveSpendingLimit { .. } => 1int + 32,
    }
}

/// Serialized length of a sequence of actions, without its length prefix.
pub open spec fn actions_packed_len(actions: Seq<ConfigAction>) -> int
    decreases actions.len(),
{
    if actions.len() == 0 {
        0
    } else {
        actions_packed_len(actions.drop_last()) + action_packed_len(actions.last())
    }
}

/// Stored length of a batch: the account tag, the registry, the creator, the
/// index, the bump, and the length-prefixed actions.
pub open spec fn config_transaction_size(actions: Seq<ConfigAction>) -> int {
    8 + 32 + 32 + 8 + 1 + 4 + actions_packed_len(actions)
}

pub proof fn lemma_actions_packed_len_prefix(actions: Seq<ConfigAction>, i: int)
    requires
        0 <= i <= actions.len(),
    ensures
        0 <= actions_packed_len(actions.subrange(0, i)) <= actions_packed_len(actions),
    decreases actions.len(),
{
    if i == actions.len() {
        assert(actions.subrange(0, i) =~= actions);
        if actions.len() > 0 {
            lemma_actions_packed_len_prefix(actions.drop_last(), 0);
        }
    } else {
        lemma_actions_packed_len_prefix(actions.drop_last(), i);
        assert(actions.drop_last().subrange(0, i) =~= actions.subrange(0, i));
    }
}

#[derive(Debug)]
pub struct ConfigTransaction {
    /// The registry this transaction belongs to.
    pub multisig: Pubkey,
    /// The member who created it.
    pub creator: Pubkey,
    /// Its index among the registry's transactions.
    pub index: u64,
    /// Bump seed of its derived address.
    pub bump: u8,
    /// The actions, applied in order once approved.
    pub actions: Vec<ConfigAction>,
}

/// Serialized length of one action.
pub fn action_size(a: &ConfigAction) -> (r: usize)
    requires
        action_packed_len(*a) <= usize::MAX,
    ensures
        r == action_packed_len(*a),
{
    match a {
        ConfigAction::AddMember { .. } => 1 + 32,
        ConfigAction::RemoveMember { .. } => 1 + 32,
        ConfigAction::ChangeThreshold { .. } => 1 + 2,
        ConfigAction::SetTimeLock { .. } => 1 + 4,
        ConfigAction::AddSpendingLimit { members, destinations, .. } => 1 + 32 + 1 + 32 + 8 + (4 + 32
            * members.len()) + (4 + 32 * destinations.len()),
        ConfigAction::RemoveSpendingLimit { .. } => 1 + 32,
    }
}

impl ConfigTransaction {
    /// The exact stored length of a batch holding `actions`.
    pub fn size(actions: &[ConfigAction]) -> (r: usize)
        requires
            config_transaction_size(actions@) <= usize::MAX,
        ensures
            r == config_transaction_size(actions@),
    {
        let mut actions_size: usize = 0;
        let mut i: usize = 0;
        while i < actions.len()
            invariant
                i <= actions@.len(),
                config_transaction_size(actions@) <= usize::MAX,
                actions_size == actions_packed_len(actions@.subrange(0, i as int)),
            decreases actions.len() - i,
        {
            proof {
                lemma_actions_packed_len_prefix(actions@, i + 1);
                assert(actions@.subrange(0, i + 1).drop_last() =~= actions@.subrange(0, i as int));
            }
            actions_size = actions_size + action_size(&actions[i]);
            i = i + 1;
        }
        proof {
            assert(actions@.subrange(0, actions@.len() as int) =~= actions@);
        }
        8 + 32 + 32 + 8 + 1 + 4 + actions_size
    }
}

impl ConfigTransaction {
    /// The exact stored length of a batch holding `actions`, or `None` where
    /// it does not fit in a `usize`.
    pub fn checked_size(actions: &[ConfigAction]) -> (r: Option<usize>)
        ensures
            r == if config_transaction_size(actions@) <= usize::MAX {
                Some(config_transaction_size(actions@) as usize)
            } else {
                None::<usize>
            },
    {
        let mut i: usize = 0;
        let mut total: usize = 8 + 32 + 32 + 8 + 1 + 4;
        while i < actions.len()
            invariant
                i <= actions@.len(),
                total == 8 + 32 + 32 + 8 + 1 + 4 + actions_packed_len(actions@.subrange(0, i as int)),
            decreases actions.len() - i,
        {
            proof {
                lemma_actions_packed_len_prefix(actions@, i + 1);
                assert(actions@.subrange(0, i + 1).drop_last() =~= actions@.subrange(0, i as int));
            }
            let step = match checked_action_size(&actions[i]) {
                Some(n) => n,
                None => {
                    proof {
                        lemma_actions_packed_len_prefix(actions@, i + 1);
                        lemma_actions_packed_len_prefix(actions@, i as int);
                        assert(actions@.subrange(0, i + 1).last() == actions@[i as int]);
                        assert(actions_packed_len(actions@.subrange(0, i + 1)) >= action_packed_len(
                            actions@[i as int],
                        ));
                    }
                    return None;
                },
            };
            if total > usize::MAX - step {
                return None;
            }
            total = total + step;
            i = i + 1;
        }
        proof {
            assert(actions@.subrange(0, actions@.len() as int) =~= actions@);
        }
        Some(total)
    }
}

/// Serialized length of one action, or `None` where it does not fit in a
/// `usize`.
fn checked_action_size(a: &ConfigAction) -> (r: Option<usize>)
    ensures
        r == if action_packed_len(*a) <= usize::MAX {
            Some(action_packed_len(*a) as usize)
        } else {
            None::<usize>
        },
{
    match a {
        ConfigAction::AddSpendingLimit { members, destinations, .. } => {
            let m = members.len();
            let d = destinations.len();
            if m > (usize::MAX - 82) / 32 {
                return None;
            }
            let first = 82 + 32 * m;
            if d > (usize::MAX - first) / 32 {
                return None;
            }
            Some(first + 32 * d)
        },
        _ => Some(action_size(a)),
    }
}

/// Why `creator` may not submit `actions` to registry `m`, if it may not.
pub open spec fn batch_error(m: MultisigView, creator: Pubkey, actions: Seq<ConfigAction>) -> Option<
    ErrorCode,
> {
    if !m.is_member(creator) {
        Some(ErrorCode::NotAMember)
    } else if actions.len() == 0 {
        Some(ErrorCode::NoActions)
    } else {
        None
    }
}

/// The registry after a batch takes the next transaction index.
pub open spec fn next_transaction(m: MultisigView) -> MultisigView {
    MultisigView { transaction_index: (m.transaction_index + 1) as u64, ..m }
}

/// The outcome, for the registry, of `creator` submitting `actions`.
pub open spec fn create_batch_result(
    m: MultisigView,
    creator: Pubkey,
    actions: Seq<ConfigAction>,
) -> Result<MultisigView, ErrorCode> {
    match batch_error(m, creator, actions) {
        Some(e) => Err(e),
        None => Ok(next_transaction(m)),
    }
}

/// The accounts of a batch creation.
#[derive(Debug)]
pub struct ConfigTransactionCreate {
    pub multisig: Multisig,
    /// Address of the registry.
    pub multisig_key: Pubkey,
    pub transaction: ConfigTransaction,
    pub creator: Pubkey,
}

impl ConfigTransactionCreate {
    /// Succeeds exactly when the creator is a current member and there is at
    /// least one action.
    pub fn validate(&self, actions: &[ConfigAction]) -> (r: Result<(), ErrorCode>)
        ensures
            r == check_result(batch_error(self.multisig@, self.creator, actions@)),
    {
        if !self.multisig.is_member(&self.creator) {
            return Err(ErrorCode::NotAMember);
        }
        if actions.len() == 0 {
            return Err(ErrorCode::NoActions);
        }
        Ok(())
    }

    /// Takes the registry's next transaction index and stores the batch there.
    pub fn create_config_transaction(&mut self, actions: Vec<ConfigAction>, _memo: Option<String>) -> (r:
        Result<(), ErrorCode>)
        requires
            old(self).multisig.transaction_index < u64::MAX,
        ensures
            r is Ok,
            final(self).multisig@ == next_transaction(old(self).multisig@),
            final(self).multisig_key == old(self).multisig_key,
            final(self).creator == old(self).creator,
            final(self).transaction.multisig == old(self).multisig_key,
            final(self).transaction.creator == old(self).creator,
            final(self).transaction.index == final(self).multisig.transaction_index,
            final(self).transaction.bump == old(self).transaction.bump,
            final(self).transaction.actions@ == actions@,
    {
        self.multisig.transaction_index = self.multisig.transaction_index + 1;
        self.transaction.multisig = self.multisig_key;
        self.transaction.creator = self.creator;
        self.transaction.index = self.multisig.transaction_index;
        self.transaction.actions = actions;
        Ok(())
    }
}

} // verus!
