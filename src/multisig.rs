//! The membership registry: members, quorum threshold, configuration
//! authority, transaction counter and stale watermark.
use vstd::prelude::*;

use crate::constants::MAX_MEMBERS;
use crate::error::{takes_effect, ErrorCode};
use crate::keys::{
    contains_key, copy_keys, has_duplicate_keys, lemma_add_key, lemma_remove_key, remove_key,
    without_key,
};
use crate::program_config::ProgramConfig;
use crate::pubkey::{keys_equal, Pubkey};

verus! {

/// A registry as mathematical values.
pub struct MultisigView {
    pub create_key: Pubkey,
    pub config_authority: Pubkey,
    pub threshold: u16,
    pub members: Seq<Pubkey>,
    pub time_lock: u32,
    pub transaction_index: u64,
    pub stale_transaction_index: u64,
}

impl MultisigView {
    /// The registry invariant: a threshold between one and the number of
    /// members, at most `MAX_MEMBERS` members, none listed twice.
    pub open spec fn wf(self) -> bool {
        &&& 1 <= self.threshold <= self.members.len()
        &&& self.members.len() <= MAX_MEMBERS
        &&& self.members.no_duplicates()
    }

    pub open spec fn is_member(self, k: Pubkey) -> bool {
        self.members.contains(k)
    }

    /// Whether a proposal for transaction `index` can no longer be used.
    pub open spec fn is_stale(self, index: u64) -> bool {
        index <= self.stale_transaction_index
    }

    /// The outcome of adding `k` to the members.
    pub open spec fn add_member_result(self, k: Pubkey) -> Result<MultisigView, ErrorCode> {
        if self.members.contains(k) {
            Err(ErrorCode::DuplicateMember)
        } else if self.members.len() >= MAX_MEMBERS {
            Err(ErrorCode::ExceedsMaxMembers)
        } else {
            Ok(MultisigView { members: self.members.push(k), ..self })
        }
    }

    /// The outcome of removing `k` from the members. The last member cannot be
    /// removed, nor one whose removal would leave fewer members than the
    /// threshold.
    pub open spec fn remove_member_result(self, k: Pubkey) -> Result<MultisigView, ErrorCode> {
        if !self.members.contains(k) {
            Err(ErrorCode::NotAMember)
        } else if self.members.len() <= 1 {
            Err(ErrorCode::RemoveLastMember)
        } else if self.threshold > remove_key(self.members, k).len() {
            Err(ErrorCode::InvalidThreshold)
        } else {
            Ok(MultisigView { members: remove_key(self.members, k), ..self })
        }
    }

    /// The outcome of replacing the threshold by `t`.
    pub open spec fn set_threshold_result(self, t: u16) -> Result<MultisigView, ErrorCode> {
        if t == 0 || t > self.members.len() {
            Err(ErrorCode::InvalidThreshold)
        } else {
            Ok(MultisigView { threshold: t, ..self })
        }
    }

    /// The outcome of moving the stale watermark to `w`.
    pub open spec fn advance_staleness_result(self, w: u64) -> Result<MultisigView, ErrorCode> {
        if w < self.stale_transaction_index {
            Err(ErrorCode::InvalidStaleTransactionIndex)
        } else {
            Ok(MultisigView { stale_transaction_index: w, ..self })
        }
    }
}

/// The outcome of forming a registry: a threshold between one and the
/// number of members (else `InvalidThreshold`), at most `MAX_MEMBERS` members
/// (else `ExceedsMaxMembers`), none twice (else `DuplicateMember`); both
/// counters start at zero.
pub open spec fn new_multisig_result(
    create_key: Pubkey,
    config_authority: Pubkey,
    threshold: u16,
    members: Seq<Pubkey>,
    time_lock: u32,
) -> Result<MultisigView, ErrorCode> {
    if threshold == 0 || threshold > members.len() {
        Err(ErrorCode::InvalidThreshold)
    } else if members.len() > MAX_MEMBERS {
        Err(ErrorCode::ExceedsMaxMembers)
    } else if !members.no_duplicates() {
        Err(ErrorCode::DuplicateMember)
    } else {
        Ok(
            MultisigView {
                create_key,
                config_authority,
                threshold,
                members,
                time_lock,
                transaction_index: 0,
                stale_transaction_index: 0,
            },
        )
    }
}

#[derive(Debug)]
pub struct Multisig {
    /// Key used as a seed to derive the registry's address.
    pub create_key: Pubkey,
    /// Authority that may edit the registry outside of voting.
    pub config_authority: Pubkey,
    /// Number of approvals required.
    pub threshold: u16,
    /// Members, in insertion order.
    pub members: Vec<Pubkey>,
    /// Delay in seconds before an approved transaction may execute.
    pub time_lock: u32,
    /// Index of the latest transaction created.
    pub transaction_index: u64,
    /// Proposals at or below this index are stale.
    pub stale_transaction_index: u64,
}

impl View for Multisig {
    type V = MultisigView;

    open spec fn view(&self) -> MultisigView {
        MultisigView {
            create_key: self.create_key,
            config_authority: self.config_authority,
            threshold: self.threshold,
            members: self.members@,
            time_lock: self.time_lock,
            transaction_index: self.transaction_index,
            stale_transaction_index: self.stale_transaction_index,
        }
    }
}

impl Multisig {
    /// Forms a registry; fails unless the members and threshold meet the
    /// registry invariant.
    pub fn new(
        create_key: Pubkey,
        config_authority: Pubkey,
        threshold: u16,
        members: Vec<Pubkey>,
        time_lock: u32,
    ) -> (r: Result<Multisig, ErrorCode>)
        ensures
            match new_multisig_result(create_key, config_authority, threshold, members@, time_lock) {
                Ok(v) => r is Ok && r->Ok_0@ == v,
                Err(e) => r == Err::<Multisig, ErrorCode>(e),
            },
            r is Ok ==> r->Ok_0@.wf(),
    {
        if threshold == 0 || threshold as usize > members.len() {
            return Err(ErrorCode::InvalidThreshold);
        }
        if members.len() > MAX_MEMBERS {
            return Err(ErrorCode::ExceedsMaxMembers);
        }
        if has_duplicate_keys(&members) {
            return Err(ErrorCode::DuplicateMember);
        }
        Ok(
            Multisig {
                create_key,
                config_authority,
                threshold,
                members,
                time_lock,
                transaction_index: 0,
                stale_transaction_index: 0,
            },
        )
    }

    /// Whether the registry meets its invariant.
    pub fn is_well_formed(&self) -> (r: bool)
        ensures
            r == self@.wf(),
    {
        self.threshold >= 1 && self.threshold as usize <= self.members.len() && self.members.len()
            <= MAX_MEMBERS && !has_duplicate_keys(&self.members)
    }

    pub fn is_member(&self, k: &Pubkey) -> (r: bool)
        ensures
            r == self@.is_member(*k),
    {
        contains_key(&self.members, k)
    }

    /// Appends a member. Fails with `DuplicateMember` if present and with
    /// `ExceedsMaxMembers` at capacity.
    pub fn add_member(&mut self, new_member: Pubkey) -> (r: Result<(), ErrorCode>)
        requires
            old(self)@.wf(),
        ensures
            takes_effect(r, old(self)@, final(self)@, old(self)@.add_member_result(new_member)),
            final(self)@.wf(),
    {
        if contains_key(&self.members, &new_member) {
            return Err(ErrorCode::DuplicateMember);
        }
        if self.members.len() >= MAX_MEMBERS {
            return Err(ErrorCode::ExceedsMaxMembers);
        }
        proof {
            lemma_add_key(self.members@, new_member);
        }
        self.members.push(new_member);
        Ok(())
    }

    /// Removes a member. Fails with `NotAMember` if absent, with
    /// `RemoveLastMember` if it is the only one, and with `InvalidThreshold`
    /// if fewer members than the threshold would remain.
    pub fn remove_member(&mut self, old_member: Pubkey) -> (r: Result<(), ErrorCode>)
        requires
            old(self)@.wf(),
        ensures
            takes_effect(r, old(self)@, final(self)@, old(self)@.remove_member_result(old_member)),
            final(self)@.wf(),
    {
        proof {
            lemma_remove_key(self.members@, old_member);
        }
        if !contains_key(&self.members, &old_member) {
            return Err(ErrorCode::NotAMember);
        }
        if self.members.len() <= 1 {
            return Err(ErrorCode::RemoveLastMember);
        }
        if self.threshold as usize > self.members.len() - 1 {
            return Err(ErrorCode::InvalidThreshold);
        }
        self.members = without_key(&self.members, &old_member);
        Ok(())
    }

    /// Replaces the threshold, which must lie between one and the number of
    /// members.
    pub fn set_threshold(&mut self, new_threshold: u16) -> (r: Result<(), ErrorCode>)
        requires
            old(self)@.wf(),
        ensures
            takes_effect(r, old(self)@, final(self)@, old(self)@.set_threshold_result(new_threshold)),
            final(self)@.wf(),
    {
        if new_threshold == 0 || new_threshold as usize > self.members.len() {
            return Err(ErrorCode::InvalidThreshold);
        }
        self.threshold = new_threshold;
        Ok(())
    }

    pub fn set_time_lock(&mut self, new_time_lock: u32)
        ensures
            final(self)@ == (MultisigView { time_lock: new_time_lock, ..old(self)@ }),
    {
        self.time_lock = new_time_lock;
    }

    pub fn set_config_authority(&mut self, new_config_authority: Pubkey)
        ensures
            final(self)@ == (MultisigView { config_authority: new_config_authority, ..old(self)@ }),
    {
        self.config_authority = new_config_authority;
    }

    /// Moves the stale watermark to `new_watermark`, which may not lie below
    /// the current one.
    pub fn advance_staleness(&mut self, new_watermark: u64) -> (r: Result<(), ErrorCode>)
        ensures
            takes_effect(r, old(self)@, final(self)@, old(self)@.advance_staleness_result(new_watermark)),
            old(self)@.wf() ==> final(self)@.wf(),
    {
        if new_watermark < self.stale_transaction_index {
            return Err(ErrorCode::InvalidStaleTransactionIndex);
        }
        self.stale_transaction_index = new_watermark;
        Ok(())
    }

    /// A copy of this registry.
    pub fn duplicate(&self) -> (r: Multisig)
        ensures
            r@ == self@,
    {
        Multisig {
            create_key: self.create_key,
            config_authority: self.config_authority,
            threshold: self.threshold,
            members: copy_keys(&self.members),
            time_lock: self.time_lock,
            transaction_index: self.transaction_index,
            stale_transaction_index: self.stale_transaction_index,
        }
    }
}

/// The accounts of a registry creation.
#[derive(Debug)]
pub struct MultisigCreate {
    pub multisig: Multisig,
    pub program_config: ProgramConfig,
    pub treasury: Pubkey,
    pub create_key: Pubkey,
    pub creator: Pubkey,
}

impl MultisigCreate {
    /// Forms the registry seeded by `create_key`. The treasury account must be
    /// the configured one.
    pub fn create_multisig(
        &mut self,
        config_authority: Pubkey,
        threshold: u16,
        members: Vec<Pubkey>,
        time_lock: u32,
    ) -> (r: Result<(), ErrorCode>)
        ensures
            final(self).program_config == old(self).program_config,
            final(self).treasury == old(self).treasury,
            final(self).create_key == old(self).create_key,
            final(self).creator == old(self).creator,
            takes_effect(
                r,
                old(self).multisig@,
                final(self).multisig@,
                if old(self).treasury != old(self).program_config.treasury {
                    Err(ErrorCode::InvalidTreasury)
                } else {
                    new_multisig_result(
                        old(self).create_key,
                        config_authority,
                        threshold,
                        members@,
                        time_lock,
                    )
                },
            ),
            r is Ok ==> final(self).multisig@.wf(),
    {
        if !keys_equal(&self.treasury, &self.program_config.treasury) {
            return Err(ErrorCode::InvalidTreasury);
        }
        match Multisig::new(self.create_key, config_authority, threshold, members, time_lock) {
            Ok(m) => {
                self.multisig = m;
                Ok(())
            },
            Err(e) => Err(e),
        }
    }

    /// The creation fee to transfer to the treasury, if any is due.
    pub fn creation_fee_due(&self) -> (r: Option<u64>)
        ensures
            r == if self.program_config.creation_fee > 0 {
                Some(self.program_config.creation_fee)
            } else {
                None::<u64>
            },
    {
        if self.program_config.creation_fee > 0 {
            Some(self.program_config.creation_fee)
        } else {
            None
        }
    }
}

/// The accounts of an edit of a registry by its configuration authority.
#[derive(Debug)]
pub struct MultisigEdit {
    pub multisig: Multisig,
    pub config_authority: Pubkey,
}

impl MultisigEdit {
    /// Succeeds exactly when the signer is the registry's configuration
    /// authority.
    pub fn check_current_authority(&self) -> (r: Result<(), ErrorCode>)
        ensures
            r == if self.multisig.config_authority == self.config_authority {
                Ok::<(), ErrorCode>(())
            } else {
                Err(ErrorCode::InvalidAuthority)
            },
    {
        if keys_equal(&self.multisig.config_authority, &self.config_authority) {
            Ok(())
        } else {
            Err(ErrorCode::InvalidAuthority)
        }
    }

    pub fn add_multisig_member(&mut self, new_member: Pubkey) -> (r: Result<(), ErrorCode>)
        requires
            old(self).multisig@.wf(),
        ensures
            final(self).config_authority == old(self).config_authority,
            takes_effect(
                r,
                old(self).multisig@,
                final(self).multisig@,
                old(self).multisig@.add_member_result(new_member),
            ),
            final(self).multisig@.wf(),
    {
        self.multisig.add_member(new_member)
    }

    pub fn remove_multisig_member(&mut self, old_member: Pubkey) -> (r: Result<(), ErrorCode>)
        requires
            old(self).multisig@.wf(),
        ensures
            final(self).config_authority == old(self).config_authority,
            takes_effect(
                r,
                old(self).multisig@,
                final(self).multisig@,
                old(self).multisig@.remove_member_result(old_member),
            ),
            final(self).multisig@.wf(),
    {
        self.multisig.remove_member(old_member)
    }

    pub fn set_multisig_threshold(&mut self, new_threshold: u16) -> (r: Result<(), ErrorCode>)
        requires
            old(self).multisig@.wf(),
        ensures
            final(self).config_authority == old(self).config_authority,
            takes_effect(
                r,
                old(self).multisig@,
                final(self).multisig@,
                old(self).multisig@.set_threshold_result(new_threshold),
            ),
            final(self).multisig@.wf(),
    {
        self.multisig.set_threshold(new_threshold)
    }

    pub fn set_multisig_time_lock(&mut self, new_time_lock: u32) -> (r: Result<(), ErrorCode>)
        ensures
            r is Ok,
            final(self).config_authority == old(self).config_authority,
            final(self).multisig@ == (MultisigView { time_lock: new_time_lock, ..old(self).multisig@ }),
    {
        self.multisig.set_time_lock(new_time_lock);
        Ok(())
    }

    pub fn set_multisig_config_authority(&mut self, new_config_authority: Pubkey) -> (r: Result<
        (),
        ErrorCode,
    >)
        ensures
            r is Ok,
            final(self).config_authority == old(self).config_authority,
            final(self).multisig@ == (MultisigView {
                config_authority: new_config_authority,
                ..old(self).multisig@
            }),
    {
        self.multisig.set_config_authority(new_config_authority);
        Ok(())
    }
}

} // verus!
