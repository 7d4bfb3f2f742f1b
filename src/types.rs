use vstd::prelude::*;

verus! {

/// An account, a token or a vault, as the host identifies it.
pub type AccountId = u64;

/// Shape of the unlock-over-time function.
#[derive(Clone, Copy, Debug, PartialEq, Eq, Structural)]
pub enum CurveType {
    Linear,
    Exponential,
}

#[derive(Clone, Copy, Debug, PartialEq, Eq, Structural)]
pub enum Role {
    Admin,
    Pauser,
    TreasuryManager,
}

/// One (principal, role) membership.
#[derive(Clone, Copy, Debug, PartialEq, Eq, Structural)]
pub struct RoleGrant {
    pub account: AccountId,
    pub role: Role,
}

/// A release checkpoint; carried as data, not read by the unlock engine.
#[derive(Clone, Copy, Debug, PartialEq, Eq, Structural)]
pub struct Milestone {
    pub timestamp: u64,
    pub percentage: u32,
}

/// One payment flow from `sender` to `receiver`.
#[derive(Clone, Debug)]
pub struct Stream {
    pub sender: AccountId,
    pub receiver: AccountId,
    pub token: AccountId,
    pub total_amount: i128,
    pub start_time: u64,
    pub end_time: u64,
    pub withdrawn_amount: i128,
    pub vault_address: Option<AccountId>,
    pub deposited_principal: i128,
    pub cancelled: bool,
    pub receipt_owner: AccountId,
    pub is_paused: bool,
    pub paused_time: u64,
    pub total_paused_duration: u64,
    pub milestones: Vec<Milestone>,
    pub curve_type: CurveType,
    pub is_usd_pegged: bool,
    pub usd_amount: i128,
    pub oracle_address: AccountId,
    pub oracle_max_staleness: u64,
    pub price_min: i128,
    pub price_max: i128,
    pub is_soulbound: bool,
    pub clawback_enabled: bool,
    pub arbiter: Option<AccountId>,
    pub is_frozen: bool,
}

impl Stream {
    /// A valid time range, a positive amount, and no more withdrawn than funded.
    pub open spec fn wf(&self) -> bool {
        &&& self.start_time < self.end_time
        &&& self.total_amount > 0
        &&& 0 <= self.withdrawn_amount <= self.total_amount
    }
}

/// A funding request that becomes a stream once enough approvers sign it.
#[derive(Clone, Debug)]
pub struct StreamProposal {
    pub sender: AccountId,
    pub receiver: AccountId,
    pub token: AccountId,
    pub total_amount: i128,
    pub start_time: u64,
    pub end_time: u64,
    pub approvers: Vec<AccountId>,
    pub required_approvals: u32,
    pub deadline: u64,
    pub executed: bool,
}

impl StreamProposal {
    pub open spec fn wf(&self) -> bool {
        &&& self.start_time < self.end_time
        &&& self.total_amount > 0
        &&& self.required_approvals >= 1
        &&& self.approvers@.no_duplicates()
        &&& !self.executed ==> self.approvers@.len() < self.required_approvals
    }
}

/// Proof of receivership, issued once per stream.
#[derive(Clone, Copy, Debug, PartialEq, Eq, Structural)]
pub struct StreamReceipt {
    pub stream_id: u64,
    pub owner: AccountId,
    pub minted_at: u64,
}

/// A token movement that the host must carry out for the call to commit.
#[derive(Clone, Copy, Debug, PartialEq, Eq, Structural)]
pub enum Movement {
    /// `from` pays `amount` of `token` into the ledger's custody.
    Deposit { token: AccountId, from: AccountId, amount: i128 },
    /// Custody pays `amount` of `token` to `to`.
    Payout { token: AccountId, to: AccountId, amount: i128 },
    /// Custody parks `amount` of `token` in `vault`; the shares it returns are
    /// recorded with `record_vault_shares`.
    VaultDeposit { vault: AccountId, token: AccountId, amount: i128, stream_id: u64 },
}

/// A notification for off-chain indexers.
#[derive(Clone, Copy, Debug, PartialEq, Eq, Structural)]
pub enum Event {
    ProposalCreated {
        proposal_id: u64,
        sender: AccountId,
        receiver: AccountId,
        token: AccountId,
        total_amount: i128,
        start_time: u64,
        end_time: u64,
        required_approvals: u32,
        deadline: u64,
        timestamp: u64,
    },
    ProposalApproved {
        proposal_id: u64,
        approver: AccountId,
        approval_count: u32,
        required_approvals: u32,
        timestamp: u64,
    },
    StreamCreated {
        stream_id: u64,
        sender: AccountId,
        receiver: AccountId,
        token: AccountId,
        total_amount: i128,
        start_time: u64,
        end_time: u64,
        timestamp: u64,
    },
    StreamToppedUp {
        stream_id: u64,
        sender: AccountId,
        amount: i128,
        new_total: i128,
        new_end_time: u64,
        timestamp: u64,
    },
    SoulboundLocked { stream_id: u64, receiver: AccountId },
}

/// What a cancellation pays out.
#[derive(Clone, Copy, Debug, PartialEq, Eq, Structural)]
pub struct Settlement {
    pub to_receiver: i128,
    pub to_sender: i128,
}

} // verus!
