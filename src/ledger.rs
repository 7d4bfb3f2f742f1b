//! The ledger's state and the facts shared by its operations.
use vstd::prelude::*;
use crate::types::{
    AccountId, Event, Movement, RoleGrant, Stream, StreamProposal, StreamReceipt,
};

verus! {

/// The protocol's whole state, with the effects queued by the calls so far.
///
/// Streams and proposals are keyed by their position: the id of the next
/// record is the number of records of its kind.
pub struct StellarStreamContract {
    pub admin: Option<AccountId>,
    pub roles: Vec<RoleGrant>,
    pub streams: Vec<Stream>,
    pub proposals: Vec<StreamProposal>,
    pub receipts: Vec<StreamReceipt>,
    pub soulbound_streams: Vec<u64>,
    pub approved_vaults: Vec<AccountId>,
    pub vault_shares: Vec<(u64, i128)>,
    /// Token movements the host must perform for the calls to commit.
    pub movements: Vec<Movement>,
    /// Notifications the host publishes.
    pub events: Vec<Event>,
}

/// `a - b`, floored at zero.
pub open spec fn sat_sub(a: u64, b: u64) -> u64 {
    if a >= b { (a - b) as u64 } else { 0 }
}

/// `a + b`, capped at `u64::MAX`.
pub open spec fn sat_add(a: u64, b: u64) -> u64 {
    if a + b <= u64::MAX { (a + b) as u64 } else { u64::MAX }
}

impl StellarStreamContract {
    pub open spec fn wf(&self) -> bool {
        &&& forall|i: int| 0 <= i < self.streams@.len() ==> (#[trigger] self.streams@[i]).wf()
        &&& forall|i: int| 0 <= i < self.proposals@.len() ==> (#[trigger] self.proposals@[i]).wf()
    }

    pub open spec fn stream(&self, id: u64) -> Stream {
        self.streams@[id as int]
    }

    pub open spec fn has_stream(&self, id: u64) -> bool {
        id < self.streams@.len()
    }

    /// Everything but the stream records and the queued effects is as in `old`.
    pub open spec fn same_but_streams(&self, old: &Self) -> bool {
        &&& self.admin == old.admin
        &&& self.roles@ == old.roles@
        &&& self.proposals@ == old.proposals@
        &&& self.receipts@ == old.receipts@
        &&& self.soulbound_streams@ == old.soulbound_streams@
        &&& self.approved_vaults@ == old.approved_vaults@
        &&& self.vault_shares@ == old.vault_shares@
        &&& self.streams@.len() == old.streams@.len()
    }

    /// An empty ledger with no admin.
    pub fn new() -> (r: Self)
        ensures
            r.wf(),
            r.admin is None,
            r.roles@.len() == 0,
            r.streams@.len() == 0,
            r.proposals@.len() == 0,
            r.receipts@.len() == 0,
            r.soulbound_streams@.len() == 0,
            r.approved_vaults@.len() == 0,
            r.vault_shares@.len() == 0,
            r.movements@.len() == 0,
            r.events@.len() == 0,
    {
        StellarStreamContract {
            admin: None,
            roles: Vec::new(),
            streams: Vec::new(),
            proposals: Vec::new(),
            receipts: Vec::new(),
            soulbound_streams: Vec::new(),
            approved_vaults: Vec::new(),
            vault_shares: Vec::new(),
            movements: Vec::new(),
            events: Vec::new(),
        }
    }

    /// Whether the ledger is well formed, for a caller that holds a ledger
    /// from elsewhere and must establish the operations' precondition.
    pub fn is_well_formed(&self) -> (r: bool)
        ensures
            r == self.wf(),
    {
        let mut i: usize = 0;
        while i < self.streams.len()
            invariant
                i <= self.streams@.len(),
                forall|k: int| 0 <= k < i ==> (#[trigger] self.streams@[k]).wf(),
            decreases self.streams@.len() - i,
        {
            if !Self::stream_is_well_formed(&self.streams[i]) {
                return false;
            }
            i += 1;
        }
        let mut j: usize = 0;
        while j < self.proposals.len()
            invariant
                j <= self.proposals@.len(),
                forall|k: int| 0 <= k < self.streams@.len() ==> (#[trigger] self.streams@[k]).wf(),
                forall|k: int| 0 <= k < j ==> (#[trigger] self.proposals@[k]).wf(),
            decreases self.proposals@.len() - j,
        {
            if !Self::proposal_is_well_formed(&self.proposals[j]) {
                return false;
            }
            j += 1;
        }
        true
    }

    fn stream_is_well_formed(s: &Stream) -> (r: bool)
        ensures
            r == s.wf(),
    {
        s.start_time < s.end_time && s.total_amount > 0 && 0 <= s.withdrawn_amount
            && s.withdrawn_amount <= s.total_amount
    }

    fn proposal_is_well_formed(p: &StreamProposal) -> (r: bool)
        ensures
            r == p.wf(),
    {
        p.start_time < p.end_time && p.total_amount > 0 && p.required_approvals >= 1
            && Self::has_no_duplicates(&p.approvers)
            && (p.executed || (p.approvers.len() as u64) < (p.required_approvals as u64))
    }

    fn has_no_duplicates(v: &Vec<AccountId>) -> (r: bool)
        ensures
            r == v@.no_duplicates(),
    {
        let mut i: usize = 0;
        while i < v.len()
            invariant
                i <= v@.len(),
                forall|a: int, b: int| 0 <= a < b < i ==> v@[a] != v@[b],
            decreases v@.len() - i,
        {
            let mut j: usize = 0;
            while j < i
                invariant
                    j <= i,
                    i < v@.len(),
                    forall|a: int, b: int| 0 <= a < b < i ==> v@[a] != v@[b],
                    forall|a: int| 0 <= a < j ==> v@[a] != v@[i as int],
                decreases i - j,
            {
                if v[j] == v[i] {
                    assert(v@[j as int] == v@[i as int]);
                    return false;
                }
                j += 1;
            }
            i += 1;
        }
        true
    }
}

} // verus!
