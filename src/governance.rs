//! Opening streams, directly or through a multi-approver funding proposal.
use vstd::prelude::*;
use crate::error::Error;
use crate::ledger::StellarStreamContract;
use crate::types::{AccountId, CurveType, Event, Milestone, Movement, Stream, StreamProposal, StreamReceipt};

verus! {

impl StellarStreamContract {
    /// `s` is a freshly opened stream with these parameters and the default
    /// pause, oracle and dispute settings.
    pub open spec fn is_fresh_stream(
        s: Stream,
        sender: AccountId,
        receiver: AccountId,
        token: AccountId,
        total_amount: i128,
        start_time: u64,
        end_time: u64,
        curve_type: CurveType,
        is_soulbound: bool,
        vault_address: Option<AccountId>,
    ) -> bool {
        &&& s.sender == sender
        &&& s.receiver == receiver
        &&& s.token == token
        &&& s.total_amount == total_amount
        &&& s.start_time == start_time
        &&& s.end_time == end_time
        &&& s.withdrawn_amount == 0
        &&& s.vault_address == vault_address
        &&& s.deposited_principal == total_amount
        &&& !s.cancelled
        &&& s.receipt_owner == receiver
        &&& !s.is_paused
        &&& s.paused_time == 0
        &&& s.total_paused_duration == 0
        &&& s.curve_type == curve_type
        &&& !s.is_usd_pegged
        &&& s.usd_amount == 0
        &&& s.oracle_address == sender
        &&& s.oracle_max_staleness == 0
        &&& s.price_min == 0
        &&& s.price_max == 0
        &&& s.is_soulbound == is_soulbound
        &&& !s.clawback_enabled
        &&& s.arbiter is None
        &&& !s.is_frozen
    }

    /// The events a creation publishes: a soulbound lock first, where asked
    /// for, then the creation itself.
    pub open spec fn creation_events(
        stream_id: u64,
        sender: AccountId,
        receiver: AccountId,
        token: AccountId,
        total_amount: i128,
        start_time: u64,
        end_time: u64,
        is_soulbound: bool,
        now: u64,
    ) -> Seq<Event> {
        let created = Event::StreamCreated {
            stream_id,
            sender,
            receiver,
            token,
            total_amount,
            start_time,
            end_time,
            timestamp: now,
        };
        if is_soulbound {
            seq![Event::SoulboundLocked { stream_id, receiver }, created]
        } else {
            seq![created]
        }
    }

    /// The movements a creation queues: the principal into custody, then on
    /// into the vault where one is named.
    pub open spec fn creation_movements(
        stream_id: u64,
        sender: AccountId,
        token: AccountId,
        total_amount: i128,
        vault_address: Option<AccountId>,
    ) -> Seq<Movement> {
        let deposit = Movement::Deposit { token, from: sender, amount: total_amount };
        match vault_address {
            Some(v) => seq![
                deposit,
                Movement::VaultDeposit { vault: v, token, amount: total_amount, stream_id },
            ],
            None => seq![deposit],
        }
    }

    /// `self` is `old` with one stream opened under the next id; the events
    /// are stated apart.
    pub open spec fn opened(
        &self,
        old: &Self,
        sender: AccountId,
        receiver: AccountId,
        token: AccountId,
        total_amount: i128,
        start_time: u64,
        end_time: u64,
        milestones: Seq<Milestone>,
        curve_type: CurveType,
        is_soulbound: bool,
        vault_address: Option<AccountId>,
        now: u64,
    ) -> bool {
        let id = old.streams@.len() as u64;
        &&& self.streams@.len() == old.streams@.len() + 1
        &&& self.streams@.take(old.streams@.len() as int) == old.streams@
        &&& Self::is_fresh_stream(
            self.stream(id), sender, receiver, token, total_amount, start_time, end_time,
            curve_type, is_soulbound, vault_address,
        )
        &&& self.stream(id).milestones@ == milestones
        &&& self.receipts@ == old.receipts@.push(
            StreamReceipt { stream_id: id, owner: receiver, minted_at: now },
        )
        &&& self.soulbound_streams@ == if is_soulbound {
            old.soulbound_streams@.push(id)
        } else {
            old.soulbound_streams@
        }
        &&& self.movements@ == old.movements@ + Self::creation_movements(
            id, sender, token, total_amount, vault_address,
        )
        &&& self.admin == old.admin
        &&& self.roles@ == old.roles@
        &&& self.approved_vaults@ == old.approved_vaults@
        &&& self.vault_shares@ == old.vault_shares@
    }

    /// Opens a stream under the next id, with its receipt, index entry,
    /// movements and events.
    fn open_stream(
        &mut self,
        sender: AccountId,
        receiver: AccountId,
        token: AccountId,
        total_amount: i128,
        start_time: u64,
        end_time: u64,
        milestones: Vec<Milestone>,
        curve_type: CurveType,
        is_soulbound: bool,
        vault_address: Option<AccountId>,
        now: u64,
    ) -> (r: u64)
        requires
            old(self).wf(),
            start_time < end_time,
            total_amount > 0,
        ensures
            final(self).wf(),
            r == old(self).streams@.len(),
            final(self).proposals@ == old(self).proposals@,
            final(self).opened(
                old(self), sender, receiver, token, total_amount, start_time, end_time,
                milestones@, curve_type, is_soulbound, vault_address, now,
            ),
            final(self).events@ == old(self).events@ + Self::creation_events(
                r, sender, receiver, token, total_amount, start_time, end_time, is_soulbound, now,
            ),
    {
        let stream_id = self.streams.len() as u64;
        self.movements.push(Movement::Deposit { token, from: sender, amount: total_amount });
        match vault_address {
            Some(vault) => {
                self.movements.push(Movement::VaultDeposit { vault, token, amount: total_amount, stream_id });
            },
            None => {},
        }
        let stream = Stream {
            sender,
            receiver,
            token,
            total_amount,
            start_time,
            end_time,
            withdrawn_amount: 0,
            vault_address,
            deposited_principal: total_amount,
            cancelled: false,
            receipt_owner: receiver,
            is_paused: false,
            paused_time: 0,
            total_paused_duration: 0,
            milestones,
            curve_type,
            is_usd_pegged: false,
            usd_amount: 0,
            oracle_address: sender,
            oracle_max_staleness: 0,
            price_min: 0,
            price_max: 0,
            is_soulbound,
            clawback_enabled: false,
            arbiter: None,
            is_frozen: false,
        };
        self.streams.push(stream);
        if is_soulbound {
            self.events.push(Event::SoulboundLocked { stream_id, receiver });
            self.soulbound_streams.push(stream_id);
        }
        self.events.push(Event::StreamCreated {
            stream_id,
            sender,
            receiver,
            token,
            total_amount,
            start_time,
            end_time,
            timestamp: now,
        });
        self.receipts.push(StreamReceipt { stream_id, owner: receiver, minted_at: now });
        proof {
            assert(self.streams@.take(old(self).streams@.len() as int) =~= old(self).streams@);
            assert(self.movements@ =~= old(self).movements@ + Self::creation_movements(
                stream_id, sender, token, total_amount, vault_address,
            ));
            assert(self.events@ =~= old(self).events@ + Self::creation_events(
                stream_id, sender, receiver, token, total_amount, start_time, end_time,
                is_soulbound, now,
            ));
            assert forall|i: int| 0 <= i < self.streams@.len() implies (#[trigger] self.streams@[i]).wf() by {
                if i < old(self).streams@.len() {
                    assert(self.streams@[i] == old(self).streams@[i]);
                }
            }
        }
        stream_id
    }

    pub open spec fn create_stream_error(
        &self,
        total_amount: i128,
        start_time: u64,
        end_time: u64,
        vault_address: Option<AccountId>,
    ) -> Option<Error> {
        if start_time >= end_time {
            Some(Error::InvalidTimeRange)
        } else if total_amount <= 0 {
            Some(Error::InvalidAmount)
        } else if vault_address is Some && !self.approved_vaults@.contains(vault_address->0) {
            Some(Error::Unauthorized)
        } else {
            None
        }
    }

    /// Opens a stream funded by `sender`, optionally parking the principal in
    /// an allow-listed vault, and returns its id.
    pub fn create_stream_with_milestones(
        &mut self,
        sender: AccountId,
        receiver: AccountId,
        token: AccountId,
        total_amount: i128,
        start_time: u64,
        end_time: u64,
        milestones: Vec<Milestone>,
        curve_type: CurveType,
        is_soulbound: bool,
        vault_address: Option<AccountId>,
        now: u64,
    ) -> (r: Result<u64, Error>)
        requires
            old(self).wf(),
        ensures
            final(self).wf(),
            match old(self).create_stream_error(total_amount, start_time, end_time, vault_address) {
                Some(e) => r == Err::<u64, Error>(e) && *final(self) == *old(self),
                None => {
                    &&& r == Ok::<u64, Error>(old(self).streams@.len() as u64)
                    &&& final(self).proposals@ == old(self).proposals@
                    &&& final(self).opened(
                        old(self), sender, receiver, token, total_amount, start_time, end_time,
                        milestones@, curve_type, is_soulbound, vault_address, now,
                    )
                    &&& final(self).events@ == old(self).events@ + Self::creation_events(
                        old(self).streams@.len() as u64, sender, receiver, token, total_amount,
                        start_time, end_time, is_soulbound, now,
                    )
                },
            },
    {
        if start_time >= end_time {
            return Err(Error::InvalidTimeRange);
        }
        if total_amount <= 0 {
            return Err(Error::InvalidAmount);
        }
        match vault_address {
            Some(vault) => {
                if !Self::is_vault_approved(&self.approved_vaults, vault) {
                    return Err(Error::Unauthorized);
                }
            },
            None => {},
        }
        Ok(self.open_stream(
            sender, receiver, token, total_amount, start_time, end_time, milestones, curve_type,
            is_soulbound, vault_address, now,
        ))
    }

    /// Opens a stream with no milestones and no vault.
    pub fn create_stream(
        &mut self,
        sender: AccountId,
        receiver: AccountId,
        token: AccountId,
        total_amount: i128,
        start_time: u64,
        end_time: u64,
        curve_type: CurveType,
        is_soulbound: bool,
        now: u64,
    ) -> (r: Result<u64, Error>)
        requires
            old(self).wf(),
        ensures
            final(self).wf(),
            match old(self).create_stream_error(total_amount, start_time, end_time, None) {
                Some(e) => r == Err::<u64, Error>(e) && *final(self) == *old(self),
                None => {
                    &&& r == Ok::<u64, Error>(old(self).streams@.len() as u64)
                    &&& final(self).proposals@ == old(self).proposals@
                    &&& final(self).opened(
                        old(self), sender, receiver, token, total_amount, start_time, end_time,
                        Seq::empty(), curve_type, is_soulbound, None, now,
                    )
                    &&& final(self).events@ == old(self).events@ + Self::creation_events(
                        old(self).streams@.len() as u64, sender, receiver, token, total_amount,
                        start_time, end_time, is_soulbound, now,
                    )
                },
            },
    {
        let milestones: Vec<Milestone> = Vec::new();
        assert(milestones@ =~= Seq::<Milestone>::empty());
        self.create_stream_with_milestones(
            sender, receiver, token, total_amount, start_time, end_time, milestones, curve_type,
            is_soulbound, None, now,
        )
    }

    /// Whether `vault` is on the allow-list.
    fn is_vault_approved(vaults: &Vec<AccountId>, vault: AccountId) -> (r: bool)
        ensures
            r == vaults@.contains(vault),
    {
        Self::contains_account(vaults, vault)
    }

    fn contains_account(v: &Vec<AccountId>, a: AccountId) -> (r: bool)
        ensures
            r == v@.contains(a),
    {
        let mut i: usize = 0;
        while i < v.len()
            invariant
                i <= v@.len(),
                forall|j: int| 0 <= j < i ==> v@[j] != a,
            decreases v@.len() - i,
        {
            if v[i] == a {
                assert(v@[i as int] == a);
                return true;
            }
            i += 1;
        }
        false
    }

    /// Records the vault shares that a stream's deposit was exchanged for;
    /// a share count of zero is not recorded.
    pub fn record_vault_shares(&mut self, stream_id: u64, shares: i128)
        ensures
            final(self).vault_shares@ == if shares > 0 {
                old(self).vault_shares@.push((stream_id, shares))
            } else {
                old(self).vault_shares@
            },
            final(self).streams@ == old(self).streams@,
            final(self).proposals@ == old(self).proposals@,
            final(self).wf() == old(self).wf(),
    {
        if shares > 0 {
            self.vault_shares.push((stream_id, shares));
        }
    }


    pub open spec fn create_proposal_error(
        total_amount: i128,
        start_time: u64,
        end_time: u64,
        required_approvals: u32,
        deadline: u64,
        now: u64,
    ) -> Option<Error> {
        if start_time >= end_time {
            Some(Error::InvalidTimeRange)
        } else if total_amount <= 0 {
            Some(Error::InvalidAmount)
        } else if required_approvals == 0 {
            Some(Error::InvalidApprovalThreshold)
        } else if deadline <= now {
            Some(Error::ProposalExpired)
        } else {
            None
        }
    }

    /// Files a funding request that becomes a stream once
    /// `required_approvals` distinct approvers sign it before `deadline`.
    /// No funds move yet.
    pub fn create_proposal(
        &mut self,
        sender: AccountId,
        receiver: AccountId,
        token: AccountId,
        total_amount: i128,
        start_time: u64,
        end_time: u64,
        required_approvals: u32,
        deadline: u64,
        now: u64,
    ) -> (r: Result<u64, Error>)
        requires
            old(self).wf(),
        ensures
            final(self).wf(),
            match Self::create_proposal_error(total_amount, start_time, end_time, required_approvals, deadline, now) {
                Some(e) => r == Err::<u64, Error>(e) && *final(self) == *old(self),
                None => {
                    let id = old(self).proposals@.len() as u64;
                    let p = final(self).proposals@[id as int];
                    &&& r == Ok::<u64, Error>(id)
                    &&& final(self).proposals@.len() == old(self).proposals@.len() + 1
                    &&& final(self).proposals@.take(id as int) == old(self).proposals@
                    &&& p.sender == sender && p.receiver == receiver && p.token == token
                    &&& p.total_amount == total_amount
                    &&& p.start_time == start_time && p.end_time == end_time
                    &&& p.approvers@.len() == 0
                    &&& p.required_approvals == required_approvals
                    &&& p.deadline == deadline
                    &&& !p.executed
                    &&& final(self).same_but_proposals(old(self))
                    &&& final(self).streams@ == old(self).streams@
                    &&& final(self).movements@ == old(self).movements@
                    &&& final(self).events@ == old(self).events@.push(
                        Event::ProposalCreated {
                            proposal_id: id,
                            sender,
                            receiver,
                            token,
                            total_amount,
                            start_time,
                            end_time,
                            required_approvals,
                            deadline,
                            timestamp: now,
                        },
                    )
                },
            },
    {
        if start_time >= end_time {
            return Err(Error::InvalidTimeRange);
        }
        if total_amount <= 0 {
            return Err(Error::InvalidAmount);
        }
        if required_approvals == 0 {
            return Err(Error::InvalidApprovalThreshold);
        }
        if deadline <= now {
            return Err(Error::ProposalExpired);
        }
        let proposal_id = self.proposals.len() as u64;
        let proposal = StreamProposal {
            sender,
            receiver,
            token,
            total_amount,
            start_time,
            end_time,
            approvers: Vec::new(),
            required_approvals,
            deadline,
            executed: false,
        };
        self.proposals.push(proposal);
        self.events.push(Event::ProposalCreated {
            proposal_id,
            sender,
            receiver,
            token,
            total_amount,
            start_time,
            end_time,
            required_approvals,
            deadline,
            timestamp: now,
        });
        proof {
            assert(self.proposals@.take(proposal_id as int) =~= old(self).proposals@);
            assert forall|i: int| 0 <= i < self.proposals@.len() implies (#[trigger] self.proposals@[i]).wf() by {
                if i < old(self).proposals@.len() {
                    assert(self.proposals@[i] == old(self).proposals@[i]);
                }
            }
        }
        Ok(proposal_id)
    }

    /// Everything but the proposals, the streams and the queued effects is as
    /// in `old`.
    pub open spec fn same_but_proposals(&self, old: &Self) -> bool {
        &&& self.admin == old.admin
        &&& self.roles@ == old.roles@
        &&& self.receipts@ == old.receipts@
        &&& self.soulbound_streams@ == old.soulbound_streams@
        &&& self.approved_vaults@ == old.approved_vaults@
        &&& self.vault_shares@ == old.vault_shares@
    }

    pub open spec fn has_proposal(&self, id: u64) -> bool {
        id < self.proposals@.len()
    }

    pub open spec fn proposal(&self, id: u64) -> StreamProposal {
        self.proposals@[id as int]
    }

    pub open spec fn approve_error(&self, proposal_id: u64, approver: AccountId, now: u64) -> Option<Error> {
        if !self.has_proposal(proposal_id) {
            Some(Error::ProposalNotFound)
        } else if self.proposal(proposal_id).executed {
            Some(Error::ProposalAlreadyExecuted)
        } else if now > self.proposal(proposal_id).deadline {
            Some(Error::ProposalExpired)
        } else if self.proposal(proposal_id).approvers@.contains(approver) {
            Some(Error::AlreadyApproved)
        } else {
            None
        }
    }

    /// Adds `approver` to the proposal. The approval that reaches the
    /// threshold executes the proposal: the proposer's funds go into custody
    /// and a linear, non-soulbound stream opens, in the same call.
    pub fn approve_proposal(&mut self, proposal_id: u64, approver: AccountId, now: u64) -> (r: Result<(), Error>)
        requires
            old(self).wf(),
        ensures
            final(self).wf(),
            match old(self).approve_error(proposal_id, approver, now) {
                Some(e) => r == Err::<(), Error>(e) && *final(self) == *old(self),
                None => {
                    let p = old(self).proposal(proposal_id);
                    let q = final(self).proposal(proposal_id);
                    let count = p.approvers@.len() + 1;
                    let executes = count >= p.required_approvals;
                    let approved = Event::ProposalApproved {
                        proposal_id,
                        approver,
                        approval_count: count as u32,
                        required_approvals: p.required_approvals,
                        timestamp: now,
                    };
                    &&& r is Ok
                    &&& final(self).proposals@.len() == old(self).proposals@.len()
                    &&& forall|j: int| 0 <= j < old(self).proposals@.len() && j != proposal_id
                        ==> final(self).proposals@[j] == old(self).proposals@[j]
                    &&& q.approvers@ == p.approvers@.push(approver)
                    &&& q.executed == executes
                    &&& q.sender == p.sender && q.receiver == p.receiver && q.token == p.token
                    &&& q.total_amount == p.total_amount
                    &&& q.start_time == p.start_time && q.end_time == p.end_time
                    &&& q.required_approvals == p.required_approvals
                    &&& q.deadline == p.deadline
                    &&& executes ==> {
                        &&& final(self).opened(
                            old(self), p.sender, p.receiver, p.token, p.total_amount,
                            p.start_time, p.end_time, Seq::empty(), CurveType::Linear, false, None, now,
                        )
                        &&& final(self).events@ == old(self).events@ + Self::creation_events(
                            old(self).streams@.len() as u64, p.sender, p.receiver, p.token,
                            p.total_amount, p.start_time, p.end_time, false, now,
                        ).push(approved)
                    }
                    &&& !executes ==> {
                        &&& final(self).streams@ == old(self).streams@
                        &&& final(self).same_but_proposals(old(self))
                        &&& final(self).movements@ == old(self).movements@
                        &&& final(self).events@ == old(self).events@.push(approved)
                    }
                },
            },
    {
        if proposal_id >= self.proposals.len() as u64 {
            return Err(Error::ProposalNotFound);
        }
        let i = proposal_id as usize;
        if self.proposals[i].executed {
            return Err(Error::ProposalAlreadyExecuted);
        }
        if now > self.proposals[i].deadline {
            return Err(Error::ProposalExpired);
        }
        if Self::contains_account(&self.proposals[i].approvers, approver) {
            return Err(Error::AlreadyApproved);
        }
        self.proposals[i].approvers.push(approver);
        let approval_count = self.proposals[i].approvers.len() as u32;
        let required_approvals = self.proposals[i].required_approvals;
        if approval_count >= required_approvals {
            self.proposals[i].executed = true;
            proof {
                assert forall|j: int| 0 <= j < self.proposals@.len() implies (#[trigger] self.proposals@[j]).wf() by {
                    if j != i {
                        assert(self.proposals@[j] == old(self).proposals@[j]);
                    }
                }
            }
            self.execute_proposal(proposal_id, now);
        } else {
            proof {
                assert forall|j: int| 0 <= j < self.proposals@.len() implies (#[trigger] self.proposals@[j]).wf() by {
                    if j != i {
                        assert(self.proposals@[j] == old(self).proposals@[j]);
                    }
                }
            }
        }
        self.events.push(Event::ProposalApproved {
            proposal_id,
            approver,
            approval_count,
            required_approvals,
            timestamp: now,
        });
        Ok(())
    }

    /// Funds and opens the stream that an executed proposal describes.
    fn execute_proposal(&mut self, proposal_id: u64, now: u64) -> (r: u64)
        requires
            old(self).wf(),
            old(self).has_proposal(proposal_id),
        ensures
            final(self).wf(),
            r == old(self).streams@.len(),
            final(self).proposals@ == old(self).proposals@,
            ({
                let p = old(self).proposal(proposal_id);
                &&& final(self).opened(
                    old(self), p.sender, p.receiver, p.token, p.total_amount, p.start_time,
                    p.end_time, Seq::empty(), CurveType::Linear, false, None, now,
                )
                &&& final(self).events@ == old(self).events@ + Self::creation_events(
                    r, p.sender, p.receiver, p.token, p.total_amount, p.start_time, p.end_time,
                    false, now,
                )
            }),
    {
        let count = self.proposals.len();
        assert(proposal_id < count);
        let i = proposal_id as usize;
        let sender = self.proposals[i].sender;
        let receiver = self.proposals[i].receiver;
        let token = self.proposals[i].token;
        let total_amount = self.proposals[i].total_amount;
        let start_time = self.proposals[i].start_time;
        let end_time = self.proposals[i].end_time;
        proof {
            assert(self.proposals@[i as int].wf());
        }
        let milestones: Vec<Milestone> = Vec::new();
        assert(milestones@ =~= Seq::<Milestone>::empty());
        self.open_stream(
            sender, receiver, token, total_amount, start_time, end_time, milestones,
            CurveType::Linear, false, None, now,
        )
    }
}

} // verus!
