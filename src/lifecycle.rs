//! The stream state machine: withdraw, cancel, pause, unpause, receiver
//! transfer and top-up.
use vstd::prelude::*;
use crate::error::Error;
use crate::ledger::{sat_add, sat_sub, StellarStreamContract};
use crate::types::{AccountId, Event, Movement, Settlement, Stream};
use crate::vesting::unlocked;

verus! {

impl StellarStreamContract {
    pub open spec fn withdraw_error(&self, stream_id: u64, caller: AccountId, now: u64) -> Option<Error> {
        if !self.has_stream(stream_id) {
            Some(Error::StreamNotFound)
        } else if self.stream(stream_id).receiver != caller {
            Some(Error::Unauthorized)
        } else if self.stream(stream_id).cancelled {
            Some(Error::AlreadyCancelled)
        } else if self.stream(stream_id).is_paused {
            Some(Error::StreamPaused)
        } else if unlocked(self.stream(stream_id), now) - self.stream(stream_id).withdrawn_amount <= 0 {
            Some(Error::InsufficientBalance)
        } else {
            None
        }
    }

    /// Pays the receiver everything unlocked and not yet withdrawn.
    pub fn withdraw(&mut self, stream_id: u64, caller: AccountId, now: u64) -> (r: Result<i128, Error>)
        requires
            old(self).wf(),
        ensures
            final(self).wf(),
            match old(self).withdraw_error(stream_id, caller, now) {
                Some(e) => r == Err::<i128, Error>(e) && *final(self) == *old(self),
                None => {
                    let s = old(self).stream(stream_id);
                    let u = unlocked(s, now);
                    &&& r == Ok::<i128, Error>((u - s.withdrawn_amount) as i128)
                    &&& final(self).stream(stream_id).withdrawn_amount <= u
                    &&& final(self).streams@ == old(self).streams@.update(
                        stream_id as int,
                        Stream { withdrawn_amount: u as i128, ..s },
                    )
                    &&& final(self).same_but_streams(old(self))
                    &&& final(self).events@ == old(self).events@
                    &&& final(self).movements@ == old(self).movements@.push(
                        Movement::Payout { token: s.token, to: s.receiver, amount: (u - s.withdrawn_amount) as i128 },
                    )
                },
            },
    {
        if stream_id >= self.streams.len() as u64 {
            return Err(Error::StreamNotFound);
        }
        let i = stream_id as usize;
        if self.streams[i].receiver != caller {
            return Err(Error::Unauthorized);
        }
        if self.streams[i].cancelled {
            return Err(Error::AlreadyCancelled);
        }
        if self.streams[i].is_paused {
            return Err(Error::StreamPaused);
        }
        let unlocked = Self::calculate_unlocked(&self.streams[i], now);
        let to_withdraw = unlocked - self.streams[i].withdrawn_amount;
        if to_withdraw <= 0 {
            return Err(Error::InsufficientBalance);
        }
        let token = self.streams[i].token;
        let receiver = self.streams[i].receiver;
        self.streams[i].withdrawn_amount = unlocked;
        self.movements.push(Movement::Payout { token, to: receiver, amount: to_withdraw });
        Ok(to_withdraw)
    }

    pub open spec fn cancel_error(&self, stream_id: u64, caller: AccountId) -> Option<Error> {
        if !self.has_stream(stream_id) {
            Some(Error::StreamNotFound)
        } else if self.stream(stream_id).sender != caller && self.stream(stream_id).receiver != caller {
            Some(Error::Unauthorized)
        } else if self.stream(stream_id).cancelled {
            Some(Error::AlreadyCancelled)
        } else {
            None
        }
    }

    /// The payouts queued by a cancellation: each side's share, where positive.
    pub open spec fn settlement_movements(s: Stream, r: Settlement) -> Seq<Movement> {
        let to_receiver = if r.to_receiver > 0 {
            seq![Movement::Payout { token: s.token, to: s.receiver, amount: r.to_receiver }]
        } else {
            Seq::empty()
        };
        let to_sender = if r.to_sender > 0 {
            seq![Movement::Payout { token: s.token, to: s.sender, amount: r.to_sender }]
        } else {
            Seq::empty()
        };
        to_receiver + to_sender
    }

    /// The amount a stream counts as paid to its receiver once cancelled at
    /// `now`: what is unlocked, or what was already withdrawn if that is more.
    pub open spec fn settled_amount(s: Stream, now: u64) -> int {
        let u = unlocked(s, now);
        if u > s.withdrawn_amount { u } else { s.withdrawn_amount as int }
    }

    /// Settles a stream for good: the receiver gets what is unlocked and not
    /// yet withdrawn, the sender gets back the rest. The two payouts never go
    /// below zero and together are exactly what the stream still holds, so a
    /// cancellation never pays out more than was deposited.
    pub fn cancel(&mut self, stream_id: u64, caller: AccountId, now: u64) -> (r: Result<Settlement, Error>)
        requires
            old(self).wf(),
        ensures
            final(self).wf(),
            match old(self).cancel_error(stream_id, caller) {
                Some(e) => r == Err::<Settlement, Error>(e) && *final(self) == *old(self),
                None => {
                    let s = old(self).stream(stream_id);
                    let paid = Self::settled_amount(s, now);
                    &&& r is Ok
                    &&& r->Ok_0.to_receiver == paid - s.withdrawn_amount
                    &&& r->Ok_0.to_sender == s.total_amount - paid
                    &&& r->Ok_0.to_receiver >= 0
                    &&& r->Ok_0.to_sender >= 0
                    &&& r->Ok_0.to_receiver + r->Ok_0.to_sender == s.total_amount - s.withdrawn_amount
                    &&& final(self).streams@ == old(self).streams@.update(
                        stream_id as int,
                        Stream { cancelled: true, withdrawn_amount: paid as i128, ..s },
                    )
                    &&& final(self).same_but_streams(old(self))
                    &&& final(self).events@ == old(self).events@
                    &&& final(self).movements@ == old(self).movements@
                        + Self::settlement_movements(s, r->Ok_0)
                },
            },
    {
        if stream_id >= self.streams.len() as u64 {
            return Err(Error::StreamNotFound);
        }
        let i = stream_id as usize;
        if self.streams[i].sender != caller && self.streams[i].receiver != caller {
            return Err(Error::Unauthorized);
        }
        if self.streams[i].cancelled {
            return Err(Error::AlreadyCancelled);
        }
        let unlocked = Self::calculate_unlocked(&self.streams[i], now);
        let withdrawn = self.streams[i].withdrawn_amount;
        let paid = if unlocked > withdrawn { unlocked } else { withdrawn };
        let to_receiver = paid - withdrawn;
        let to_sender = self.streams[i].total_amount - paid;
        let token = self.streams[i].token;
        let receiver = self.streams[i].receiver;
        let sender = self.streams[i].sender;
        self.streams[i].cancelled = true;
        self.streams[i].withdrawn_amount = paid;
        let ghost before = self.movements@;
        if to_receiver > 0 {
            self.movements.push(Movement::Payout { token, to: receiver, amount: to_receiver });
        }
        if to_sender > 0 {
            self.movements.push(Movement::Payout { token, to: sender, amount: to_sender });
        }
        let r = Settlement { to_receiver, to_sender };
        assert(self.movements@ == before + Self::settlement_movements(old(self).stream(stream_id), r));
        Ok(r)
    }


    /// The checks shared by pause and unpause: the stream exists, the caller
    /// is its sender, and it is not cancelled.
    pub open spec fn sender_action_error(&self, stream_id: u64, caller: AccountId) -> Option<Error> {
        if !self.has_stream(stream_id) {
            Some(Error::StreamNotFound)
        } else if self.stream(stream_id).sender != caller {
            Some(Error::Unauthorized)
        } else if self.stream(stream_id).cancelled {
            Some(Error::AlreadyCancelled)
        } else {
            None
        }
    }

    /// Freezes the stream's clock at `now`; does nothing if already paused.
    pub fn pause_stream(&mut self, stream_id: u64, caller: AccountId, now: u64) -> (r: Result<(), Error>)
        requires
            old(self).wf(),
        ensures
            final(self).wf(),
            match old(self).sender_action_error(stream_id, caller) {
                Some(e) => r == Err::<(), Error>(e) && *final(self) == *old(self),
                None => {
                    let s = old(self).stream(stream_id);
                    &&& r is Ok
                    &&& s.is_paused ==> *final(self) == *old(self)
                    &&& !s.is_paused ==> final(self).streams@ == old(self).streams@.update(
                        stream_id as int,
                        Stream { is_paused: true, paused_time: now, ..s },
                    )
                    &&& final(self).same_but_streams(old(self))
                    &&& final(self).events@ == old(self).events@
                    &&& final(self).movements@ == old(self).movements@
                },
            },
    {
        if stream_id >= self.streams.len() as u64 {
            return Err(Error::StreamNotFound);
        }
        let i = stream_id as usize;
        if self.streams[i].sender != caller {
            return Err(Error::Unauthorized);
        }
        if self.streams[i].cancelled {
            return Err(Error::AlreadyCancelled);
        }
        if self.streams[i].is_paused {
            return Ok(());
        }
        self.streams[i].is_paused = true;
        self.streams[i].paused_time = now;
        Ok(())
    }

    /// Restarts the stream's clock, adding the time spent paused to its
    /// paused total (a clock behind the pause instant counts as no time; the
    /// total saturates); does nothing if not paused.
    pub fn unpause_stream(&mut self, stream_id: u64, caller: AccountId, now: u64) -> (r: Result<(), Error>)
        requires
            old(self).wf(),
        ensures
            final(self).wf(),
            match old(self).sender_action_error(stream_id, caller) {
                Some(e) => r == Err::<(), Error>(e) && *final(self) == *old(self),
                None => {
                    let s = old(self).stream(stream_id);
                    &&& r is Ok
                    &&& !s.is_paused ==> *final(self) == *old(self)
                    &&& s.is_paused ==> final(self).streams@ == old(self).streams@.update(
                        stream_id as int,
                        Stream {
                            is_paused: false,
                            paused_time: 0,
                            total_paused_duration: sat_add(s.total_paused_duration, sat_sub(now, s.paused_time)),
                            ..s
                        },
                    )
                    &&& final(self).same_but_streams(old(self))
                    &&& final(self).events@ == old(self).events@
                    &&& final(self).movements@ == old(self).movements@
                },
            },
    {
        if stream_id >= self.streams.len() as u64 {
            return Err(Error::StreamNotFound);
        }
        let i = stream_id as usize;
        if self.streams[i].sender != caller {
            return Err(Error::Unauthorized);
        }
        if self.streams[i].cancelled {
            return Err(Error::AlreadyCancelled);
        }
        if !self.streams[i].is_paused {
            return Ok(());
        }
        let pause_duration = now.saturating_sub(self.streams[i].paused_time);
        let total = self.streams[i].total_paused_duration.saturating_add(pause_duration);
        self.streams[i].total_paused_duration = total;
        self.streams[i].is_paused = false;
        self.streams[i].paused_time = 0;
        Ok(())
    }


    pub open spec fn transfer_receiver_error(&self, stream_id: u64, caller: AccountId) -> Option<Error> {
        if !self.has_stream(stream_id) {
            Some(Error::StreamNotFound)
        } else if self.stream(stream_id).is_soulbound {
            Some(Error::StreamIsSoulbound)
        } else if self.stream(stream_id).sender != caller {
            Some(Error::Unauthorized)
        } else if self.stream(stream_id).cancelled {
            Some(Error::AlreadyCancelled)
        } else {
            None
        }
    }

    /// Points the stream at a new receiver. A soulbound stream refuses this
    /// whoever asks, before the caller is even looked at.
    pub fn transfer_receiver(&mut self, stream_id: u64, caller: AccountId, new_receiver: AccountId) -> (r: Result<(), Error>)
        requires
            old(self).wf(),
        ensures
            final(self).wf(),
            old(self).has_stream(stream_id) && old(self).stream(stream_id).is_soulbound
                ==> r == Err::<(), Error>(Error::StreamIsSoulbound),
            match old(self).transfer_receiver_error(stream_id, caller) {
                Some(e) => r == Err::<(), Error>(e) && *final(self) == *old(self),
                None => {
                    &&& r is Ok
                    &&& final(self).streams@ == old(self).streams@.update(
                        stream_id as int,
                        Stream { receiver: new_receiver, ..old(self).stream(stream_id) },
                    )
                    &&& final(self).same_but_streams(old(self))
                    &&& final(self).events@ == old(self).events@
                    &&& final(self).movements@ == old(self).movements@
                },
            },
    {
        if stream_id >= self.streams.len() as u64 {
            return Err(Error::StreamNotFound);
        }
        let i = stream_id as usize;
        if self.streams[i].is_soulbound {
            return Err(Error::StreamIsSoulbound);
        }
        if self.streams[i].sender != caller {
            return Err(Error::Unauthorized);
        }
        if self.streams[i].cancelled {
            return Err(Error::AlreadyCancelled);
        }
        self.streams[i].receiver = new_receiver;
        Ok(())
    }


    /// The stream's release rate as funded: amount per unit of time, rounded down.
    pub open spec fn flow_rate(s: Stream) -> int {
        s.total_amount as int / (s.end_time - s.start_time)
    }

    pub open spec fn top_up_error(&self, stream_id: u64, sender: AccountId, amount: i128, now: u64) -> Option<Error> {
        if amount <= 0 {
            Some(Error::InvalidAmount)
        } else if !self.has_stream(stream_id) {
            Some(Error::StreamNotFound)
        } else if self.stream(stream_id).sender != sender {
            Some(Error::Unauthorized)
        } else if self.stream(stream_id).cancelled {
            Some(Error::AlreadyCancelled)
        } else if now >= self.stream(stream_id).end_time {
            Some(Error::StreamEnded)
        } else if Self::flow_rate(self.stream(stream_id)) == 0 {
            Some(Error::ZeroFlowRate)
        } else if self.stream(stream_id).total_amount + amount > i128::MAX
            || self.stream(stream_id).end_time + amount as int / Self::flow_rate(self.stream(stream_id)) > u64::MAX {
            Some(Error::InvalidAmount)
        } else {
            None
        }
    }

    /// Adds `amount` to the stream and extends its end time so that the
    /// release rate stays the same: by `amount / flow_rate`.
    pub fn top_up_stream(&mut self, stream_id: u64, sender: AccountId, amount: i128, now: u64) -> (r: Result<(), Error>)
        requires
            old(self).wf(),
        ensures
            final(self).wf(),
            match old(self).top_up_error(stream_id, sender, amount, now) {
                Some(e) => r == Err::<(), Error>(e) && *final(self) == *old(self),
                None => {
                    let s = old(self).stream(stream_id);
                    let new_total = (s.total_amount + amount) as i128;
                    let new_end = (s.end_time + amount as int / Self::flow_rate(s)) as u64;
                    &&& r is Ok
                    &&& final(self).streams@ == old(self).streams@.update(
                        stream_id as int,
                        Stream { total_amount: new_total, end_time: new_end, ..s },
                    )
                    &&& final(self).same_but_streams(old(self))
                    &&& final(self).movements@ == old(self).movements@.push(
                        Movement::Deposit { token: s.token, from: sender, amount },
                    )
                    &&& final(self).events@ == old(self).events@.push(
                        Event::StreamToppedUp {
                            stream_id,
                            sender,
                            amount,
                            new_total,
                            new_end_time: new_end,
                            timestamp: now,
                        },
                    )
                },
            },
    {
        if amount <= 0 {
            return Err(Error::InvalidAmount);
        }
        if stream_id >= self.streams.len() as u64 {
            return Err(Error::StreamNotFound);
        }
        let i = stream_id as usize;
        if self.streams[i].sender != sender {
            return Err(Error::Unauthorized);
        }
        if self.streams[i].cancelled {
            return Err(Error::AlreadyCancelled);
        }
        if now >= self.streams[i].end_time {
            return Err(Error::StreamEnded);
        }
        let total_duration = self.streams[i].end_time - self.streams[i].start_time;
        let flow_rate = (self.streams[i].total_amount as u128 / total_duration as u128) as i128;
        if flow_rate == 0 {
            return Err(Error::ZeroFlowRate);
        }
        let new_total = match self.streams[i].total_amount.checked_add(amount) {
            Some(t) => t,
            None => return Err(Error::InvalidAmount),
        };
        let additional = (amount as u128 / flow_rate as u128) as u128;
        if additional > (u64::MAX - self.streams[i].end_time) as u128 {
            return Err(Error::InvalidAmount);
        }
        let new_end_time = self.streams[i].end_time + additional as u64;
        let token = self.streams[i].token;
        self.streams[i].total_amount = new_total;
        self.streams[i].end_time = new_end_time;
        self.movements.push(Movement::Deposit { token, from: sender, amount });
        self.events.push(Event::StreamToppedUp {
            stream_id,
            sender,
            amount,
            new_total,
            new_end_time,
            timestamp: now,
        });
        Ok(())
    }
}

} // verus!
