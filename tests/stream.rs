use stellar_stream::{CurveType, Error, Event, Movement, Role, StellarStreamContract, Stream};

const SENDER: u64 = 1;
const RECEIVER: u64 = 2;
const TOKEN: u64 = 3;
const STRANGER: u64 = 4;

fn ledger_with(total: i128, start: u64, end: u64, curve: CurveType, soulbound: bool) -> StellarStreamContract {
    let mut ledger = StellarStreamContract::new();
    let id = ledger
        .create_stream(SENDER, RECEIVER, TOKEN, total, start, end, curve, soulbound, 0)
        .unwrap();
    assert_eq!(id, 0);
    ledger
}

fn stream_of(ledger: &StellarStreamContract) -> Stream {
    ledger.get_stream(0).unwrap().clone()
}

#[test]
fn linear_unlock_half_way_and_after_end() {
    let ledger = ledger_with(1000, 0, 100, CurveType::Linear, false);
    let s = stream_of(&ledger);
    assert_eq!(StellarStreamContract::calculate_unlocked(&s, 50), 500);
    assert_eq!(StellarStreamContract::calculate_unlocked(&s, 150), 1000);
}

#[test]
fn unlocked_is_zero_until_start() {
    let ledger = ledger_with(1000, 10, 110, CurveType::Linear, false);
    let s = stream_of(&ledger);
    assert_eq!(StellarStreamContract::calculate_unlocked(&s, 0), 0);
    assert_eq!(StellarStreamContract::calculate_unlocked(&s, 10), 0);
    assert_eq!(StellarStreamContract::calculate_unlocked(&s, 11), 10);
}

#[test]
fn pause_time_is_excluded_from_elapsed() {
    let mut ledger = ledger_with(1000, 0, 100, CurveType::Linear, false);
    assert_eq!(ledger.pause_stream(0, SENDER, 20), Ok(()));
    let paused = stream_of(&ledger);
    assert!(paused.is_paused);
    assert_eq!(paused.paused_time, 20);
    // The clock is frozen while paused.
    assert_eq!(StellarStreamContract::calculate_unlocked(&paused, 25), 200);
    assert_eq!(ledger.unpause_stream(0, SENDER, 30), Ok(()));
    let s = stream_of(&ledger);
    assert!(!s.is_paused);
    assert_eq!(s.paused_time, 0);
    assert_eq!(s.total_paused_duration, 10);
    assert_eq!(StellarStreamContract::calculate_unlocked(&s, 70), 600);
    // Fully vested only once the end is pushed back by the pause.
    assert_eq!(StellarStreamContract::calculate_unlocked(&s, 105), 950);
    assert_eq!(StellarStreamContract::calculate_unlocked(&s, 110), 1000);
}

#[test]
fn pause_and_unpause_twice_are_no_ops() {
    let mut ledger = ledger_with(1000, 0, 100, CurveType::Linear, false);
    assert_eq!(ledger.unpause_stream(0, SENDER, 5), Ok(()));
    assert_eq!(stream_of(&ledger).total_paused_duration, 0);
    assert_eq!(ledger.pause_stream(0, SENDER, 20), Ok(()));
    assert_eq!(ledger.pause_stream(0, SENDER, 40), Ok(()));
    assert_eq!(stream_of(&ledger).paused_time, 20);
}

#[test]
fn proposal_executes_on_second_approval() {
    let mut ledger = StellarStreamContract::new();
    let pid = ledger.create_proposal(SENDER, RECEIVER, TOKEN, 1000, 0, 100, 2, 50, 0).unwrap();
    assert_eq!(pid, 0);
    assert_eq!(ledger.approve_proposal(pid, 10, 1), Ok(()));
    assert!(!ledger.proposals[0].executed);
    assert_eq!(ledger.streams.len(), 0);
    assert!(ledger.movements.is_empty());
    assert_eq!(ledger.approve_proposal(pid, 11, 2), Ok(()));
    assert!(ledger.proposals[0].executed);
    assert_eq!(ledger.proposals[0].approvers, vec![10, 11]);
    let s = stream_of(&ledger);
    assert_eq!((s.sender, s.receiver, s.total_amount, s.start_time, s.end_time), (SENDER, RECEIVER, 1000, 0, 100));
    assert_eq!(s.curve_type, CurveType::Linear);
    assert!(!s.is_soulbound);
    assert_eq!(ledger.movements, vec![Movement::Deposit { token: TOKEN, from: SENDER, amount: 1000 }]);
    let n = ledger.events.len();
    assert_eq!(
        ledger.events[n - 2],
        Event::StreamCreated {
            stream_id: 0,
            sender: SENDER,
            receiver: RECEIVER,
            token: TOKEN,
            total_amount: 1000,
            start_time: 0,
            end_time: 100,
            timestamp: 2,
        }
    );
    assert_eq!(
        ledger.events[n - 1],
        Event::ProposalApproved { proposal_id: 0, approver: 11, approval_count: 2, required_approvals: 2, timestamp: 2 }
    );
    assert_eq!(ledger.approve_proposal(pid, 12, 3), Err(Error::ProposalAlreadyExecuted));
}

#[test]
fn duplicate_approval_is_rejected() {
    let mut ledger = StellarStreamContract::new();
    let pid = ledger.create_proposal(SENDER, RECEIVER, TOKEN, 1000, 0, 100, 3, 50, 0).unwrap();
    assert_eq!(ledger.approve_proposal(pid, 10, 1), Ok(()));
    assert_eq!(ledger.approve_proposal(pid, 10, 2), Err(Error::AlreadyApproved));
    assert_eq!(ledger.proposals[0].approvers, vec![10]);
}

#[test]
fn approval_after_deadline_is_rejected() {
    let mut ledger = StellarStreamContract::new();
    let pid = ledger.create_proposal(SENDER, RECEIVER, TOKEN, 1000, 0, 100, 3, 50, 0).unwrap();
    assert_eq!(ledger.approve_proposal(pid, 10, 50), Ok(()));
    assert_eq!(ledger.approve_proposal(pid, 11, 51), Err(Error::ProposalExpired));
    assert_eq!(ledger.approve_proposal(7, 11, 1), Err(Error::ProposalNotFound));
}

#[test]
fn create_proposal_rejects_bad_input() {
    let mut ledger = StellarStreamContract::new();
    assert_eq!(ledger.create_proposal(SENDER, RECEIVER, TOKEN, 1000, 100, 100, 1, 50, 0), Err(Error::InvalidTimeRange));
    assert_eq!(ledger.create_proposal(SENDER, RECEIVER, TOKEN, 0, 0, 100, 1, 50, 0), Err(Error::InvalidAmount));
    assert_eq!(ledger.create_proposal(SENDER, RECEIVER, TOKEN, 1000, 0, 100, 0, 50, 0), Err(Error::InvalidApprovalThreshold));
    assert_eq!(ledger.create_proposal(SENDER, RECEIVER, TOKEN, 1000, 0, 100, 1, 50, 50), Err(Error::ProposalExpired));
    assert!(ledger.proposals.is_empty());
    assert!(ledger.events.is_empty());
}

#[test]
fn top_up_extends_end_time_at_same_rate() {
    let mut ledger = ledger_with(100, 0, 10, CurveType::Linear, false);
    assert_eq!(ledger.top_up_stream(0, SENDER, 50, 5), Ok(()));
    let s = stream_of(&ledger);
    assert_eq!(s.total_amount, 150);
    assert_eq!(s.end_time, 15);
    assert_eq!(ledger.movements[1], Movement::Deposit { token: TOKEN, from: SENDER, amount: 50 });
    assert_eq!(
        *ledger.events.last().unwrap(),
        Event::StreamToppedUp { stream_id: 0, sender: SENDER, amount: 50, new_total: 150, new_end_time: 15, timestamp: 5 }
    );
}

#[test]
fn top_up_errors() {
    let mut ledger = ledger_with(100, 0, 10, CurveType::Linear, false);
    assert_eq!(ledger.top_up_stream(0, SENDER, 0, 5), Err(Error::InvalidAmount));
    assert_eq!(ledger.top_up_stream(9, SENDER, 50, 5), Err(Error::StreamNotFound));
    assert_eq!(ledger.top_up_stream(0, STRANGER, 50, 5), Err(Error::Unauthorized));
    assert_eq!(ledger.top_up_stream(0, SENDER, 50, 10), Err(Error::StreamEnded));
    let mut slow = ledger_with(5, 0, 10, CurveType::Linear, false);
    assert_eq!(slow.top_up_stream(0, SENDER, 50, 5), Err(Error::ZeroFlowRate));
    assert_eq!(slow.get_stream(0).unwrap().end_time, 10);
    assert_eq!(ledger.cancel(0, SENDER, 5).map(|_| ()), Ok(()));
    assert_eq!(ledger.top_up_stream(0, SENDER, 50, 5), Err(Error::AlreadyCancelled));
}

#[test]
fn withdraw_pays_exactly_what_is_unlocked() {
    let mut ledger = ledger_with(1000, 0, 100, CurveType::Linear, false);
    assert_eq!(ledger.withdraw(0, RECEIVER, 50), Ok(500));
    assert_eq!(stream_of(&ledger).withdrawn_amount, 500);
    assert_eq!(ledger.movements[1], Movement::Payout { token: TOKEN, to: RECEIVER, amount: 500 });
    assert_eq!(ledger.withdraw(0, RECEIVER, 50), Err(Error::InsufficientBalance));
    assert_eq!(ledger.withdraw(0, RECEIVER, 80), Ok(300));
    let s = stream_of(&ledger);
    assert!(s.withdrawn_amount <= StellarStreamContract::calculate_unlocked(&s, 80));
}

#[test]
fn withdraw_errors() {
    let mut ledger = ledger_with(1000, 0, 100, CurveType::Linear, false);
    assert_eq!(ledger.withdraw(3, RECEIVER, 50), Err(Error::StreamNotFound));
    assert_eq!(ledger.withdraw(0, SENDER, 50), Err(Error::Unauthorized));
    assert_eq!(ledger.pause_stream(0, SENDER, 20), Ok(()));
    assert_eq!(ledger.withdraw(0, RECEIVER, 50), Err(Error::StreamPaused));
    assert_eq!(ledger.cancel(0, RECEIVER, 50).map(|_| ()), Ok(()));
    assert_eq!(ledger.withdraw(0, RECEIVER, 50), Err(Error::AlreadyCancelled));
}

#[test]
fn cancel_splits_the_remaining_balance() {
    let mut ledger = ledger_with(1000, 0, 100, CurveType::Linear, false);
    assert_eq!(ledger.withdraw(0, RECEIVER, 30), Ok(300));
    let settlement = ledger.cancel(0, SENDER, 60).unwrap();
    assert_eq!(settlement.to_receiver, 300);
    assert_eq!(settlement.to_sender, 400);
    assert_eq!(settlement.to_receiver + settlement.to_sender, 1000 - 300);
    let s = stream_of(&ledger);
    assert!(s.cancelled);
    assert_eq!(s.withdrawn_amount, 600);
    assert_eq!(
        ledger.movements[2..].to_vec(),
        vec![
            Movement::Payout { token: TOKEN, to: RECEIVER, amount: 300 },
            Movement::Payout { token: TOKEN, to: SENDER, amount: 400 },
        ]
    );
    assert_eq!(ledger.cancel(0, SENDER, 70), Err(Error::AlreadyCancelled));
}

#[test]
fn cancel_before_start_refunds_everything() {
    let mut ledger = ledger_with(1000, 10, 100, CurveType::Linear, false);
    assert_eq!(ledger.cancel(0, STRANGER, 5), Err(Error::Unauthorized));
    let settlement = ledger.cancel(0, RECEIVER, 5).unwrap();
    assert_eq!((settlement.to_receiver, settlement.to_sender), (0, 1000));
    assert_eq!(ledger.movements.len(), 2);
}

#[test]
fn soulbound_stream_rejects_receiver_transfer() {
    let mut ledger = ledger_with(1000, 0, 100, CurveType::Linear, true);
    assert_eq!(ledger.transfer_receiver(0, SENDER, 9), Err(Error::StreamIsSoulbound));
    assert_eq!(ledger.transfer_receiver(0, STRANGER, 9), Err(Error::StreamIsSoulbound));
    assert_eq!(stream_of(&ledger).receiver, RECEIVER);
    assert_eq!(ledger.get_soulbound_streams(), vec![0]);
    assert_eq!(ledger.events[0], Event::SoulboundLocked { stream_id: 0, receiver: RECEIVER });
}

#[test]
fn transfer_receiver_on_ordinary_stream() {
    let mut ledger = ledger_with(1000, 0, 100, CurveType::Linear, false);
    assert_eq!(ledger.transfer_receiver(0, STRANGER, 9), Err(Error::Unauthorized));
    assert_eq!(ledger.transfer_receiver(5, SENDER, 9), Err(Error::StreamNotFound));
    assert_eq!(ledger.transfer_receiver(0, SENDER, 9), Ok(()));
    assert_eq!(stream_of(&ledger).receiver, 9);
    assert!(ledger.get_soulbound_streams().is_empty());
    assert_eq!(ledger.cancel(0, SENDER, 10).map(|_| ()), Ok(()));
    assert_eq!(ledger.transfer_receiver(0, SENDER, 8), Err(Error::AlreadyCancelled));
}

#[test]
fn create_stream_rejects_bad_input() {
    let mut ledger = StellarStreamContract::new();
    assert_eq!(ledger.create_stream(SENDER, RECEIVER, TOKEN, 1000, 100, 50, CurveType::Linear, false, 0), Err(Error::InvalidTimeRange));
    assert_eq!(ledger.create_stream(SENDER, RECEIVER, TOKEN, -5, 0, 50, CurveType::Linear, false, 0), Err(Error::InvalidAmount));
    assert!(ledger.streams.is_empty());
    assert!(ledger.movements.is_empty());
}

#[test]
fn create_stream_records_receipt_and_deposit() {
    let mut ledger = ledger_with(1000, 0, 100, CurveType::Exponential, false);
    assert_eq!(ledger.movements, vec![Movement::Deposit { token: TOKEN, from: SENDER, amount: 1000 }]);
    assert_eq!(ledger.receipts.len(), 1);
    assert_eq!(ledger.receipts[0].owner, RECEIVER);
    let id = ledger.create_stream(SENDER, RECEIVER, TOKEN, 5, 3, 8, CurveType::Linear, false, 2).unwrap();
    assert_eq!(id, 1);
    assert_eq!(ledger.receipts[1].minted_at, 2);
}

#[test]
fn exponential_curve_values() {
    assert_eq!(StellarStreamContract::calculate_exponential_unlocked(1000, 0, 100, 50), Some(250));
    assert_eq!(StellarStreamContract::calculate_exponential_unlocked(1000, 0, 100, 10), Some(10));
    assert_eq!(StellarStreamContract::calculate_exponential_unlocked(i128::MAX, 0, 100, 50), None);
    let ledger = ledger_with(1000, 0, 100, CurveType::Exponential, false);
    let s = stream_of(&ledger);
    assert_eq!(StellarStreamContract::calculate_unlocked(&s, 50), 250);
    assert_eq!(StellarStreamContract::calculate_unlocked(&s, 100), 1000);
}

#[test]
fn exponential_overflow_falls_back_to_linear() {
    let ledger = ledger_with(i128::MAX, 0, 100, CurveType::Exponential, false);
    let s = stream_of(&ledger);
    assert_eq!(StellarStreamContract::calculate_unlocked(&s, 50), i128::MAX / 2);
}

#[test]
fn linear_handles_largest_amount() {
    let ledger = ledger_with(i128::MAX, 0, u64::MAX, CurveType::Linear, false);
    let s = stream_of(&ledger);
    assert_eq!(StellarStreamContract::calculate_unlocked(&s, u64::MAX - 1), i128::MAX - i128::MAX / u64::MAX as i128 - 1);
}

#[test]
fn unlocked_never_decreases() {
    for curve in [CurveType::Linear, CurveType::Exponential] {
        let mut ledger = ledger_with(777, 10, 90, curve, false);
        assert_eq!(ledger.pause_stream(0, SENDER, 30), Ok(()));
        assert_eq!(ledger.unpause_stream(0, SENDER, 45), Ok(()));
        let s = stream_of(&ledger);
        let mut prev = 0;
        for now in 0..130u64 {
            let u = StellarStreamContract::calculate_unlocked(&s, now);
            assert!(u >= prev);
            assert!(u <= 777);
            prev = u;
        }
        assert_eq!(prev, 777);
    }
}

#[test]
fn fully_unlocked_at_adjusted_end() {
    for curve in [CurveType::Linear, CurveType::Exponential] {
        let mut ledger = ledger_with(999, 5, 50, curve, false);
        assert_eq!(ledger.pause_stream(0, SENDER, 20), Ok(()));
        assert_eq!(ledger.unpause_stream(0, SENDER, 27), Ok(()));
        let s = stream_of(&ledger);
        assert_eq!(StellarStreamContract::calculate_unlocked(&s, 57), 999);
        assert!(StellarStreamContract::calculate_unlocked(&s, 56) < 999);
    }
}

#[test]
fn roles_are_granted_and_revoked() {
    let mut ledger = StellarStreamContract::new();
    assert_eq!(ledger.initialize(SENDER), Ok(()));
    assert_eq!(ledger.get_admin(), SENDER);
    assert!(ledger.check_role(SENDER, Role::Admin));
    assert!(ledger.check_role(SENDER, Role::Pauser));
    assert!(ledger.check_role(SENDER, Role::TreasuryManager));
    assert!(!ledger.check_role(RECEIVER, Role::Pauser));
    ledger.grant_role(SENDER, RECEIVER, Role::Pauser);
    assert!(ledger.check_role(RECEIVER, Role::Pauser));
    assert!(!ledger.check_role(RECEIVER, Role::Admin));
    ledger.grant_role(SENDER, RECEIVER, Role::Pauser);
    ledger.revoke_role(SENDER, RECEIVER, Role::Pauser);
    assert!(!ledger.check_role(RECEIVER, Role::Pauser));
    assert!(ledger.check_role(SENDER, Role::Pauser));
}

#[test]
fn vault_must_be_allow_listed() {
    let mut ledger = StellarStreamContract::new();
    assert_eq!(ledger.initialize(SENDER), Ok(()));
    let vault = 50;
    assert_eq!(
        ledger.create_stream_with_milestones(SENDER, RECEIVER, TOKEN, 1000, 0, 100, Vec::new(), CurveType::Linear, false, Some(vault), 0),
        Err(Error::Unauthorized)
    );
    assert_eq!(ledger.approve_vault(STRANGER, vault), Err(Error::Unauthorized));
    assert_eq!(ledger.approve_vault(SENDER, vault), Ok(()));
    let id = ledger
        .create_stream_with_milestones(SENDER, RECEIVER, TOKEN, 1000, 0, 100, Vec::new(), CurveType::Linear, false, Some(vault), 0)
        .unwrap();
    assert_eq!(
        ledger.movements,
        vec![
            Movement::Deposit { token: TOKEN, from: SENDER, amount: 1000 },
            Movement::VaultDeposit { vault, token: TOKEN, amount: 1000, stream_id: id },
        ]
    );
    assert_eq!(stream_of(&ledger).vault_address, Some(vault));
    ledger.record_vault_shares(id, 0);
    assert!(ledger.vault_shares.is_empty());
    ledger.record_vault_shares(id, 990);
    assert_eq!(ledger.vault_shares, vec![(id, 990)]);
}

#[test]
fn second_initialize_is_refused() {
    let mut ledger = StellarStreamContract::new();
    assert_eq!(ledger.initialize(SENDER), Ok(()));
    assert_eq!(ledger.initialize(STRANGER), Err(Error::Unauthorized));
    assert_eq!(ledger.get_admin(), SENDER);
    assert!(!ledger.check_role(STRANGER, Role::Admin));
    assert!(!ledger.check_role(STRANGER, Role::Pauser));
    assert!(!ledger.check_role(STRANGER, Role::TreasuryManager));
}

#[test]
fn cancel_after_top_up_never_pays_more_than_deposited() {
    let mut ledger = ledger_with(105, 0, 10, CurveType::Linear, false);
    assert_eq!(ledger.withdraw(0, RECEIVER, 5), Ok(52));
    assert_eq!(ledger.top_up_stream(0, SENDER, 50, 5), Ok(()));
    // The longer schedule unlocks 155 * 5 / 15 = 51 at time 5, less than withdrawn.
    assert_eq!(StellarStreamContract::calculate_unlocked(&stream_of(&ledger), 5), 51);
    let settlement = ledger.cancel(0, SENDER, 5).unwrap();
    assert_eq!((settlement.to_receiver, settlement.to_sender), (0, 103));
    assert_eq!(settlement.to_receiver + settlement.to_sender, 155 - 52);
    assert_eq!(stream_of(&ledger).withdrawn_amount, 52);
    let paid: i128 = ledger
        .movements
        .iter()
        .map(|m| match m {
            Movement::Payout { amount, .. } => *amount,
            _ => 0,
        })
        .sum();
    assert_eq!(paid, 155);
}

#[test]
fn cancel_after_exponential_top_up_never_pays_more_than_deposited() {
    let mut ledger = ledger_with(100, 0, 10, CurveType::Exponential, false);
    assert_eq!(ledger.withdraw(0, RECEIVER, 5), Ok(25));
    assert_eq!(ledger.top_up_stream(0, SENDER, 100, 5), Ok(()));
    let s = stream_of(&ledger);
    assert_eq!((s.total_amount, s.end_time), (200, 20));
    assert_eq!(StellarStreamContract::calculate_unlocked(&s, 5), 12);
    let settlement = ledger.cancel(0, RECEIVER, 5).unwrap();
    assert_eq!((settlement.to_receiver, settlement.to_sender), (0, 175));
    let paid: i128 = ledger
        .movements
        .iter()
        .map(|m| match m {
            Movement::Payout { amount, .. } => *amount,
            _ => 0,
        })
        .sum();
    assert_eq!(paid, 200);
}

#[test]
fn well_formedness_is_checked() {
    let mut ledger = ledger_with(1000, 0, 100, CurveType::Linear, false);
    assert!(ledger.is_well_formed());
    ledger.streams[0].withdrawn_amount = 2000;
    assert!(!ledger.is_well_formed());
    let mut other = StellarStreamContract::new();
    other.create_proposal(SENDER, RECEIVER, TOKEN, 10, 0, 5, 3, 9, 0).unwrap();
    assert_eq!(other.approve_proposal(0, 7, 1), Ok(()));
    assert!(other.is_well_formed());
    other.proposals[0].approvers.push(7);
    assert!(!other.is_well_formed());
}
