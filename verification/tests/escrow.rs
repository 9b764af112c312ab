use agent_market::ledger::LedgerAccount;
use agent_market::marketplace_escrow::{
    approve_result, cancel_request, create_service_request, deposit, disburse, dispute_result,
    refund, submit_result, ApproveResult, CancelRequest, CreateServiceRequest, DisputeResult,
    ErrorCode, EscrowEvent, PaymentReleased, RequestCancelled, RequestStatus, ResultDisputed,
    ResultSubmitted, ServiceRequest, ServiceRequestCreated, SubmitResult,
};
use agent_market::pubkey::Pubkey;
use agent_market::split::DistributionRecord;

fn esc_key(n: u8) -> Pubkey {
    Pubkey::new_from_array([n; 32])
}

const REQUEST: u8 = 1;
const AGENT: u8 = 2;
const USER: u8 = 3;
const ESCROW: u8 = 4;
const CREATOR: u8 = 5;
const PLATFORM: u8 = 6;
const TREASURY: u8 = 7;

fn esc_create_ctx(user_balance: u64) -> CreateServiceRequest {
    CreateServiceRequest {
        service_request_key: esc_key(REQUEST),
        service_request: None,
        escrow_account: LedgerAccount::new(esc_key(ESCROW), 0),
        user: LedgerAccount::new(esc_key(USER), user_balance),
    }
}

fn esc_request(status: RequestStatus, amount: u64) -> ServiceRequest {
    ServiceRequest {
        request_id: esc_key(REQUEST),
        agent_id: esc_key(AGENT),
        user: esc_key(USER),
        amount,
        status,
        request_data: "do it".to_string(),
        result_data: String::new(),
        created_at: 10,
        completed_at: None,
        escrow_account: esc_key(ESCROW),
    }
}

fn esc_approve_ctx(status: RequestStatus, amount: u64, escrow_balance: u64) -> ApproveResult {
    ApproveResult {
        service_request: esc_request(status, amount),
        escrow_account: LedgerAccount::new(esc_key(ESCROW), escrow_balance),
        user: esc_key(USER),
        creator: LedgerAccount::new(esc_key(CREATOR), 0),
        platform_wallet: LedgerAccount::new(esc_key(PLATFORM), 0),
        treasury_wallet: LedgerAccount::new(esc_key(TREASURY), 0),
    }
}

fn esc_all_statuses() -> [RequestStatus; 6] {
    [
        RequestStatus::Pending,
        RequestStatus::InProgress,
        RequestStatus::Completed,
        RequestStatus::Approved,
        RequestStatus::Disputed,
        RequestStatus::Cancelled,
    ]
}

#[test]
fn create_stores_pending_request_and_funds_escrow() {
    let mut ctx = esc_create_ctx(5000);
    let mut events = Vec::new();
    let result = create_service_request(&mut ctx, esc_key(AGENT), 1000, "do it".to_string(), 10, &mut events);
    assert_eq!(result, Ok(()));
    assert_eq!(ctx.service_request, Some(esc_request(RequestStatus::Pending, 1000)));
    assert_eq!(ctx.user.balance, 4000);
    assert_eq!(ctx.escrow_account.balance, 1000);
    assert_eq!(
        events,
        vec![EscrowEvent::ServiceRequestCreated(ServiceRequestCreated {
            request_id: esc_key(REQUEST),
            agent_id: esc_key(AGENT),
            user: esc_key(USER),
            amount: 1000,
            timestamp: 10,
        })]
    );
}

#[test]
fn create_with_zero_amount_is_rejected() {
    let mut ctx = esc_create_ctx(5000);
    let before = ctx.clone();
    let mut events = Vec::new();
    assert_eq!(
        create_service_request(&mut ctx, esc_key(AGENT), 0, String::new(), 10, &mut events),
        Err(ErrorCode::InvalidAmount)
    );
    assert_eq!(ctx, before);
    assert!(events.is_empty());
}

#[test]
fn create_with_long_payload_is_rejected() {
    let mut ctx = esc_create_ctx(5000);
    let before = ctx.clone();
    let mut events = Vec::new();
    assert_eq!(
        create_service_request(&mut ctx, esc_key(AGENT), 1, "p".repeat(1001), 10, &mut events),
        Err(ErrorCode::PayloadTooLong)
    );
    assert_eq!(ctx, before);
    assert_eq!(
        create_service_request(&mut ctx, esc_key(AGENT), 1, "p".repeat(1000), 10, &mut events),
        Ok(())
    );
}

#[test]
fn create_reports_amount_before_payload() {
    let mut ctx = esc_create_ctx(5000);
    let mut events = Vec::new();
    assert_eq!(
        create_service_request(&mut ctx, esc_key(AGENT), 0, "p".repeat(1001), 10, &mut events),
        Err(ErrorCode::InvalidAmount)
    );
}

#[test]
fn create_without_funds_is_rejected_and_rolled_back() {
    let mut ctx = esc_create_ctx(999);
    let before = ctx.clone();
    let mut events = Vec::new();
    assert_eq!(
        create_service_request(&mut ctx, esc_key(AGENT), 1000, String::new(), 10, &mut events),
        Err(ErrorCode::InsufficientFunds)
    );
    assert_eq!(ctx, before);
    assert!(events.is_empty());
}

#[test]
fn create_into_full_escrow_is_trapped() {
    let mut ctx = esc_create_ctx(1000);
    ctx.escrow_account.balance = u64::MAX;
    let before = ctx.clone();
    let mut events = Vec::new();
    assert_eq!(
        create_service_request(&mut ctx, esc_key(AGENT), 1, String::new(), 10, &mut events),
        Err(ErrorCode::ArithmeticOverflow)
    );
    assert_eq!(ctx, before);
}

#[test]
fn create_twice_in_one_place_is_rejected() {
    let mut ctx = esc_create_ctx(5000);
    let mut events = Vec::new();
    create_service_request(&mut ctx, esc_key(AGENT), 1000, "do it".to_string(), 10, &mut events).unwrap();
    let before = ctx.clone();
    assert_eq!(
        create_service_request(&mut ctx, esc_key(AGENT), 1, String::new(), 11, &mut events),
        Err(ErrorCode::RequestAlreadyExists)
    );
    assert_eq!(ctx, before);
    assert_eq!(events.len(), 1);
}

#[test]
fn create_then_cancel_restores_balances() {
    let mut ctx = esc_create_ctx(5000);
    let mut events = Vec::new();
    create_service_request(&mut ctx, esc_key(AGENT), 1000, "do it".to_string(), 10, &mut events).unwrap();
    let mut cancel = CancelRequest {
        service_request: ctx.service_request.unwrap(),
        escrow_account: ctx.escrow_account,
        user: ctx.user,
    };
    assert_eq!(cancel_request(&mut cancel, 11, &mut events), Ok(()));
    assert_eq!(cancel.user.balance, 5000);
    assert_eq!(cancel.escrow_account.balance, 0);
    assert_eq!(cancel.service_request.status, RequestStatus::Cancelled);
    assert_eq!(
        events[1],
        EscrowEvent::RequestCancelled(RequestCancelled {
            request_id: esc_key(REQUEST),
            user: esc_key(USER),
            refund_amount: 1000,
            timestamp: 11,
        })
    );
}

#[test]
fn create_submit_approve_pays_out_the_fixed_split() {
    let mut ctx = esc_create_ctx(5000);
    let mut events = Vec::new();
    let mut records = Vec::new();
    create_service_request(&mut ctx, esc_key(AGENT), 1000, "do it".to_string(), 10, &mut events).unwrap();
    let mut submit = SubmitResult { service_request: ctx.service_request.unwrap(), agent_authority: esc_key(AGENT) };
    assert_eq!(submit_result(&mut submit, "done".to_string(), 20, &mut events), Ok(()));
    assert_eq!(submit.service_request.status, RequestStatus::Completed);
    assert_eq!(submit.service_request.result_data, "done");
    assert_eq!(submit.service_request.completed_at, Some(20));
    let mut approve = ApproveResult {
        service_request: submit.service_request,
        escrow_account: ctx.escrow_account,
        user: esc_key(USER),
        creator: LedgerAccount::new(esc_key(CREATOR), 0),
        platform_wallet: LedgerAccount::new(esc_key(PLATFORM), 0),
        treasury_wallet: LedgerAccount::new(esc_key(TREASURY), 0),
    };
    assert_eq!(approve_result(&mut approve, 30, &mut events, &mut records), Ok(()));
    assert_eq!(approve.creator.balance, 850);
    assert_eq!(approve.platform_wallet.balance, 100);
    assert_eq!(approve.treasury_wallet.balance, 50);
    assert_eq!(approve.escrow_account.balance, 0);
    assert_eq!(approve.service_request.status, RequestStatus::Approved);
    assert_eq!(
        records,
        vec![DistributionRecord {
            distribution_id: esc_key(REQUEST),
            creator: esc_key(CREATOR),
            total_amount: 1000,
            creator_amount: 850,
            platform_amount: 100,
            treasury_amount: 50,
            timestamp: 30,
        }]
    );
    assert_eq!(
        records[0].creator_amount + records[0].platform_amount + records[0].treasury_amount,
        records[0].total_amount
    );
    assert_eq!(
        events[1],
        EscrowEvent::ResultSubmitted(ResultSubmitted {
            request_id: esc_key(REQUEST),
            agent_id: esc_key(AGENT),
            timestamp: 20,
        })
    );
    assert_eq!(
        events[2],
        EscrowEvent::PaymentReleased(PaymentReleased {
            request_id: esc_key(REQUEST),
            creator: esc_key(CREATOR),
            creator_amount: 850,
            platform_amount: 100,
            treasury_amount: 50,
            timestamp: 30,
        })
    );
    assert_eq!(events.len(), 3);
}

#[test]
fn approve_twice_fails_with_state_error() {
    let mut approve = esc_approve_ctx(RequestStatus::Completed, 1000, 1000);
    let mut events = Vec::new();
    let mut records = Vec::new();
    assert_eq!(approve_result(&mut approve, 30, &mut events, &mut records), Ok(()));
    let before = approve.clone();
    for _ in 0..2 {
        assert_eq!(
            approve_result(&mut approve, 31, &mut events, &mut records),
            Err(ErrorCode::InvalidRequestStatus)
        );
        assert_eq!(approve, before);
    }
    assert_eq!(events.len(), 1);
    assert_eq!(records.len(), 1);
}

#[test]
fn submit_after_approval_fails() {
    let mut approve = esc_approve_ctx(RequestStatus::Completed, 1000, 1000);
    let mut events = Vec::new();
    let mut records = Vec::new();
    approve_result(&mut approve, 30, &mut events, &mut records).unwrap();
    let mut submit = SubmitResult { service_request: approve.service_request, agent_authority: esc_key(AGENT) };
    let before = submit.clone();
    assert_eq!(
        submit_result(&mut submit, "again".to_string(), 40, &mut events),
        Err(ErrorCode::InvalidRequestStatus)
    );
    assert_eq!(submit, before);
}

#[test]
fn submit_is_accepted_only_while_open() {
    for status in esc_all_statuses() {
        let mut submit = SubmitResult { service_request: esc_request(status, 5), agent_authority: esc_key(AGENT) };
        let mut events = Vec::new();
        let result = submit_result(&mut submit, "r".to_string(), 20, &mut events);
        if status == RequestStatus::Pending || status == RequestStatus::InProgress {
            assert_eq!(result, Ok(()));
            assert_eq!(submit.service_request.status, RequestStatus::Completed);
        } else {
            assert_eq!(result, Err(ErrorCode::InvalidRequestStatus));
            assert_eq!(submit.service_request.status, status);
        }
    }
}

#[test]
fn submit_with_long_result_is_rejected_first() {
    let mut submit = SubmitResult {
        service_request: esc_request(RequestStatus::Approved, 5),
        agent_authority: esc_key(AGENT),
    };
    let mut events = Vec::new();
    assert_eq!(
        submit_result(&mut submit, "r".repeat(2001), 20, &mut events),
        Err(ErrorCode::ResultDataTooLong)
    );
    let mut open = SubmitResult {
        service_request: esc_request(RequestStatus::Pending, 5),
        agent_authority: esc_key(AGENT),
    };
    assert_eq!(
        submit_result(&mut open, "r".repeat(2001), 20, &mut events),
        Err(ErrorCode::ResultDataTooLong)
    );
    assert_eq!(submit_result(&mut open, "r".repeat(2000), 20, &mut events), Ok(()));
}

#[test]
fn second_result_after_completion_is_rejected() {
    let mut submit = SubmitResult {
        service_request: esc_request(RequestStatus::InProgress, 5),
        agent_authority: esc_key(AGENT),
    };
    let mut events = Vec::new();
    assert_eq!(submit_result(&mut submit, "first".to_string(), 20, &mut events), Ok(()));
    assert_eq!(
        submit_result(&mut submit, "second".to_string(), 21, &mut events),
        Err(ErrorCode::InvalidRequestStatus)
    );
    assert_eq!(submit.service_request.result_data, "first");
    assert_eq!(submit.service_request.completed_at, Some(20));
}

#[test]
fn approve_is_accepted_only_when_completed() {
    for status in esc_all_statuses() {
        let mut approve = esc_approve_ctx(status, 10, 10);
        let before = approve.clone();
        let mut events = Vec::new();
        let mut records = Vec::new();
        let result = approve_result(&mut approve, 30, &mut events, &mut records);
        if status == RequestStatus::Completed {
            assert_eq!(result, Ok(()));
        } else {
            assert_eq!(result, Err(ErrorCode::InvalidRequestStatus));
            assert_eq!(approve, before);
            assert!(events.is_empty());
            assert!(records.is_empty());
        }
    }
}

#[test]
fn approve_by_another_caller_is_rejected() {
    let mut approve = esc_approve_ctx(RequestStatus::Completed, 1000, 1000);
    approve.user = esc_key(99);
    let before = approve.clone();
    let mut events = Vec::new();
    let mut records = Vec::new();
    assert_eq!(
        approve_result(&mut approve, 30, &mut events, &mut records),
        Err(ErrorCode::UnauthorizedUser)
    );
    assert_eq!(approve, before);
}

#[test]
fn approve_reports_status_before_caller() {
    let mut approve = esc_approve_ctx(RequestStatus::Pending, 1000, 1000);
    approve.user = esc_key(99);
    let mut events = Vec::new();
    let mut records = Vec::new();
    assert_eq!(
        approve_result(&mut approve, 30, &mut events, &mut records),
        Err(ErrorCode::InvalidRequestStatus)
    );
}

#[test]
fn approve_with_short_escrow_is_rejected() {
    let mut approve = esc_approve_ctx(RequestStatus::Completed, 1000, 999);
    let before = approve.clone();
    let mut events = Vec::new();
    let mut records = Vec::new();
    assert_eq!(
        approve_result(&mut approve, 30, &mut events, &mut records),
        Err(ErrorCode::InsufficientCustodyBalance)
    );
    assert_eq!(approve, before);
    assert!(events.is_empty());
    assert!(records.is_empty());
}

#[test]
fn approve_rolls_back_when_a_later_payee_overflows() {
    let mut approve = esc_approve_ctx(RequestStatus::Completed, 1000, 1000);
    approve.treasury_wallet.balance = u64::MAX - 49;
    let before = approve.clone();
    let mut events = Vec::new();
    let mut records = Vec::new();
    assert_eq!(
        approve_result(&mut approve, 30, &mut events, &mut records),
        Err(ErrorCode::ArithmeticOverflow)
    );
    assert_eq!(approve, before);
    assert_eq!(approve.creator.balance, 0);
    assert!(events.is_empty());
    assert!(records.is_empty());
    approve.treasury_wallet.balance = u64::MAX - 50;
    assert_eq!(approve_result(&mut approve, 30, &mut events, &mut records), Ok(()));
    assert_eq!(approve.treasury_wallet.balance, u64::MAX);
}

#[test]
fn approve_of_one_unit_gives_all_to_treasury() {
    let mut approve = esc_approve_ctx(RequestStatus::Completed, 1, 1);
    let mut events = Vec::new();
    let mut records = Vec::new();
    assert_eq!(approve_result(&mut approve, 30, &mut events, &mut records), Ok(()));
    assert_eq!(approve.creator.balance, 0);
    assert_eq!(approve.platform_wallet.balance, 0);
    assert_eq!(approve.treasury_wallet.balance, 1);
    assert_eq!(approve.escrow_account.balance, 0);
}

#[test]
fn approve_of_largest_amount_does_not_overflow() {
    let mut approve = esc_approve_ctx(RequestStatus::Completed, u64::MAX, u64::MAX);
    let mut events = Vec::new();
    let mut records = Vec::new();
    assert_eq!(approve_result(&mut approve, 30, &mut events, &mut records), Ok(()));
    assert_eq!(approve.escrow_account.balance, 0);
    assert_eq!(
        approve.creator.balance as u128 + approve.platform_wallet.balance as u128
            + approve.treasury_wallet.balance as u128,
        u64::MAX as u128
    );
}

#[test]
fn approve_leaves_surplus_in_escrow() {
    let mut approve = esc_approve_ctx(RequestStatus::Completed, 1000, 1200);
    let mut events = Vec::new();
    let mut records = Vec::new();
    assert_eq!(approve_result(&mut approve, 30, &mut events, &mut records), Ok(()));
    assert_eq!(approve.escrow_account.balance, 200);
}

#[test]
fn dispute_marks_request_and_moves_no_funds() {
    let mut ctx = DisputeResult { service_request: esc_request(RequestStatus::Completed, 1000), user: esc_key(USER) };
    let mut events = Vec::new();
    assert_eq!(dispute_result(&mut ctx, "bad".to_string(), 40, &mut events), Ok(()));
    assert_eq!(ctx.service_request.status, RequestStatus::Disputed);
    assert_eq!(ctx.service_request.amount, 1000);
    assert_eq!(
        events,
        vec![EscrowEvent::ResultDisputed(ResultDisputed {
            request_id: esc_key(REQUEST),
            user: esc_key(USER),
            reason: "bad".to_string(),
            timestamp: 40,
        })]
    );
}

#[test]
fn dispute_is_accepted_only_when_completed() {
    for status in esc_all_statuses() {
        let mut ctx = DisputeResult { service_request: esc_request(status, 10), user: esc_key(USER) };
        let mut events = Vec::new();
        let result = dispute_result(&mut ctx, "bad".to_string(), 40, &mut events);
        if status == RequestStatus::Completed {
            assert_eq!(result, Ok(()));
        } else {
            assert_eq!(result, Err(ErrorCode::InvalidRequestStatus));
            assert_eq!(ctx.service_request.status, status);
            assert!(events.is_empty());
        }
    }
}

#[test]
fn dispute_with_long_reason_is_rejected_first() {
    let mut ctx = DisputeResult { service_request: esc_request(RequestStatus::Pending, 10), user: esc_key(99) };
    let mut events = Vec::new();
    assert_eq!(
        dispute_result(&mut ctx, "r".repeat(501), 40, &mut events),
        Err(ErrorCode::DisputeReasonTooLong)
    );
}

#[test]
fn dispute_by_another_caller_is_rejected() {
    let mut ctx = DisputeResult { service_request: esc_request(RequestStatus::Completed, 10), user: esc_key(99) };
    let before = ctx.clone();
    let mut events = Vec::new();
    assert_eq!(
        dispute_result(&mut ctx, "r".repeat(500), 40, &mut events),
        Err(ErrorCode::UnauthorizedUser)
    );
    assert_eq!(ctx, before);
}

#[test]
fn approve_after_dispute_fails() {
    let mut ctx = DisputeResult { service_request: esc_request(RequestStatus::Completed, 10), user: esc_key(USER) };
    let mut events = Vec::new();
    dispute_result(&mut ctx, "bad".to_string(), 40, &mut events).unwrap();
    let mut approve = esc_approve_ctx(RequestStatus::Completed, 10, 10);
    approve.service_request = ctx.service_request;
    let mut records = Vec::new();
    assert_eq!(
        approve_result(&mut approve, 41, &mut events, &mut records),
        Err(ErrorCode::InvalidRequestStatus)
    );
    assert_eq!(approve.escrow_account.balance, 10);
}

#[test]
fn cancel_is_accepted_only_when_pending() {
    for status in esc_all_statuses() {
        let mut ctx = CancelRequest {
            service_request: esc_request(status, 10),
            escrow_account: LedgerAccount::new(esc_key(ESCROW), 10),
            user: LedgerAccount::new(esc_key(USER), 0),
        };
        let before = ctx.clone();
        let mut events = Vec::new();
        let result = cancel_request(&mut ctx, 50, &mut events);
        if status == RequestStatus::Pending {
            assert_eq!(result, Ok(()));
            assert_eq!(ctx.user.balance, 10);
            assert_eq!(ctx.escrow_account.balance, 0);
        } else {
            assert_eq!(result, Err(ErrorCode::CannotCancelRequest));
            assert_eq!(ctx, before);
            assert!(events.is_empty());
        }
    }
}

#[test]
fn cancel_by_another_caller_is_rejected() {
    let mut ctx = CancelRequest {
        service_request: esc_request(RequestStatus::Pending, 10),
        escrow_account: LedgerAccount::new(esc_key(ESCROW), 10),
        user: LedgerAccount::new(esc_key(99), 0),
    };
    let before = ctx.clone();
    let mut events = Vec::new();
    assert_eq!(cancel_request(&mut ctx, 50, &mut events), Err(ErrorCode::UnauthorizedUser));
    assert_eq!(ctx, before);
}

#[test]
fn cancel_with_short_escrow_is_rejected() {
    let mut ctx = CancelRequest {
        service_request: esc_request(RequestStatus::Pending, 10),
        escrow_account: LedgerAccount::new(esc_key(ESCROW), 9),
        user: LedgerAccount::new(esc_key(USER), 0),
    };
    let before = ctx.clone();
    let mut events = Vec::new();
    assert_eq!(cancel_request(&mut ctx, 50, &mut events), Err(ErrorCode::InsufficientCustodyBalance));
    assert_eq!(ctx, before);
}

#[test]
fn cancel_into_full_account_is_trapped() {
    let mut ctx = CancelRequest {
        service_request: esc_request(RequestStatus::Pending, 10),
        escrow_account: LedgerAccount::new(esc_key(ESCROW), 10),
        user: LedgerAccount::new(esc_key(USER), u64::MAX - 9),
    };
    let before = ctx.clone();
    let mut events = Vec::new();
    assert_eq!(cancel_request(&mut ctx, 50, &mut events), Err(ErrorCode::ArithmeticOverflow));
    assert_eq!(ctx, before);
}

#[test]
fn cancel_twice_fails() {
    let mut ctx = CancelRequest {
        service_request: esc_request(RequestStatus::Pending, 10),
        escrow_account: LedgerAccount::new(esc_key(ESCROW), 10),
        user: LedgerAccount::new(esc_key(USER), 0),
    };
    let mut events = Vec::new();
    assert_eq!(cancel_request(&mut ctx, 50, &mut events), Ok(()));
    assert_eq!(cancel_request(&mut ctx, 51, &mut events), Err(ErrorCode::CannotCancelRequest));
    assert_eq!(ctx.user.balance, 10);
}

#[test]
fn custody_deposit_moves_funds_in() {
    let mut from = LedgerAccount::new(esc_key(USER), 10);
    let mut custody = LedgerAccount::new(esc_key(ESCROW), 1);
    assert_eq!(deposit(&mut from, &mut custody, 4), Ok(()));
    assert_eq!((from.balance, custody.balance), (6, 5));
    assert_eq!(deposit(&mut from, &mut custody, 7), Err(ErrorCode::InsufficientFunds));
    assert_eq!((from.balance, custody.balance), (6, 5));
    custody.balance = u64::MAX;
    assert_eq!(deposit(&mut from, &mut custody, 1), Err(ErrorCode::ArithmeticOverflow));
}

#[test]
fn custody_disburse_and_refund_move_funds_out() {
    let mut custody = LedgerAccount::new(esc_key(ESCROW), 10);
    let mut to = LedgerAccount::new(esc_key(CREATOR), 1);
    assert_eq!(disburse(&mut custody, &mut to, 4), Ok(()));
    assert_eq!((custody.balance, to.balance), (6, 5));
    assert_eq!(disburse(&mut custody, &mut to, 7), Err(ErrorCode::InsufficientCustodyBalance));
    assert_eq!((custody.balance, to.balance), (6, 5));
    assert_eq!(refund(&mut custody, &mut to, 6), Ok(()));
    assert_eq!((custody.balance, to.balance), (0, 11));
    assert_eq!(refund(&mut custody, &mut to, 1), Err(ErrorCode::InsufficientCustodyBalance));
    custody.balance = 5;
    to.balance = u64::MAX - 4;
    assert_eq!(refund(&mut custody, &mut to, 5), Err(ErrorCode::ArithmeticOverflow));
    assert_eq!(disburse(&mut custody, &mut to, 5), Err(ErrorCode::ArithmeticOverflow));
    assert_eq!((custody.balance, to.balance), (5, u64::MAX - 4));
}
